use recorder::container::StreamKind;
use recorder::encoder::{AudioConfig, VideoConfig};
use recorder::errors::{ContainerError, InitError, MediaError};
use recorder::frame::{AudioFrame, RawVideoFormat, VideoFrame};
use recorder::mp4::MP4File;
use recorder::path::set_extension_mp4;

fn video_config() -> VideoConfig {
    VideoConfig { width: 1920, height: 1080 }
}

fn audio_config() -> AudioConfig {
    AudioConfig { sample_rate: 48000, channels: 2 }
}

fn video_frame(pts: i64) -> VideoFrame {
    VideoFrame {
        pts,
        format: RawVideoFormat::Yuyv420,
        width: 1920,
        height: 1080,
        data: vec![0u8; 16],
    }
}

fn audio_frame(pts: i64) -> AudioFrame {
    AudioFrame { pts, channels: 2, data: vec![0u8; 8] }
}

#[test]
fn init_commits_header_after_both_registrations() {
    let sink = MP4File::init(b"out.cap".to_vec(), video_config(), Some(audio_config())).unwrap();
    let w = sink.container();
    assert!(w.header_written());
    assert!(!w.trailer_written());
    assert_eq!(w.streams().len(), 2);
    assert_eq!(w.streams()[0], StreamKind::Video);
    assert_eq!(w.streams()[1], StreamKind::Audio);
    assert_eq!(w.packets().len(), 0);
    assert!(sink.has_audio());
    assert!(!sink.is_finished());
}

#[test]
fn init_without_audio_registers_single_stream() {
    let sink = MP4File::init(b"out".to_vec(), video_config(), None).unwrap();
    let w = sink.container();
    assert!(w.header_written());
    assert_eq!(w.streams().len(), 1);
    assert_eq!(w.streams()[0], StreamKind::Video);
    assert!(!sink.has_audio());
}

#[test]
fn init_empty_path_fails_at_container_stage() {
    let r = MP4File::init(Vec::new(), video_config(), None);
    assert!(matches!(r, Err(InitError::Container(ContainerError::OpenFailed))));
}

#[test]
fn init_invalid_video_config_fails_at_video_stage() {
    let r = MP4File::init(b"out".to_vec(), VideoConfig { width: 0, height: 1080 }, None);
    assert!(matches!(r, Err(InitError::VideoInit(MediaError::InvalidVideoConfig))));
}

#[test]
fn init_invalid_audio_config_fails_at_audio_stage() {
    let r = MP4File::init(
        b"out".to_vec(),
        video_config(),
        Some(AudioConfig { sample_rate: 48000, channels: 0 }),
    );
    assert!(matches!(r, Err(InitError::AudioInit(MediaError::InvalidAudioConfig))));
}

#[test]
fn finish_twice_has_no_additional_effect() {
    let mut sink = MP4File::init(b"out".to_vec(), video_config(), Some(audio_config())).unwrap();
    sink.queue_video_frame(video_frame(1));
    sink.queue_audio_frame(audio_frame(2));
    sink.finish();

    let packets_once = sink.container().packets().clone();
    let trailer_once = sink.container().trailer_written();
    let finished_once = sink.is_finished();

    sink.finish();

    assert_eq!(sink.container().packets(), &packets_once);
    assert_eq!(sink.container().trailer_written(), trailer_once);
    assert_eq!(sink.is_finished(), finished_once);
    assert!(trailer_once);
    assert!(finished_once);
}

#[test]
fn frames_after_finish_never_reach_the_output() {
    let mut sink = MP4File::init(b"out".to_vec(), video_config(), Some(audio_config())).unwrap();
    sink.queue_video_frame(video_frame(1));
    sink.queue_video_frame(video_frame(2));
    sink.finish();
    assert_eq!(sink.container().packets().len(), 2);

    for pts in 3..8 {
        sink.queue_video_frame(video_frame(pts));
        sink.queue_audio_frame(audio_frame(pts));
    }
    assert_eq!(sink.container().packets().len(), 2);
}

#[test]
fn queue_audio_without_encoder_has_no_observable_effect() {
    let mut sink = MP4File::init(b"out".to_vec(), video_config(), None).unwrap();
    let packets_before = sink.container().packets().len();
    sink.queue_audio_frame(audio_frame(1));
    sink.queue_audio_frame(audio_frame(2));
    assert_eq!(sink.container().packets().len(), packets_before);
    assert!(sink.container().header_written());
    assert!(!sink.container().trailer_written());
    assert!(!sink.is_finished());
}

#[test]
fn alternating_frames_are_committed_in_submission_order() {
    let mut sink = MP4File::init(b"out".to_vec(), video_config(), Some(audio_config())).unwrap();
    for pts in 0..100i64 {
        sink.queue_video_frame(video_frame(pts));
        sink.queue_audio_frame(audio_frame(pts));
    }
    sink.finish();

    let video_stream = sink.video_stream_index();
    let audio_stream = sink.audio_stream_index().unwrap();
    let packets = sink.container().packets();
    assert_eq!(packets.len(), 200);
    for (k, p) in packets.iter().enumerate() {
        let pts = (k / 2) as i64;
        let expected_stream = if k % 2 == 0 { video_stream } else { audio_stream };
        assert_eq!(p.stream, expected_stream);
        assert_eq!(p.pts, pts);
    }
}

#[test]
fn extension_is_forced_to_mp4() {
    let sink = MP4File::init(b"clips/take1.cap".to_vec(), video_config(), None).unwrap();
    assert_eq!(sink.container().path().as_slice(), b"clips/take1.mp4");

    assert_eq!(set_extension_mp4(&b"movie.mov".to_vec()).as_slice(), b"movie.mp4");
    assert_eq!(set_extension_mp4(&b"plain".to_vec()).as_slice(), b"plain.mp4");
    assert_eq!(set_extension_mp4(&b".hidden".to_vec()).as_slice(), b".hidden.mp4");
    assert_eq!(set_extension_mp4(&b"dir.d/plain".to_vec()).as_slice(), b"dir.d/plain.mp4");
    assert_eq!(set_extension_mp4(&b"a.tar.gz".to_vec()).as_slice(), b"a.tar.mp4");
}

#[test]
fn video_format_is_yuyv420() {
    assert_eq!(MP4File::video_format(), RawVideoFormat::Yuyv420);
}

#[test]
fn init_errors_convert_to_media_errors() {
    assert_eq!(
        MediaError::from(InitError::VideoInit(MediaError::InvalidVideoConfig)),
        MediaError::InvalidVideoConfig
    );
    assert_eq!(
        MediaError::from(InitError::AudioInit(MediaError::InvalidAudioConfig)),
        MediaError::InvalidAudioConfig
    );
    assert_eq!(
        MediaError::from(InitError::Container(ContainerError::OpenFailed)),
        MediaError::Container(ContainerError::OpenFailed)
    );
}
