use recorder::errors::MediaError;
use recorder::frame::{AudioFrame, RawVideoFormat, VideoFrame};
use recorder::session::{
    first_failure, CameraInfo, RecordStart, ScreenCaptureTarget, SessionError, SessionState,
    StopError, TargetInfo,
};

fn screens() -> Vec<TargetInfo> {
    vec![
        TargetInfo { id: "main".to_string(), width: 1920, height: 1080 },
        TargetInfo { id: "side".to_string(), width: 1280, height: 1024 },
    ]
}

fn windows() -> Vec<TargetInfo> {
    vec![TargetInfo { id: "editor".to_string(), width: 800, height: 600 }]
}

fn cameras() -> Vec<CameraInfo> {
    vec![CameraInfo { index: 0, name: "builtin".to_string() }]
}

fn start_for_screen(screen: &str) -> RecordStart {
    RecordStart {
        screen: Some(screen.to_string()),
        window: None,
        camera: None,
        mic: None,
        system_audio: false,
        path: Some(b"session.cap".to_vec()),
        fps: Some(30),
    }
}

fn video_frame(pts: i64) -> VideoFrame {
    VideoFrame {
        pts,
        format: RawVideoFormat::Yuyv420,
        width: 1920,
        height: 1080,
        data: vec![0u8; 16],
    }
}

fn audio_frame(pts: i64) -> AudioFrame {
    AudioFrame { pts, channels: 2, data: vec![0u8; 8] }
}

#[test]
fn unresolvable_target_fails_and_creates_nothing() {
    let r = start_for_screen("zz-missing").run(&screens(), &windows(), &cameras());
    assert!(matches!(r, Err(SessionError::ScreenNotFound)));
}

#[test]
fn missing_target_fails() {
    let mut start = start_for_screen("main");
    start.screen = None;
    let r = start.run(&screens(), &windows(), &cameras());
    assert!(matches!(r, Err(SessionError::NoTarget)));
}

#[test]
fn window_target_resolves() {
    let mut start = start_for_screen("main");
    start.screen = None;
    start.window = Some("editor".to_string());
    let session = start.run(&screens(), &windows(), &cameras()).unwrap();
    match &session.target {
        ScreenCaptureTarget::Window { id } => assert_eq!(id, "editor"),
        _ => panic!("expected a window target"),
    }
}

#[test]
fn unknown_window_fails() {
    let mut start = start_for_screen("main");
    start.screen = None;
    start.window = Some("zz-missing".to_string());
    let r = start.run(&screens(), &windows(), &cameras());
    assert!(matches!(r, Err(SessionError::WindowNotFound)));
}

#[test]
fn camera_lookup_is_lenient() {
    let mut start = start_for_screen("main");
    start.camera = Some(9);
    let session = start.run(&screens(), &windows(), &cameras()).unwrap();
    assert_eq!(session.camera, None);

    let mut start = start_for_screen("main");
    start.camera = Some(0);
    let session = start.run(&screens(), &windows(), &cameras()).unwrap();
    assert_eq!(session.camera, Some(0));
}

#[test]
fn session_id_has_uuid_length() {
    let session = start_for_screen("main").run(&screens(), &windows(), &cameras()).unwrap();
    assert_eq!(session.id.len(), 36);
}

#[test]
fn default_output_path_derives_from_session_id() {
    let mut start = start_for_screen("main");
    start.path = None;
    let session = start.run(&screens(), &windows(), &cameras()).unwrap();
    let path = session.sink.container().path().clone();
    let mut expected = session.id.clone();
    expected.extend_from_slice(b".mp4");
    assert_eq!(path, expected);
}

#[test]
fn audio_track_exists_exactly_when_requested() {
    let session = start_for_screen("main").run(&screens(), &windows(), &cameras()).unwrap();
    assert!(!session.sink.has_audio());

    let mut start = start_for_screen("main");
    start.system_audio = true;
    let session = start.run(&screens(), &windows(), &cameras()).unwrap();
    assert!(session.sink.has_audio());

    let mut start = start_for_screen("main");
    start.mic = Some(1);
    let session = start.run(&screens(), &windows(), &cameras()).unwrap();
    assert!(session.sink.has_audio());
}

#[test]
fn end_to_end_hundred_frames_each_stream() {
    let mut start = start_for_screen("main");
    start.system_audio = true;
    let mut session = start.run(&screens(), &windows(), &cameras()).unwrap();
    assert_eq!(session.state, SessionState::Running);

    for pts in 0..100i64 {
        session.sink.queue_video_frame(video_frame(pts));
        session.sink.queue_audio_frame(audio_frame(pts));
    }
    session.stop().unwrap();
    assert_eq!(session.state, SessionState::Stopped);
    assert!(session.sink.container().trailer_written());

    let video_stream = session.sink.video_stream_index();
    let audio_stream = session.sink.audio_stream_index().unwrap();
    let packets = session.sink.container().packets();
    assert_eq!(packets.len(), 200);
    let video_pts: Vec<i64> =
        packets.iter().filter(|p| p.stream == video_stream).map(|p| p.pts).collect();
    let audio_pts: Vec<i64> =
        packets.iter().filter(|p| p.stream == audio_stream).map(|p| p.pts).collect();
    assert_eq!(video_pts, (0..100).collect::<Vec<i64>>());
    assert_eq!(audio_pts, (0..100).collect::<Vec<i64>>());
}

#[test]
fn stop_succeeds_exactly_once() {
    let mut session = start_for_screen("main").run(&screens(), &windows(), &cameras()).unwrap();
    assert!(session.stop().is_ok());
    assert!(matches!(session.stop(), Err(StopError::NotRunning)));
}

#[test]
fn aborted_session_cannot_be_stopped() {
    let mut session = start_for_screen("main").run(&screens(), &windows(), &cameras()).unwrap();
    session.abort();
    assert_eq!(session.state, SessionState::Failed);
    assert!(!session.sink.container().trailer_written());
    assert!(matches!(session.stop(), Err(StopError::NotRunning)));
}

#[test]
fn invalid_target_dimensions_fail_video_init() {
    let bad = vec![TargetInfo { id: "broken".to_string(), width: 0, height: 0 }];
    let r = start_for_screen("broken").run(&bad, &windows(), &cameras());
    assert!(matches!(r, Err(SessionError::Init(_))));
}

#[test]
fn empty_output_path_fails_container_open() {
    let mut start = start_for_screen("main");
    start.path = Some(Vec::new());
    let r = start.run(&screens(), &windows(), &cameras());
    assert!(matches!(r, Err(SessionError::Init(_))));
}

#[test]
fn first_failure_picks_the_first_error() {
    let all_ok: Vec<Result<(), MediaError>> = vec![Ok(()), Ok(()), Ok(())];
    assert!(first_failure(&all_ok).is_ok());

    let mixed: Vec<Result<(), MediaError>> = vec![
        Ok(()),
        Err(MediaError::InvalidVideoConfig),
        Err(MediaError::InvalidAudioConfig),
    ];
    assert_eq!(first_failure(&mixed), Err(MediaError::InvalidVideoConfig));
}
