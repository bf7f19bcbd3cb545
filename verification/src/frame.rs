use vstd::prelude::*;

verus! {

/// Pixel layout of a raw video frame as handed to the video encoder.
#[derive(Clone, Copy, PartialEq, Eq, Structural, Debug)]
pub enum RawVideoFormat {
    Yuyv420,
    Nv12,
    Rgba,
}

/// One raw video frame: a pixel buffer with its format, dimensions and
/// presentation timestamp.
#[derive(Clone, Debug)]
pub struct VideoFrame {
    pub pts: i64,
    pub format: RawVideoFormat,
    pub width: u32,
    pub height: u32,
    pub data: Vec<u8>,
}

/// One raw audio frame: a sample buffer with its channel count and
/// presentation timestamp.
#[derive(Clone, Debug)]
pub struct AudioFrame {
    pub pts: i64,
    pub channels: u16,
    pub data: Vec<u8>,
}

/// One unit of combined sink input: a video frame, optionally accompanied by
/// an audio frame captured alongside it.
#[derive(Clone, Debug)]
pub struct MP4Input {
    pub video: VideoFrame,
    pub audio: Option<AudioFrame>,
}

} // verus!
