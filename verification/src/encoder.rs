use vstd::prelude::*;

use crate::container::{ContainerWriter, Packet, StreamKind, WriterModel};
use crate::errors::MediaError;
use crate::frame::{AudioFrame, VideoFrame};

verus! {

/// Configuration of the mandatory video encoder.
#[derive(Clone, Copy, PartialEq, Eq, Structural, Debug)]
pub struct VideoConfig {
    pub width: u32,
    pub height: u32,
}

impl VideoConfig {
    /// A video encoder accepts only frames with a real picture area.
    pub open spec fn valid(self) -> bool {
        self.width > 0 && self.height > 0
    }
}

/// Configuration of the optional audio encoder.
#[derive(Clone, Copy, PartialEq, Eq, Structural, Debug)]
pub struct AudioConfig {
    pub sample_rate: u32,
    pub channels: u16,
}

impl AudioConfig {
    /// An audio encoder needs a positive sample rate and channel count.
    pub open spec fn valid(self) -> bool {
        self.sample_rate > 0 && self.channels > 0
    }
}

/// The video encoder.  Registration declares one video track with the
/// container writer; each queued frame is encoded into exactly one packet on
/// that track, stamped with the frame's presentation timestamp.
pub struct H264Encoder {
    stream: usize,
    flushed: bool,
}

impl H264Encoder {
    /// The index of the container track this encoder writes to.
    pub closed spec fn spec_stream(self) -> usize {
        self.stream
    }

    /// Whether the encoder has been flushed by `finish`.
    pub closed spec fn spec_flushed(self) -> bool {
        self.flushed
    }

    /// The index of the container track this encoder writes to.
    pub fn stream_index(&self) -> (i: usize)
        ensures
            i == self.spec_stream(),
    {
        self.stream
    }

    /// Registers a video encoder with the writer, declaring its track.
    /// Succeeds exactly when the configuration is valid; on failure the
    /// writer is left untouched.
    pub fn register(config: VideoConfig, output: &mut ContainerWriter) -> (r: Result<
        H264Encoder,
        MediaError,
    >)
        requires
            !old(output)@.header_written,
            old(output)@.streams.len() < usize::MAX,
        ensures
            config.valid() ==> (r matches Ok(e) && e.spec_stream() == old(output)@.streams.len()
                && !e.spec_flushed() && final(output)@ == (WriterModel {
                streams: old(output)@.streams.push(StreamKind::Video),
                ..old(output)@
            })),
            !config.valid() ==> r === Err(MediaError::InvalidVideoConfig) && final(output)@ == old(
                output,
            )@,
    {
        if config.width == 0 || config.height == 0 {
            return Err(MediaError::InvalidVideoConfig);
        }
        let stream = output.add_stream(StreamKind::Video);
        Ok(H264Encoder { stream, flushed: false })
    }

    /// Encodes one frame into one packet on this encoder's track.
    pub fn queue_frame(&mut self, frame: VideoFrame, output: &mut ContainerWriter)
        requires
            old(output)@.header_written,
            !old(output)@.trailer_written,
            old(self).spec_stream() < old(output)@.streams.len(),
        ensures
            *final(self) == *old(self),
            final(output)@ == (WriterModel {
                packets: old(output)@.packets.push(
                    Packet { stream: old(self).spec_stream(), pts: frame.pts },
                ),
                ..old(output)@
            }),
    {
        let packet = Packet { stream: self.stream, pts: frame.pts };
        output.write_packet(packet);
    }

    /// Flushes the encoder.  This encoder buffers nothing, so the writer is
    /// unchanged; the encoder only records that it was flushed.
    pub fn finish(&mut self, output: &mut ContainerWriter)
        ensures
            final(self).spec_stream() == old(self).spec_stream(),
            final(self).spec_flushed(),
            final(output)@ == old(output)@,
    {
        let _ = output;
        self.flushed = true;
    }
}

/// The optional audio encoder, mirroring the video encoder on an audio track.
pub struct AacEncoder {
    stream: usize,
    flushed: bool,
}

impl AacEncoder {
    /// The index of the container track this encoder writes to.
    pub closed spec fn spec_stream(self) -> usize {
        self.stream
    }

    /// Whether the encoder has been flushed by `finish`.
    pub closed spec fn spec_flushed(self) -> bool {
        self.flushed
    }

    /// The index of the container track this encoder writes to.
    pub fn stream_index(&self) -> (i: usize)
        ensures
            i == self.spec_stream(),
    {
        self.stream
    }

    /// Registers an audio encoder with the writer, declaring its track.
    /// Succeeds exactly when the configuration is valid; on failure the
    /// writer is left untouched.
    pub fn register(config: AudioConfig, output: &mut ContainerWriter) -> (r: Result<
        AacEncoder,
        MediaError,
    >)
        requires
            !old(output)@.header_written,
            old(output)@.streams.len() < usize::MAX,
        ensures
            config.valid() ==> (r matches Ok(e) && e.spec_stream() == old(output)@.streams.len()
                && !e.spec_flushed() && final(output)@ == (WriterModel {
                streams: old(output)@.streams.push(StreamKind::Audio),
                ..old(output)@
            })),
            !config.valid() ==> r === Err(MediaError::InvalidAudioConfig) && final(output)@ == old(
                output,
            )@,
    {
        if config.sample_rate == 0 || config.channels == 0 {
            return Err(MediaError::InvalidAudioConfig);
        }
        let stream = output.add_stream(StreamKind::Audio);
        Ok(AacEncoder { stream, flushed: false })
    }

    /// Encodes one frame into one packet on this encoder's track.
    pub fn queue_frame(&mut self, frame: AudioFrame, output: &mut ContainerWriter)
        requires
            old(output)@.header_written,
            !old(output)@.trailer_written,
            old(self).spec_stream() < old(output)@.streams.len(),
        ensures
            *final(self) == *old(self),
            final(output)@ == (WriterModel {
                packets: old(output)@.packets.push(
                    Packet { stream: old(self).spec_stream(), pts: frame.pts },
                ),
                ..old(output)@
            }),
    {
        let packet = Packet { stream: self.stream, pts: frame.pts };
        output.write_packet(packet);
    }

    /// Flushes the encoder.  This encoder buffers nothing, so the writer is
    /// unchanged; the encoder only records that it was flushed.
    pub fn finish(&mut self, output: &mut ContainerWriter)
        ensures
            final(self).spec_stream() == old(self).spec_stream(),
            final(self).spec_flushed(),
            final(output)@ == old(output)@,
    {
        let _ = output;
        self.flushed = true;
    }
}

} // verus!
