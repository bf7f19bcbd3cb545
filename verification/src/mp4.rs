use vstd::prelude::*;

use crate::container::{ContainerWriter, Packet, StreamKind, WriterModel};
use crate::encoder::{AacEncoder, AudioConfig, H264Encoder, VideoConfig};
use crate::errors::{ContainerError, InitError};
use crate::frame::{AudioFrame, MP4Input, RawVideoFormat, VideoFrame};
use crate::path::set_extension_mp4;
use crate::path::spec_set_extension_mp4;

verus! {

/// Model of the optional audio half of the sink: its container track and
/// whether it has been flushed.
#[verifier::ext_equal]
pub ghost struct AudioModel {
    pub stream: usize,
    pub flushed: bool,
}

/// Mathematical model of the encoding sink: the container writer it owns,
/// the track of the mandatory video encoder, the optional audio encoder,
/// and whether the sink has been finished.
#[verifier::ext_equal]
pub ghost struct SinkModel {
    pub writer: WriterModel,
    pub video_stream: usize,
    pub video_flushed: bool,
    pub audio: Option<AudioModel>,
    pub finished: bool,
}

impl SinkModel {
    /// The sink invariant: the header is committed, the trailer is committed
    /// exactly when the sink is finished, and each encoder owns a declared
    /// track of its kind.
    pub open spec fn wf(self) -> bool {
        &&& self.writer.wf()
        &&& self.writer.header_written
        &&& (self.finished <==> self.writer.trailer_written)
        &&& self.video_stream < self.writer.streams.len()
        &&& self.writer.streams[self.video_stream as int] == StreamKind::Video
        &&& match self.audio {
            Some(a) => a.stream < self.writer.streams.len() && self.writer.streams[a.stream as int]
                == StreamKind::Audio,
            None => true,
        }
    }
}

/// One serialized mutating operation on the sink.
#[derive(Clone, Copy, PartialEq, Eq, Structural, Debug)]
pub enum SinkOp {
    Video { pts: i64 },
    Audio { pts: i64 },
    Finish,
}

/// The effect of one serialized operation on the sink model: a finished sink
/// absorbs everything; an audio operation without an audio encoder is a
/// no-op; otherwise a frame appends one packet on the matching track, and
/// `Finish` flushes both encoders and commits the trailer.
pub open spec fn apply_op(m: SinkModel, op: SinkOp) -> SinkModel {
    if m.finished {
        m
    } else {
        match op {
            SinkOp::Video { pts } => SinkModel {
                writer: WriterModel {
                    packets: m.writer.packets.push(Packet { stream: m.video_stream, pts }),
                    ..m.writer
                },
                ..m
            },
            SinkOp::Audio { pts } => match m.audio {
                Some(a) => SinkModel {
                    writer: WriterModel {
                        packets: m.writer.packets.push(Packet { stream: a.stream, pts }),
                        ..m.writer
                    },
                    ..m
                },
                None => m,
            },
            SinkOp::Finish => SinkModel {
                writer: WriterModel { trailer_written: true, ..m.writer },
                video_flushed: true,
                audio: match m.audio {
                    Some(a) => Some(AudioModel { flushed: true, ..a }),
                    None => None,
                },
                finished: true,
                ..m
            },
        }
    }
}

/// The effect of a serialized sequence of operations, applied in order.
pub open spec fn apply_ops(m: SinkModel, ops: Seq<SinkOp>) -> SinkModel
    decreases ops.len(),
{
    if ops.len() == 0 {
        m
    } else {
        apply_ops(apply_op(m, ops[0]), ops.drop_first())
    }
}

/// The operations one combined input performs: its video frame, then its
/// audio frame if it carries one.
pub open spec fn input_ops(inp: MP4Input) -> Seq<SinkOp> {
    match inp.audio {
        Some(a) => seq![
            SinkOp::Video { pts: inp.video.pts },
            SinkOp::Audio { pts: a.pts },
        ],
        None => seq![SinkOp::Video { pts: inp.video.pts }],
    }
}

/// The operations a sequence of combined inputs performs, in arrival order.
pub open spec fn inputs_ops(inputs: Seq<MP4Input>) -> Seq<SinkOp>
    decreases inputs.len(),
{
    if inputs.len() == 0 {
        Seq::<SinkOp>::empty()
    } else {
        input_ops(inputs[0]) + inputs_ops(inputs.drop_first())
    }
}

/// The operations a sequence of bare video frames performs, in order.
pub open spec fn video_ops(frames: Seq<VideoFrame>) -> Seq<SinkOp> {
    frames.map_values(|f: VideoFrame| SinkOp::Video { pts: f.pts })
}

/// The operations a sequence of bare audio frames performs, in order.
pub open spec fn audio_ops(frames: Seq<AudioFrame>) -> Seq<SinkOp> {
    frames.map_values(|f: AudioFrame| SinkOp::Audio { pts: f.pts })
}

/// Law: every single serialized mutating operation preserves the sink
/// invariant, whatever its kind.
pub proof fn lemma_apply_op_preserves_wf(m: SinkModel, op: SinkOp)
    requires
        m.wf(),
    ensures
        apply_op(m, op).wf(),
{
    let m2 = apply_op(m, op);
    assert forall|i: int| 0 <= i < m2.writer.packets.len() implies 0
        <= #[trigger] m2.writer.packets[i].stream < m2.writer.streams.len() by {
        if i < m.writer.packets.len() {
            assert(m.writer.packets[i].stream < m.writer.streams.len());
        }
    }
}

/// Law: the sink invariant is preserved by every serialized sequence of
/// mutating operations.  Under the sink's mutual-exclusion rule, concurrent
/// video and audio tasks execute some serialization of their calls, so no
/// interleaving of queuing and finishing ever leaves the container invalid.
pub proof fn lemma_serialized_ops_preserve_wf(m: SinkModel, ops: Seq<SinkOp>)
    requires
        m.wf(),
    ensures
        apply_ops(m, ops).wf(),
    decreases ops.len(),
{
    if ops.len() > 0 {
        lemma_apply_op_preserves_wf(m, ops[0]);
        lemma_serialized_ops_preserve_wf(apply_op(m, ops[0]), ops.drop_first());
    }
}

/// Law: finishing twice leaves exactly the state that finishing once
/// leaves; the second finish has no additional effect.
pub proof fn lemma_finish_idempotent(m: SinkModel)
    ensures
        apply_op(apply_op(m, SinkOp::Finish), SinkOp::Finish) == apply_op(m, SinkOp::Finish),
{
}

/// Law: a finished sink absorbs every further operation unchanged, so a
/// frame submitted after `finish` never appears in the packet log.
pub proof fn lemma_finished_absorbs(m: SinkModel, ops: Seq<SinkOp>)
    requires
        m.finished,
    ensures
        apply_ops(m, ops) == m,
    decreases ops.len(),
{
    if ops.len() > 0 {
        lemma_finished_absorbs(m, ops.drop_first());
    }
}

/// Law: with no audio encoder registered, an audio operation has no
/// observable effect on the sink, in particular none on the container
/// writer.
pub proof fn lemma_no_audio_noop(m: SinkModel, pts: i64)
    requires
        m.audio is None,
    ensures
        apply_op(m, SinkOp::Audio { pts }) == m,
{
}

/// Splitting a serialized sequence of operations: applying a concatenation
/// is applying the two halves in order.
pub proof fn lemma_apply_ops_append(m: SinkModel, s: Seq<SinkOp>, t: Seq<SinkOp>)
    ensures
        apply_ops(m, s + t) == apply_ops(apply_ops(m, s), t),
    decreases s.len(),
{
    if s.len() == 0 {
        assert(s + t =~= t);
    } else {
        assert((s + t)[0] == s[0]);
        assert((s + t).drop_first() =~= s.drop_first() + t);
        lemma_apply_ops_append(apply_op(m, s[0]), s.drop_first(), t);
    }
}

/// Applying a sequence extended by one operation is applying the sequence,
/// then the operation.
pub proof fn lemma_apply_ops_snoc(m: SinkModel, s: Seq<SinkOp>, op: SinkOp)
    ensures
        apply_ops(m, s.push(op)) == apply_op(apply_ops(m, s), op),
{
    lemma_apply_ops_append(m, s, seq![op]);
    assert(s.push(op) =~= s + seq![op]);
    let x = apply_ops(m, s);
    assert(seq![op][0] == op);
    assert(seq![op].drop_first() =~= Seq::<SinkOp>::empty());
    assert(apply_ops(x, seq![op]) == apply_ops(apply_op(x, op), seq![op].drop_first()));
    assert(apply_ops(apply_op(x, op), Seq::<SinkOp>::empty()) == apply_op(x, op));
}

/// The operations of a sequence of inputs extended by one input.
pub proof fn lemma_inputs_ops_snoc(s: Seq<MP4Input>, x: MP4Input)
    ensures
        inputs_ops(s.push(x)) == inputs_ops(s) + input_ops(x),
    decreases s.len(),
{
    if s.len() == 0 {
        assert(s.push(x).drop_first() =~= Seq::<MP4Input>::empty());
        assert(inputs_ops(s) + input_ops(x) =~= input_ops(x) + inputs_ops(
            s.push(x).drop_first(),
        ));
    } else {
        assert(s.push(x)[0] == s[0]);
        assert(s.push(x).drop_first() =~= s.drop_first().push(x));
        lemma_inputs_ops_snoc(s.drop_first(), x);
        assert(inputs_ops(s.push(x)) =~= inputs_ops(s) + input_ops(x));
    }
}

/// The packet a frame operation commits, at the sink state the sequence
/// started in.  The fallback arms are never reached under the order law's
/// preconditions.
pub open spec fn op_packet(m: SinkModel, op: SinkOp) -> Packet {
    match op {
        SinkOp::Video { pts } => Packet { stream: m.video_stream, pts },
        SinkOp::Audio { pts } => match m.audio {
            Some(a) => Packet { stream: a.stream, pts },
            None => Packet { stream: m.video_stream, pts },
        },
        SinkOp::Finish => Packet { stream: m.video_stream, pts: 0 },
    }
}

/// Law: while the sink is open, a serialized sequence of frame operations
/// (no finish, and audio only where an audio encoder exists) appends
/// exactly one packet per frame to the container, in operation order, and
/// changes nothing else.
pub proof fn lemma_frames_append_in_order(m: SinkModel, ops: Seq<SinkOp>)
    requires
        !m.finished,
        forall|i: int| 0 <= i < ops.len() ==> !(#[trigger] ops[i] is Finish),
        forall|i: int| 0 <= i < ops.len() ==> (#[trigger] ops[i] is Audio ==> m.audio is Some),
    ensures
        apply_ops(m, ops) == (SinkModel {
            writer: (WriterModel {
                packets: m.writer.packets + ops.map_values(|op: SinkOp| op_packet(m, op)),
                ..m.writer
            }),
            ..m
        }),
    decreases ops.len(),
{
    let target = SinkModel {
        writer: (WriterModel {
            packets: m.writer.packets + ops.map_values(|op: SinkOp| op_packet(m, op)),
            ..m.writer
        }),
        ..m
    };
    if ops.len() == 0 {
        assert(m.writer.packets + ops.map_values(|op: SinkOp| op_packet(m, op)) =~= m.writer.packets);
        assert(target =~~= m);
    } else {
        let m1 = apply_op(m, ops[0]);
        assert(!m1.finished && m1.video_stream == m.video_stream && m1.audio == m.audio);
        lemma_frames_append_in_order(m1, ops.drop_first());
        assert(ops.drop_first().map_values(|op: SinkOp| op_packet(m1, op)) =~= ops.drop_first()
            .map_values(|op: SinkOp| op_packet(m, op)));
        assert(m1.writer.packets + ops.drop_first().map_values(|op: SinkOp| op_packet(m, op))
            =~= m.writer.packets + ops.map_values(|op: SinkOp| op_packet(m, op)));
        assert(apply_ops(m, ops) =~~= target);
    }
}

/// The encoding sink for one mp4 output: it owns the container writer, the
/// mandatory video encoder and the optional audio encoder, and it enforces
/// the open/finish lifecycle.
pub struct MP4File {
    output: ContainerWriter,
    video: H264Encoder,
    audio: Option<AacEncoder>,
    is_finished: bool,
}

impl View for MP4File {
    type V = SinkModel;

    closed spec fn view(&self) -> SinkModel {
        SinkModel {
            writer: self.output@,
            video_stream: self.video.spec_stream(),
            video_flushed: self.video.spec_flushed(),
            audio: match self.audio {
                Some(a) => Some(AudioModel { stream: a.spec_stream(), flushed: a.spec_flushed() }),
                None => None,
            },
            finished: self.is_finished,
        }
    }
}

impl MP4File {
    /// Opens the sink: forces the path's extension to `.mp4`, opens the
    /// container writer, registers the video encoder, registers the audio
    /// encoder only if one was requested, and only after every registration
    /// succeeded commits the container header, before any packet exists.
    /// Succeeds exactly when the path is non-empty and every requested
    /// encoder configuration is valid; each error names the stage at fault.
    pub fn init(path: Vec<u8>, video: VideoConfig, audio: Option<AudioConfig>) -> (r: Result<
        MP4File,
        InitError,
    >)
        requires
            path@.len() + 4 <= usize::MAX,
        ensures
            match r {
                Ok(f) => {
                    &&& path@.len() > 0
                    &&& video.valid()
                    &&& (match audio {
                        Some(a) => a.valid(),
                        None => true,
                    })
                    &&& f@.wf()
                    &&& !f@.finished
                    &&& !f@.video_flushed
                    &&& f@.writer.header_written
                    &&& !f@.writer.trailer_written
                    &&& f@.writer.packets.len() == 0
                    &&& f@.writer.path == spec_set_extension_mp4(path@)
                    &&& f@.video_stream == 0
                    &&& (match (audio, f@.audio) {
                        (Some(_), Some(am)) => am.stream == 1 && !am.flushed,
                        (None, None) => true,
                        _ => false,
                    })
                    &&& f@.writer.streams == (if audio is Some {
                        seq![StreamKind::Video, StreamKind::Audio]
                    } else {
                        seq![StreamKind::Video]
                    })
                },
                Err(e) => match e {
                    InitError::Container(ContainerError::OpenFailed) => path@.len() == 0,
                    InitError::VideoInit(_) => path@.len() > 0 && !video.valid(),
                    InitError::AudioInit(_) => path@.len() > 0 && video.valid() && (match audio {
                        Some(a) => !a.valid(),
                        None => false,
                    }),
                },
            },
    {
        if path.len() == 0 {
            return Err(InitError::Container(ContainerError::OpenFailed));
        }
        let normalized = set_extension_mp4(&path);
        let mut output = ContainerWriter::open(normalized);

        let video_enc = match H264Encoder::register(video, &mut output) {
            Ok(e) => e,
            Err(me) => {
                return Err(InitError::VideoInit(me));
            },
        };
        let audio_enc = match audio {
            Some(cfg) => match AacEncoder::register(cfg, &mut output) {
                Ok(e) => Some(e),
                Err(me) => {
                    return Err(InitError::AudioInit(me));
                },
            },
            None => None,
        };

        // Every registered stream exists; only now is the header committed.
        output.write_header();

        let f = MP4File { output, video: video_enc, audio: audio_enc, is_finished: false };
        proof {
            assert(f@.writer.streams =~= (if audio is Some {
                seq![StreamKind::Video, StreamKind::Audio]
            } else {
                seq![StreamKind::Video]
            }));
        }
        Ok(f)
    }

    /// The pixel format this sink expects raw video frames in.
    pub fn video_format() -> (f: RawVideoFormat)
        ensures
            f == RawVideoFormat::Yuyv420,
    {
        RawVideoFormat::Yuyv420
    }

    /// Queues one video frame: a no-op once finished, otherwise the frame is
    /// encoded into one packet on the video track.
    pub fn queue_video_frame(&mut self, frame: VideoFrame)
        requires
            old(self)@.wf(),
        ensures
            final(self)@ == apply_op(old(self)@, SinkOp::Video { pts: frame.pts }),
            final(self)@.wf(),
            old(self)@.finished ==> final(self)@ == old(self)@,
    {
        if self.is_finished {
            return ;
        }
        self.video.queue_frame(frame, &mut self.output);
        proof {
            assert(self@ =~~= apply_op(old(self)@, SinkOp::Video { pts: frame.pts }));
        }
    }

    /// Queues one audio frame: a no-op once finished, and a no-op with no
    /// observable effect on the container writer if no audio encoder was
    /// registered; otherwise the frame is encoded into one packet on the
    /// audio track.
    pub fn queue_audio_frame(&mut self, frame: AudioFrame)
        requires
            old(self)@.wf(),
        ensures
            final(self)@ == apply_op(old(self)@, SinkOp::Audio { pts: frame.pts }),
            final(self)@.wf(),
            old(self)@.finished ==> final(self)@ == old(self)@,
            old(self)@.audio is None ==> final(self)@ == old(self)@,
    {
        if self.is_finished {
            return ;
        }
        match &mut self.audio {
            Some(a) => {
                a.queue_frame(frame, &mut self.output);
            },
            None => {
                return ;
            },
        }
        proof {
            assert(self@ =~~= apply_op(old(self)@, SinkOp::Audio { pts: frame.pts }));
        }
    }

    /// Finishes the sink.  Idempotent: the second call changes nothing.  The
    /// first call flushes the video encoder, then the audio encoder if one
    /// is registered, then commits the trailer exactly once.
    pub fn finish(&mut self)
        requires
            old(self)@.wf(),
        ensures
            final(self)@ == apply_op(old(self)@, SinkOp::Finish),
            final(self)@.wf(),
            old(self)@.finished ==> final(self)@ == old(self)@,
            final(self)@.finished,
            final(self)@.writer.trailer_written,
            final(self)@.writer.packets == old(self)@.writer.packets,
    {
        if self.is_finished {
            return ;
        }
        self.is_finished = true;

        self.video.finish(&mut self.output);
        match &mut self.audio {
            Some(a) => {
                a.finish(&mut self.output);
            },
            None => {},
        }
        self.output.write_trailer();
        proof {
            assert(self@ =~~= apply_op(old(self)@, SinkOp::Finish));
        }
    }

    /// Queues a sequence of combined inputs in order: for each input the
    /// video frame, then its audio frame if it carries one.
    pub fn consume_inputs(&mut self, inputs: Vec<MP4Input>)
        requires
            old(self)@.wf(),
        ensures
            final(self)@ == apply_ops(old(self)@, inputs_ops(inputs@)),
            final(self)@.wf(),
    {
        let ghost m0 = self@;
        let ghost g = inputs@;
        let n = inputs.len();
        let mut inputs = inputs;
        let mut i: usize = 0;
        proof {
            assert(inputs_ops(g.take(0)) =~= Seq::<SinkOp>::empty());
        }
        while i < n
            invariant
                i <= n,
                n == g.len(),
                inputs@ == g.skip(i as int),
                self@.wf(),
                self@ == apply_ops(m0, inputs_ops(g.take(i as int))),
            decreases n - i,
        {
            let inp = inputs.remove(0);
            proof {
                assert(g.skip(i as int).remove(0) =~= g.skip(i as int + 1));
                assert(inp == g[i as int]);
            }
            let ghost mb = self@;
            let ghost vop = SinkOp::Video { pts: inp.video.pts };
            self.queue_video_frame(inp.video);
            match inp.audio {
                Some(a) => {
                    let ghost aop = SinkOp::Audio { pts: a.pts };
                    self.queue_audio_frame(a);
                    proof {
                        let iops = input_ops(g[i as int]);
                        assert(iops[0] == vop);
                        assert(iops.drop_first() =~= seq![aop]);
                        let m1 = apply_op(mb, vop);
                        assert(apply_ops(mb, iops) == apply_ops(m1, iops.drop_first()));
                        assert(seq![aop][0] == aop);
                        assert(seq![aop].drop_first() =~= Seq::<SinkOp>::empty());
                        assert(apply_ops(m1, seq![aop]) == apply_ops(
                            apply_op(m1, aop),
                            seq![aop].drop_first(),
                        ));
                        assert(apply_ops(apply_op(m1, aop), Seq::<SinkOp>::empty()) == apply_op(
                            m1,
                            aop,
                        ));
                        assert(apply_ops(mb, iops) == self@);
                    }
                },
                None => {
                    proof {
                        let iops = input_ops(g[i as int]);
                        assert(iops[0] == vop);
                        assert(iops.drop_first() =~= Seq::<SinkOp>::empty());
                        assert(apply_ops(mb, iops) == apply_ops(
                            apply_op(mb, vop),
                            iops.drop_first(),
                        ));
                        assert(apply_ops(apply_op(mb, vop), Seq::<SinkOp>::empty()) == apply_op(
                            mb,
                            vop,
                        ));
                        assert(apply_ops(mb, iops) == self@);
                    }
                },
            }
            proof {
                lemma_inputs_ops_snoc(g.take(i as int), g[i as int]);
                assert(g.take(i as int + 1) =~= g.take(i as int).push(g[i as int]));
                lemma_apply_ops_append(m0, inputs_ops(g.take(i as int)), input_ops(g[i as int]));
            }
            i = i + 1;
        }
        proof {
            assert(g.take(n as int) =~= g);
        }
    }

    /// Queues a sequence of bare video frames in order.
    pub fn consume_video(&mut self, frames: Vec<VideoFrame>)
        requires
            old(self)@.wf(),
        ensures
            final(self)@ == apply_ops(old(self)@, video_ops(frames@)),
            final(self)@.wf(),
    {
        let ghost m0 = self@;
        let ghost g = frames@;
        let n = frames.len();
        let mut frames = frames;
        let mut i: usize = 0;
        proof {
            assert(video_ops(g.take(0)) =~= Seq::<SinkOp>::empty());
        }
        while i < n
            invariant
                i <= n,
                n == g.len(),
                frames@ == g.skip(i as int),
                self@.wf(),
                self@ == apply_ops(m0, video_ops(g.take(i as int))),
            decreases n - i,
        {
            let frame = frames.remove(0);
            proof {
                assert(g.skip(i as int).remove(0) =~= g.skip(i as int + 1));
                assert(frame == g[i as int]);
            }
            let ghost mb = self@;
            let ghost op = SinkOp::Video { pts: frame.pts };
            self.queue_video_frame(frame);
            proof {
                assert(video_ops(g.take(i as int + 1)) =~= video_ops(g.take(i as int)).push(op));
                lemma_apply_ops_snoc(m0, video_ops(g.take(i as int)), op);
            }
            i = i + 1;
        }
        proof {
            assert(g.take(n as int) =~= g);
        }
    }

    /// Queues a sequence of bare audio frames in order.
    pub fn consume_audio(&mut self, frames: Vec<AudioFrame>)
        requires
            old(self)@.wf(),
        ensures
            final(self)@ == apply_ops(old(self)@, audio_ops(frames@)),
            final(self)@.wf(),
    {
        let ghost m0 = self@;
        let ghost g = frames@;
        let n = frames.len();
        let mut frames = frames;
        let mut i: usize = 0;
        proof {
            assert(audio_ops(g.take(0)) =~= Seq::<SinkOp>::empty());
        }
        while i < n
            invariant
                i <= n,
                n == g.len(),
                frames@ == g.skip(i as int),
                self@.wf(),
                self@ == apply_ops(m0, audio_ops(g.take(i as int))),
            decreases n - i,
        {
            let frame = frames.remove(0);
            proof {
                assert(g.skip(i as int).remove(0) =~= g.skip(i as int + 1));
                assert(frame == g[i as int]);
            }
            let ghost op = SinkOp::Audio { pts: frame.pts };
            self.queue_audio_frame(frame);
            proof {
                assert(audio_ops(g.take(i as int + 1)) =~= audio_ops(g.take(i as int)).push(op));
                lemma_apply_ops_snoc(m0, audio_ops(g.take(i as int)), op);
            }
            i = i + 1;
        }
        proof {
            assert(g.take(n as int) =~= g);
        }
    }

    /// Whether the sink has been finished.
    pub fn is_finished(&self) -> (b: bool)
        ensures
            b == self@.finished,
    {
        self.is_finished
    }

    /// Whether an audio encoder is registered.
    pub fn has_audio(&self) -> (b: bool)
        ensures
            b == (self@.audio is Some),
    {
        match &self.audio {
            Some(_) => true,
            None => false,
        }
    }

    /// The container writer, for inspection of its framing state.
    pub fn container(&self) -> (w: &ContainerWriter)
        ensures
            w@ == self@.writer,
    {
        &self.output
    }

    /// The track index of the video encoder.
    pub fn video_stream_index(&self) -> (i: usize)
        ensures
            i == self@.video_stream,
    {
        self.video.stream_index()
    }

    /// The track index of the audio encoder, if one is registered.
    pub fn audio_stream_index(&self) -> (i: Option<usize>)
        ensures
            match (i, self@.audio) {
                (Some(s), Some(a)) => s == a.stream,
                (None, None) => true,
                _ => false,
            },
    {
        match &self.audio {
            Some(a) => Some(a.stream_index()),
            None => None,
        }
    }
}

} // verus!
