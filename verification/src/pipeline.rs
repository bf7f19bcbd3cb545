use vstd::prelude::*;
use vstd::rwlock::RwLock;
use vstd::rwlock::RwLockPredicate;

use crate::errors::MediaError;
use crate::frame::{AudioFrame, MP4Input, VideoFrame};
use crate::mp4::MP4File;

verus! {

#[verifier::external_type_specification]
#[verifier::external_body]
#[verifier::reject_recursive_types(T)]
pub struct ExSender<T>(flume::Sender<T>);

#[verifier::external_type_specification]
#[verifier::external_body]
#[verifier::reject_recursive_types(T)]
pub struct ExReceiver<T>(flume::Receiver<T>);

/// The one-shot readiness handshake a pipeline task sends to its starter:
/// success, or the initialization failure that makes the session fatal.
pub type PipelineReadySignal = flume::Sender<Result<(), MediaError>>;

/// Relies on flume::Sender::send: delivers the value into the channel
/// unless every receiver is gone, in which case the value comes back.
#[verifier::external_body]
pub fn send<T>(tx: &flume::Sender<T>, value: T) -> (r: Result<(), T>) {
    tx.send(value).map_err(|e| e.0)
}

/// Relies on flume::Receiver::iter: blocks until every sender is gone and
/// yields what was received, in arrival order.  The channels this library
/// consumes are unbounded, so producers never block; the cost is unbounded
/// buffering under a consumer slower than its producers.
#[verifier::external_body]
pub fn recv_all<T>(rx: &flume::Receiver<T>) -> (r: Vec<T>) {
    rx.iter().collect()
}

/// A pipeline task: the consumer side of one stream, bound to exactly one
/// channel and one sink.  `run` sends exactly one ready signal and then
/// consumes frames in arrival order; `finish` finalizes the sink once the
/// owner has observed the channel closed, and is safe to call even if `run`
/// never consumed a frame.
pub trait PipelineSinkTask<T>: Sized {
    /// The sink state `run` and `finish` need and preserve.
    spec fn task_wf(&self) -> bool;

    fn run(&mut self, ready_signal: PipelineReadySignal, input: &flume::Receiver<T>)
        requires
            old(self).task_wf(),
        ensures
            final(self).task_wf(),
    ;

    fn finish(&mut self)
        requires
            old(self).task_wf(),
        ensures
            final(self).task_wf(),
    ;
}

impl PipelineSinkTask<MP4Input> for MP4File {
    open spec fn task_wf(&self) -> bool {
        self@.wf()
    }

    /// Consumes combined inputs: for each, the video frame and then its
    /// audio frame if present, in arrival order.
    fn run(&mut self, ready_signal: PipelineReadySignal, input: &flume::Receiver<MP4Input>) {
        let _ = send(&ready_signal, Ok(()));
        let inputs = recv_all(input);
        self.consume_inputs(inputs);
    }

    fn finish(&mut self) {
        MP4File::finish(self);
    }
}

impl PipelineSinkTask<VideoFrame> for MP4File {
    open spec fn task_wf(&self) -> bool {
        self@.wf()
    }

    /// Consumes bare video frames in arrival order.
    fn run(&mut self, ready_signal: PipelineReadySignal, input: &flume::Receiver<VideoFrame>) {
        let _ = send(&ready_signal, Ok(()));
        let frames = recv_all(input);
        self.consume_video(frames);
    }

    fn finish(&mut self) {
        MP4File::finish(self);
    }
}

/// The lock invariant of a shared sink: whoever holds the lock gets a
/// well-formed sink and must hand one back.
pub struct SinkPred {}

impl RwLockPredicate<MP4File> for SinkPred {
    open spec fn inv(self, v: MP4File) -> bool {
        v@.wf()
    }
}

/// An encoding sink shared by two pipeline tasks (video and audio).  Every
/// mutating call acquires the internal write lock, so no two mutating sink
/// operations ever overlap, which is what keeps the container valid under
/// concurrent queuing.
pub struct SharedSink {
    lock: RwLock<MP4File, SinkPred>,
}

impl SharedSink {
    /// Wraps a well-formed sink for shared use.
    pub fn new(sink: MP4File) -> (s: SharedSink)
        requires
            sink@.wf(),
    {
        SharedSink { lock: RwLock::new(sink, Ghost(SinkPred {})) }
    }

    /// Queues one video frame under the lock.
    pub fn queue_video_frame(&self, frame: VideoFrame) {
        let (mut sink, handle) = self.lock.acquire_write();
        sink.queue_video_frame(frame);
        handle.release_write(sink);
    }

    /// Queues one audio frame under the lock.
    pub fn queue_audio_frame(&self, frame: AudioFrame) {
        let (mut sink, handle) = self.lock.acquire_write();
        sink.queue_audio_frame(frame);
        handle.release_write(sink);
    }

    /// Consumer loop of the video half: sends one ready signal, then queues
    /// every received frame in arrival order, serialized by the lock.
    pub fn run_video(&self, ready_signal: PipelineReadySignal, input: &flume::Receiver<VideoFrame>) {
        let _ = send(&ready_signal, Ok(()));
        let mut frames = recv_all(input);
        let n = frames.len();
        let mut i: usize = 0;
        while i < n
            invariant
                i <= n,
                frames@.len() == n - i,
            decreases n - i,
        {
            let frame = frames.remove(0);
            self.queue_video_frame(frame);
            i = i + 1;
        }
    }

    /// Consumer loop of the audio half, mirroring the video one.
    pub fn run_audio(&self, ready_signal: PipelineReadySignal, input: &flume::Receiver<AudioFrame>) {
        let _ = send(&ready_signal, Ok(()));
        let mut frames = recv_all(input);
        let n = frames.len();
        let mut i: usize = 0;
        while i < n
            invariant
                i <= n,
                frames@.len() == n - i,
            decreases n - i,
        {
            let frame = frames.remove(0);
            self.queue_audio_frame(frame);
            i = i + 1;
        }
    }

    /// Finishes the shared sink under the lock; idempotent like the sink's
    /// own finish.
    pub fn finish(&self) {
        let (mut sink, handle) = self.lock.acquire_write();
        sink.finish();
        handle.release_write(sink);
    }

    /// Takes the sink back out of the lock, for inspection after the tasks
    /// are done.
    pub fn into_inner(self) -> (sink: MP4File)
        ensures
            sink@.wf(),
    {
        self.lock.into_inner()
    }
}

} // verus!
