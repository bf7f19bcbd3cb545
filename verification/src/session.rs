use vstd::prelude::*;

use crate::encoder::{AudioConfig, VideoConfig};
use crate::errors::{ContainerError, InitError, MediaError};
use crate::mp4::{apply_op, MP4File, SinkOp};

verus! {

/// A stable descriptor of one available screen or window, as the target
/// enumerator reports it: its id and its pixel dimensions.
pub struct TargetInfo {
    pub id: String,
    pub width: u32,
    pub height: u32,
}

/// The resolved capture target of a session.
pub enum ScreenCaptureTarget {
    Screen { id: String },
    Window { id: String },
}

/// One available camera device, identified by its numeric index.
pub struct CameraInfo {
    pub index: u32,
    pub name: String,
}

/// Errors of session start, all raised before any resource outlives the
/// call: resolution failures and sink-initialization failures.
#[derive(Clone, Copy, PartialEq, Eq, Structural, Debug)]
pub enum SessionError {
    /// Neither a screen nor a window was requested.
    NoTarget,
    /// The requested screen id is not among the available screens.
    ScreenNotFound,
    /// The requested window id is not among the available windows.
    WindowNotFound,
    /// The encoding sink could not be initialized.
    Init(InitError),
}

/// The error of stopping a session that is not running: stop is callable
/// successfully exactly once, and only once the session runs.
#[derive(Clone, Copy, PartialEq, Eq, Structural, Debug)]
pub enum StopError {
    NotRunning,
}

/// The lifecycle of a recording session.
#[derive(Clone, Copy, PartialEq, Eq, Structural, Debug)]
pub enum SessionState {
    Idle,
    Starting,
    Running,
    Stopping,
    Stopped,
    Failed,
}

/// Looks a target id up in the list of available targets, returning the
/// index of the first entry with that id.
pub fn find_target(list: &Vec<TargetInfo>, id: &String) -> (r: Option<usize>)
    ensures
        match r {
            Some(i) => i < list@.len() && list@[i as int].id@ == id@,
            None => forall|i: int| 0 <= i < list@.len() ==> #[trigger] list@[i].id@ != id@,
        },
{
    let n = list.len();
    let mut i: usize = 0;
    while i < n
        invariant
            i <= n,
            n == list@.len(),
            forall|j: int| 0 <= j < i ==> #[trigger] list@[j].id@ != id@,
        decreases n - i,
    {
        if list[i].id == *id {
            return Some(i);
        }
        i = i + 1;
    }
    None
}

/// Looks a camera index up in the list of available cameras.
pub fn find_camera(list: &Vec<CameraInfo>, index: u32) -> (r: Option<usize>)
    ensures
        match r {
            Some(i) => i < list@.len() && list@[i as int].index == index,
            None => forall|i: int| 0 <= i < list@.len() ==> #[trigger] list@[i].index != index,
        },
{
    let n = list.len();
    let mut i: usize = 0;
    while i < n
        invariant
            i <= n,
            n == list@.len(),
            forall|j: int| 0 <= j < i ==> #[trigger] list@[j].index != index,
        decreases n - i,
    {
        if list[i].index == index {
            return Some(i);
        }
        i = i + 1;
    }
    None
}

/// Relies on uuid::Uuid::new_v4 and its hyphenated text form: a fresh
/// random version-4 UUID with negligible collision probability, rendered
/// as its 36 ASCII bytes.
#[verifier::external_body]
fn generate_session_id() -> (r: Vec<u8>)
    ensures
        r@.len() == 36,
{
    uuid::Uuid::new_v4().to_string().into_bytes()
}

/// The bytes of the `.cap` suffix of a default output path.
pub open spec fn spec_cap_ext() -> Seq<u8> {
    seq![46u8, 99u8, 97u8, 112u8]
}

/// The default output path of a session: its id followed by `.cap`.
fn default_cap_path(id: &Vec<u8>) -> (r: Vec<u8>)
    requires
        id@.len() + 4 <= usize::MAX,
    ensures
        r@ == id@ + spec_cap_ext(),
{
    let n = id.len();
    let mut r: Vec<u8> = Vec::new();
    let mut i: usize = 0;
    while i < n
        invariant
            i <= n,
            n == id@.len(),
            r@ == id@.subrange(0, i as int),
        decreases n - i,
    {
        let b = id[i];
        r.push(b);
        i = i + 1;
    }
    r.push(46);
    r.push(99);
    r.push(97);
    r.push(112);
    proof {
        assert(r@ =~= id@ + spec_cap_ext());
    }
    r
}

/// Aggregates the ready signals of a session's pipeline tasks: all tasks
/// came up, or the first reported initialization failure, which is fatal
/// to the whole session.
pub fn first_failure(results: &Vec<Result<(), MediaError>>) -> (r: Result<(), MediaError>)
    ensures
        match r {
            Ok(_) => forall|i: int| 0 <= i < results@.len() ==> #[trigger] results@[i] is Ok,
            Err(e) => exists|i: int|
                0 <= i < results@.len() && #[trigger] results@[i] === Err(e) && (forall|j: int|
                    0 <= j < i ==> #[trigger] results@[j] is Ok),
        },
{
    let n = results.len();
    let mut i: usize = 0;
    while i < n
        invariant
            i <= n,
            n == results@.len(),
            forall|j: int| 0 <= j < i ==> #[trigger] results@[j] is Ok,
        decreases n - i,
    {
        match results[i] {
            Ok(_) => {},
            Err(e) => {
                return Err(e);
            },
        }
        i = i + 1;
    }
    Ok(())
}

/// The options of a start request: the capture target, an optional camera
/// index, an optional microphone id, whether to capture system audio, an
/// optional output path and an optional frame-rate cap.
pub struct RecordStart {
    pub screen: Option<String>,
    pub window: Option<String>,
    pub camera: Option<u32>,
    pub mic: Option<u32>,
    pub system_audio: bool,
    pub path: Option<Vec<u8>>,
    pub fps: Option<u32>,
}

impl RecordStart {
    /// Whether the request asks for an audio track: system audio or a
    /// microphone.
    pub open spec fn wants_audio(self) -> bool {
        self.system_audio || self.mic is Some
    }

    /// Runs the start protocol against the given enumerations: resolves the
    /// capture target (strictly: an unresolved target aborts the start),
    /// resolves the camera index (leniently: an unknown index only drops
    /// the camera), generates a session id, and builds the encoding sink
    /// with an audio encoder exactly when audio was requested.  On success
    /// the session is running, its container header committed and its
    /// packet log empty; on failure nothing was created.
    pub fn run(
        self,
        screens: &Vec<TargetInfo>,
        windows: &Vec<TargetInfo>,
        cameras: &Vec<CameraInfo>,
    ) -> (r: Result<RecordingSession, SessionError>)
        requires
            match self.path {
                Some(p) => p@.len() + 4 <= usize::MAX,
                None => true,
            },
        ensures
            match r {
                Ok(s) => {
                    &&& (match self.screen {
                        Some(id) => (s.target matches ScreenCaptureTarget::Screen { id: tid }
                            && tid@ == id@) && (exists|i: int|
                            0 <= i < screens@.len() && #[trigger] screens@[i].id@ == id@),
                        None => match self.window {
                            Some(id) => (s.target matches ScreenCaptureTarget::Window { id: tid }
                                && tid@ == id@) && (exists|i: int|
                                0 <= i < windows@.len() && #[trigger] windows@[i].id@ == id@),
                            None => false,
                        },
                    })
                    &&& s.wf()
                    &&& s.state is Running
                    &&& !s.sink@.finished
                    &&& s.sink@.writer.header_written
                    &&& !s.sink@.writer.trailer_written
                    &&& s.sink@.writer.packets.len() == 0
                    &&& (s.sink@.audio is Some <==> self.wants_audio())
                    &&& s.id@.len() == 36
                    &&& s.sink@.writer.path == crate::path::spec_set_extension_mp4(
                        match self.path {
                            Some(p) => p@,
                            None => s.id@ + spec_cap_ext(),
                        },
                    )
                    &&& (match (self.camera, s.camera) {
                        (Some(ci), Some(c)) => c == ci && (exists|i: int|
                            0 <= i < cameras@.len() && #[trigger] cameras@[i].index == ci),
                        (Some(ci), None) => forall|i: int|
                            0 <= i < cameras@.len() ==> #[trigger] cameras@[i].index != ci,
                        (None, None) => true,
                        _ => false,
                    })
                },
                Err(e) => match e {
                    SessionError::NoTarget => self.screen is None && self.window is None,
                    SessionError::ScreenNotFound => (match self.screen {
                        Some(id) => forall|i: int|
                            0 <= i < screens@.len() ==> #[trigger] screens@[i].id@ != id@,
                        None => false,
                    }),
                    SessionError::WindowNotFound => self.screen is None && (match self.window {
                        Some(id) => forall|i: int|
                            0 <= i < windows@.len() ==> #[trigger] windows@[i].id@ != id@,
                        None => false,
                    }),
                    SessionError::Init(ie) => match ie {
                        InitError::Container(ContainerError::OpenFailed) => (match self.path {
                            Some(p) => p@.len() == 0,
                            None => false,
                        }),
                        InitError::VideoInit(_) => (match self.screen {
                            Some(id) => exists|i: int|
                                0 <= i < screens@.len() && #[trigger] screens@[i].id@ == id@
                                    && !(VideoConfig {
                                    width: screens@[i].width,
                                    height: screens@[i].height,
                                }).valid(),
                            None => match self.window {
                                Some(id) => exists|i: int|
                                    0 <= i < windows@.len() && #[trigger] windows@[i].id@ == id@
                                        && !(VideoConfig {
                                        width: windows@[i].width,
                                        height: windows@[i].height,
                                    }).valid(),
                                None => false,
                            },
                        }),
                        InitError::AudioInit(_) => false,
                    },
                },
            },
    {
        let (target, width, height) = match (&self.screen, &self.window) {
            (Some(id), _) => match find_target(screens, id) {
                Some(i) => {
                    let t = &screens[i];
                    (ScreenCaptureTarget::Screen { id: t.id.clone() }, t.width, t.height)
                },
                None => {
                    return Err(SessionError::ScreenNotFound);
                },
            },
            (None, Some(id)) => match find_target(windows, id) {
                Some(i) => {
                    let t = &windows[i];
                    (ScreenCaptureTarget::Window { id: t.id.clone() }, t.width, t.height)
                },
                None => {
                    return Err(SessionError::WindowNotFound);
                },
            },
            (None, None) => {
                return Err(SessionError::NoTarget);
            },
        };

        let camera = match self.camera {
            Some(ci) => match find_camera(cameras, ci) {
                Some(_) => Some(ci),
                None => None,
            },
            None => None,
        };

        let id = generate_session_id();
        let path: Vec<u8> = match self.path {
            Some(p) => p,
            None => default_cap_path(&id),
        };

        let want_audio = self.system_audio || self.mic.is_some();
        let audio_cfg = if want_audio {
            Some(AudioConfig { sample_rate: 48000, channels: 2 })
        } else {
            None
        };
        let video_cfg = VideoConfig { width, height };

        let sink = match MP4File::init(path, video_cfg, audio_cfg) {
            Ok(s) => s,
            Err(e) => {
                return Err(SessionError::Init(e));
            },
        };

        Ok(RecordingSession { id, state: SessionState::Running, sink, camera, target })
    }
}

/// One recording session: its id, its lifecycle state, the resolved target,
/// the resolved camera index if any, and the encoding sink it owns.
pub struct RecordingSession {
    pub id: Vec<u8>,
    pub state: SessionState,
    pub target: ScreenCaptureTarget,
    pub camera: Option<u32>,
    pub sink: MP4File,
}

impl RecordingSession {
    /// The session invariant: the sink is well formed, unfinished while the
    /// session runs, and finished once the session stopped.
    pub open spec fn wf(self) -> bool {
        &&& self.sink@.wf()
        &&& (self.state is Running ==> !self.sink@.finished)
        &&& (self.state is Stopped ==> self.sink@.finished)
    }

    /// Stops the session.  Succeeds exactly once, and only on a running
    /// session: the sink is finished and the container trailer committed
    /// before the call returns.  Any other state fails with a setup error
    /// and changes nothing.
    pub fn stop(&mut self) -> (r: Result<(), StopError>)
        requires
            old(self).wf(),
        ensures
            final(self).wf(),
            old(self).state is Running ==> (r is Ok && final(self).state is Stopped
                && final(self).sink@ == apply_op(old(self).sink@, SinkOp::Finish)
                && final(self).sink@.finished && final(self).sink@.writer.trailer_written
                && final(self).sink@.writer.packets == old(self).sink@.writer.packets
                && final(self).id == old(self).id),
            !(old(self).state is Running) ==> (r === Err(StopError::NotRunning) && *final(self)
                == *old(self)),
    {
        match self.state {
            SessionState::Running => {
                self.sink.finish();
                self.state = SessionState::Stopped;
                Ok(())
            },
            _ => Err(StopError::NotRunning),
        }
    }

    /// Marks the session failed, after a pipeline task's ready signal
    /// reported an initialization failure: the sink is abandoned without a
    /// trailer ever being committed.
    pub fn abort(&mut self)
        requires
            old(self).wf(),
        ensures
            final(self).wf(),
            final(self).state is Failed,
            final(self).sink@ == old(self).sink@,
            final(self).id == old(self).id,
    {
        self.state = SessionState::Failed;
    }
}

} // verus!
