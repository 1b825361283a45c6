//! The capture lifecycle state machine.
//!
//! A session is driven by two threads: the controlling thread flips the
//! shared control word and clears the fault flag, the background capture
//! loop polls both to decide whether to wait, iterate, or shut down.  This
//! module holds the decisions of both sides as verified transitions; the
//! surrounding process owns the actual atomics and the thread, encodes the
//! control word through [`ControlWord::encode`]/[`ControlWord::decode`], and
//! performs the [`StopAction`] a transition returns.

use vstd::prelude::*;

verus! {

/// The shared control word: the controlling thread writes the transitions,
/// the background loop only reads it.
#[derive(Clone, Copy, PartialEq, Eq, Structural, Debug)]
pub enum ControlWord {
    Uninitialized,
    Capturing,
    Stopped,
}

/// The numeric value a control word is stored as in the shared atomic.
pub open spec fn spec_encode(w: ControlWord) -> u8 {
    match w {
        ControlWord::Uninitialized => 0,
        ControlWord::Capturing => 1,
        ControlWord::Stopped => 2,
    }
}

/// The control word a stored numeric value stands for.  Only 0, 1 and 2 are
/// ever stored; any other value reads as the initial state.
pub open spec fn spec_decode(n: u8) -> ControlWord {
    if n == 1 {
        ControlWord::Capturing
    } else if n == 2 {
        ControlWord::Stopped
    } else {
        ControlWord::Uninitialized
    }
}

impl ControlWord {
    /// The numeric value to store in the shared atomic.
    pub fn encode(self) -> (n: u8)
        ensures
            n == spec_encode(self),
    {
        match self {
            ControlWord::Uninitialized => 0,
            ControlWord::Capturing => 1,
            ControlWord::Stopped => 2,
        }
    }

    /// The control word read back from the shared atomic.
    pub fn decode(n: u8) -> (w: ControlWord)
        ensures
            w == spec_decode(n),
    {
        if n == 1 {
            ControlWord::Capturing
        } else if n == 2 {
            ControlWord::Stopped
        } else {
            ControlWord::Uninitialized
        }
    }
}

/// Law: decoding what was encoded gives the control word back.
pub proof fn lemma_control_word_round_trip(w: ControlWord)
    ensures
        spec_decode(spec_encode(w)) == w,
{
}

/// What the background loop does next, decided fresh at the top of every
/// iteration from the two shared flags.
#[derive(Clone, Copy, PartialEq, Eq, Structural, Debug)]
pub enum LoopStep {
    /// Capture has not been started: idle briefly and poll again.
    AwaitStart,
    /// Iterate the collaborator's event loop with a bounded poll interval.
    PollStream,
    /// Stop was requested or the stream faulted: leave the loop.
    Shutdown,
}

/// The background loop's decision: wait while uninitialized, iterate while
/// capturing and fault-free, and shut down otherwise.
pub open spec fn spec_loop_step(control: ControlWord, fault: bool) -> LoopStep {
    match control {
        ControlWord::Uninitialized => LoopStep::AwaitStart,
        ControlWord::Capturing => if fault {
            LoopStep::Shutdown
        } else {
            LoopStep::PollStream
        },
        ControlWord::Stopped => LoopStep::Shutdown,
    }
}

/// Decides one iteration of the background loop from the control word and
/// the fault flag as just read from the shared atomics.
pub fn loop_step(control: ControlWord, fault: bool) -> (s: LoopStep)
    ensures
        s == spec_loop_step(control, fault),
{
    match control {
        ControlWord::Uninitialized => LoopStep::AwaitStart,
        ControlWord::Capturing => {
            if fault {
                LoopStep::Shutdown
            } else {
                LoopStep::PollStream
            }
        },
        ControlWord::Stopped => LoopStep::Shutdown,
    }
}

/// Construction failed: the background thread answered the readiness
/// handshake negatively, so no half-initialized session may be handed out.
#[derive(Clone, Copy, PartialEq, Eq, Structural, Debug)]
pub enum SetupFault {
    NotReady,
}

/// What the controlling thread must do after a stop transition.
#[derive(Clone, Copy, PartialEq, Eq, Structural, Debug)]
pub enum StopAction {
    /// A background worker exists: block on its join.
    JoinWorker,
    /// No worker to wait for: the call returns immediately.
    NoWorker,
}

/// The controlling thread's view of one capture session: the control word
/// and fault flag it shares with the background loop, and whether a worker
/// thread is alive to be joined.
#[derive(Clone, Copy, PartialEq, Eq, Structural, Debug)]
pub struct CaptureSession {
    pub control: ControlWord,
    /// Set only by the background loop on an unrecoverable stream fault,
    /// cleared only by the controlling thread during teardown.
    pub fault: bool,
    pub worker_running: bool,
}

/// The state a session holds right after a successful construction: not yet
/// capturing, no fault, and the freshly spawned worker awaiting a start.
pub open spec fn spec_initial_session() -> CaptureSession {
    CaptureSession { control: ControlWord::Uninitialized, fault: false, worker_running: true }
}

/// The state every stop transition resets a session to, ready for a fresh
/// start without reconstruction.
pub open spec fn spec_reset_session() -> CaptureSession {
    CaptureSession { control: ControlWord::Uninitialized, fault: false, worker_running: false }
}

/// Whether a stop transition has a worker to join.
pub open spec fn spec_stop_action(s: CaptureSession) -> StopAction {
    if s.worker_running {
        StopAction::JoinWorker
    } else {
        StopAction::NoWorker
    }
}

/// The whole stop transition: the state it leaves and the action it asks of
/// the controlling thread.
pub open spec fn spec_stop(s: CaptureSession) -> (CaptureSession, StopAction) {
    (spec_reset_session(), spec_stop_action(s))
}

impl CaptureSession {
    /// Finishes construction once the one-shot readiness handshake has been
    /// received: a positive answer yields the initial session, a negative
    /// one is a fatal setup fault and no session exists.
    pub fn construct(ready: bool) -> (r: Result<CaptureSession, SetupFault>)
        ensures
            ready <==> r is Ok,
            r matches Ok(s) ==> s == spec_initial_session(),
            !ready ==> r == Err::<CaptureSession, SetupFault>(SetupFault::NotReady),
    {
        if ready {
            Ok(
                CaptureSession {
                    control: ControlWord::Uninitialized,
                    fault: false,
                    worker_running: true,
                },
            )
        } else {
            Err(SetupFault::NotReady)
        }
    }

    /// The controlling thread requests capture: the control word becomes
    /// `Capturing` and nothing else moves.
    pub fn start_capture(&mut self)
        ensures
            *final(self) == (CaptureSession { control: ControlWord::Capturing, ..*old(self) }),
    {
        self.control = ControlWord::Capturing;
    }

    /// The background loop reports an unrecoverable stream fault; the flag
    /// stays set until the next teardown.
    pub fn record_stream_fault(&mut self)
        ensures
            *final(self) == (CaptureSession { fault: true, ..*old(self) }),
    {
        self.fault = true;
    }

    /// The controlling thread stops capture: the control word passes through
    /// `Stopped` (so the loop exits), the worker is joined if one is alive,
    /// and the session resets to `Uninitialized` with the fault flag
    /// cleared, reusable without reconstruction.
    pub fn stop_capture(&mut self) -> (act: StopAction)
        ensures
            (*final(self), act) == spec_stop(*old(self)),
    {
        self.control = ControlWord::Stopped;
        let act = if self.worker_running {
            StopAction::JoinWorker
        } else {
            StopAction::NoWorker
        };
        self.worker_running = false;
        self.control = ControlWord::Uninitialized;
        self.fault = false;
        act
    }
}

/// Law: stopping is idempotent.  After one stop transition no worker is
/// left, so a second stop joins nothing and leaves the state exactly where
/// the first left it.
pub proof fn lemma_stop_idempotent(s: CaptureSession)
    ensures
        spec_stop(spec_stop(s).0).0 == spec_stop(s).0,
        spec_stop(spec_stop(s).0).1 == StopAction::NoWorker,
{
}

/// Law: stopping from any reachable state — started, faulted or not — ends
/// the round trip with the control word at `Uninitialized`, the fault flag
/// clear, and no worker left behind.
pub proof fn lemma_capture_round_trip(s: CaptureSession)
    ensures
        spec_stop(s).0.control is Uninitialized,
        !spec_stop(s).0.fault,
        !spec_stop(s).0.worker_running,
{
}

/// Law: once the background loop has set the fault flag, its next poll under
/// a still-capturing control word shuts the loop down.
pub proof fn lemma_fault_exits_loop(control: ControlWord)
    requires
        control is Capturing || control is Stopped,
    ensures
        spec_loop_step(control, true) == LoopStep::Shutdown,
{
}

} // verus!
