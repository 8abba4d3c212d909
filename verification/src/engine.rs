//! The control surface the host hands its commands to: one shared engine
//! owning the recording session. The host guards an `Engine` with a lock and
//! calls these operations under it; the listener reads `status` the same way.

use vstd::prelude::*;
use crate::session::{op_allowed, step, RecordingSession, SessionError, SessionOp, SessionStatus};

verus! {

/// The engine behind the session-control commands: it owns the one shared
/// recording session.
pub struct Engine {
    pub session: RecordingSession,
}

impl Engine {
    /// The engine's invariant: its session is well formed.
    pub open spec fn wf(self) -> bool {
        self.session.wf()
    }

    /// The engine at process start: an idle session.
    pub fn new() -> (e: Self)
        ensures
            e.wf(),
            e.session.status is Idle,
            e.session.started_at is None,
    {
        Engine { session: RecordingSession::new() }
    }

    /// The status flag, as the listener reads it: one read, nothing else.
    pub fn status(&self) -> (st: SessionStatus)
        ensures
            st == self.session.status,
    {
        self.session.status
    }

    /// Begin recording at clock reading `now`: accepted exactly while idle,
    /// rejected with `AlreadyRecording` (state unchanged) while recording.
    pub fn start_recording(&mut self, now: u64) -> (r: Result<(), SessionError>)
        requires
            old(self).wf(),
        ensures
            final(self).wf(),
            final(self).session.status == step(old(self).session.status, SessionOp::Start),
            r is Ok <==> op_allowed(old(self).session.status, SessionOp::Start),
            old(self).session.status is Idle ==> final(self).session.status is Recording
                && final(self).session.started_at == Some(now),
            old(self).session.status is Recording ==> r == Err::<(), SessionError>(
                SessionError::AlreadyRecording,
            ) && *final(self) == *old(self),
    {
        self.session.start(now)
    }

    /// End recording: accepted exactly while recording, rejected with
    /// `NotRecording` (state unchanged) while idle.
    pub fn stop_recording(&mut self) -> (r: Result<(), SessionError>)
        requires
            old(self).wf(),
        ensures
            final(self).wf(),
            final(self).session.status == step(old(self).session.status, SessionOp::Stop),
            r is Ok <==> op_allowed(old(self).session.status, SessionOp::Stop),
            old(self).session.status is Recording ==> final(self).session.status is Idle
                && final(self).session.started_at is None,
            old(self).session.status is Idle ==> r == Err::<(), SessionError>(
                SessionError::NotRecording,
            ) && *final(self) == *old(self),
    {
        self.session.stop()
    }
}

/// Whether input capture is permitted on this platform: granted on every
/// platform this build targets.
pub fn check_permissions() -> (r: bool)
    ensures
        r,
{
    true
}

} // verus!
