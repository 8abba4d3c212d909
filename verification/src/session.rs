//! The recording-session state machine: a two-state flag (`Idle` /
//! `Recording`) paired with the timestamp at which recording began.

use vstd::prelude::*;

verus! {

/// Whether a recording session is currently in progress.
#[derive(Clone, Copy, Debug, PartialEq, Eq, Structural)]
pub enum SessionStatus {
    Idle,
    Recording,
}

/// Why a session-control operation was rejected. The session state is never
/// changed by a rejected operation.
#[derive(Clone, Copy, Debug, PartialEq, Eq, Structural)]
pub enum SessionError {
    /// `start` was called while a session was already recording.
    AlreadyRecording,
    /// `stop` was called while no session was recording.
    NotRecording,
}

/// A session-control operation, for stating the state machine's laws.
#[derive(Clone, Copy, Debug, PartialEq, Eq, Structural)]
pub enum SessionOp {
    Start,
    Stop,
}

/// An operation is accepted exactly when it moves the machine: `Start` from
/// `Idle`, `Stop` from `Recording`.
pub open spec fn op_allowed(st: SessionStatus, op: SessionOp) -> bool {
    match op {
        SessionOp::Start => st is Idle,
        SessionOp::Stop => st is Recording,
    }
}

/// The status after one operation: an accepted operation switches to the
/// other status, a rejected one leaves the status alone.
pub open spec fn step(st: SessionStatus, op: SessionOp) -> SessionStatus {
    if op_allowed(st, op) {
        match op {
            SessionOp::Start => SessionStatus::Recording,
            SessionOp::Stop => SessionStatus::Idle,
        }
    } else {
        st
    }
}

/// The shared session state: the status flag read by the input listener, and
/// the clock reading (milliseconds since the epoch) taken when recording
/// began. Callers that share one value across threads guard it with a lock;
/// each operation below is a single fast mutation under that lock.
pub struct RecordingSession {
    pub status: SessionStatus,
    pub started_at: Option<u64>,
}

impl RecordingSession {
    /// `started_at` is present exactly while the session is recording.
    pub open spec fn wf(self) -> bool {
        self.started_at is Some <==> self.status is Recording
    }

    /// A fresh session: idle, with no start timestamp.
    pub fn new() -> (s: Self)
        ensures
            s.status is Idle,
            s.started_at is None,
            s.wf(),
    {
        RecordingSession { status: SessionStatus::Idle, started_at: None }
    }

    /// Runtime form of the invariant `wf`.
    pub fn is_well_formed(&self) -> (b: bool)
        ensures
            b == self.wf(),
    {
        self.started_at.is_some() == (self.status == SessionStatus::Recording)
    }

    /// Begin recording at clock reading `now`. Accepted exactly from `Idle`;
    /// from `Recording` it fails with `AlreadyRecording` and changes nothing.
    pub fn start(&mut self, now: u64) -> (r: Result<(), SessionError>)
        requires
            old(self).wf(),
        ensures
            final(self).wf(),
            final(self).status == step(old(self).status, SessionOp::Start),
            r is Ok <==> op_allowed(old(self).status, SessionOp::Start),
            old(self).status is Idle ==> final(self).status is Recording && final(self).started_at
                == Some(now),
            old(self).status is Recording ==> r == Err::<(), SessionError>(
                SessionError::AlreadyRecording,
            ) && *final(self) == *old(self),
    {
        match self.status {
            SessionStatus::Recording => Err(SessionError::AlreadyRecording),
            SessionStatus::Idle => {
                self.status = SessionStatus::Recording;
                self.started_at = Some(now);
                Ok(())
            },
        }
    }

    /// End recording. Accepted exactly from `Recording`; from `Idle` it fails
    /// with `NotRecording` and changes nothing.
    pub fn stop(&mut self) -> (r: Result<(), SessionError>)
        requires
            old(self).wf(),
        ensures
            final(self).wf(),
            final(self).status == step(old(self).status, SessionOp::Stop),
            r is Ok <==> op_allowed(old(self).status, SessionOp::Stop),
            old(self).status is Recording ==> final(self).status is Idle && final(self).started_at
                is None,
            old(self).status is Idle ==> r == Err::<(), SessionError>(SessionError::NotRecording)
                && *final(self) == *old(self),
    {
        match self.status {
            SessionStatus::Idle => Err(SessionError::NotRecording),
            SessionStatus::Recording => {
                self.status = SessionStatus::Idle;
                self.started_at = None;
                Ok(())
            },
        }
    }
}

impl SessionError {
    /// The error text surfaced to a caller.
    pub fn message(&self) -> (r: String)
        ensures
            self is AlreadyRecording ==> r@ == "Already recording"@,
            self is NotRecording ==> r@ == "Not recording"@,
    {
        match self {
            SessionError::AlreadyRecording => "Already recording".to_owned(),
            SessionError::NotRecording => "Not recording".to_owned(),
        }
    }
}

/// The session is exactly a two-state machine: from any status, `Start` is
/// accepted only from `Idle` and moves to `Recording`, `Stop` is accepted
/// only from `Recording` and moves to `Idle`, and a rejected operation leaves
/// the status unchanged.
pub proof fn lemma_two_state_machine(st: SessionStatus, op: SessionOp)
    ensures
        op_allowed(st, op) <==> ((op is Start && st is Idle) || (op is Stop && st is Recording)),
        !op_allowed(st, op) ==> step(st, op) == st,
        op is Start && st is Idle ==> step(st, op) is Recording,
        op is Stop && st is Recording ==> step(st, op) is Idle,
{
}

/// An operation is accepted exactly when it changes the status. Operations on
/// a shared session are serialized by its lock, so each actual status change
/// corresponds to exactly one accepted call: two racing `start` calls cannot
/// both be accepted for a single transition, and no accepted call leaves the
/// status where it was.
pub proof fn lemma_one_transition_per_change(st: SessionStatus, op: SessionOp)
    ensures
        op_allowed(st, op) <==> step(st, op) != st,
{
}

} // verus!
