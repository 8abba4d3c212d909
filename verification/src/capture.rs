//! The input-capture core: the pointer tracker owned by the global input
//! listener, and the rule that turns one raw pointer event into at most one
//! emitted click.
//!
//! Cursor coordinates cross this module as the bit patterns (`u64`) of the
//! platform's binary64 coordinate values: the capture rule only copies them,
//! so carrying the bits is exact and lossless. The host boundary converts
//! bits to floating-point values and back.

use vstd::prelude::*;
use crate::session::SessionStatus;

verus! {

/// One raw pointer event, as handed to the listener by the platform hook.
/// Coordinates are bit patterns of binary64 values.
#[derive(Clone, Copy, Debug, PartialEq, Eq, Structural)]
pub enum InputEvent {
    /// The cursor moved to `(x, y)`.
    Move { x: u64, y: u64 },
    /// The primary (left) button was pressed.
    PrimaryPress,
    /// Any other raw event kind; ignored by the capture rule.
    Other,
}

/// A click forwarded to the host boundary: the last observed cursor
/// coordinates (bit patterns of binary64 values) and the clock reading
/// (milliseconds since the epoch) taken at emission time.
#[derive(Clone, Copy, Debug, PartialEq, Eq, Structural)]
pub struct ClickEvent {
    pub x: u64,
    pub y: u64,
    pub timestamp: u64,
}

/// The listener's private pointer tracker: the last observed cursor
/// coordinates, as bit patterns of binary64 values.
#[derive(Clone, Copy, Debug, PartialEq, Eq, Structural)]
pub struct PointerState {
    pub last_x: u64,
    pub last_y: u64,
}

/// Whether a raw event, observed under the given session status, emits a
/// click: only a primary press while recording does.
pub open spec fn emits(st: SessionStatus, event: InputEvent) -> bool {
    event is PrimaryPress && st is Recording
}

/// The pointer tracker after one raw event: a move replaces the coordinates,
/// everything else leaves them alone.
pub open spec fn pointer_after(p: PointerState, event: InputEvent) -> PointerState {
    match event {
        InputEvent::Move { x, y } => PointerState { last_x: x, last_y: y },
        _ => p,
    }
}

/// The click emitted for a press observed at pointer tracker `p` and clock
/// reading `now`.
pub open spec fn click_of(p: PointerState, now: u64) -> ClickEvent {
    ClickEvent { x: p.last_x, y: p.last_y, timestamp: now }
}

impl PointerState {
    /// The tracker at listener startup: the origin, before any move is seen.
    pub fn new() -> (p: Self)
        ensures
            p.last_x == 0,
            p.last_y == 0,
    {
        PointerState { last_x: 0, last_y: 0 }
    }

    /// Process one raw event against the session status read for it: update
    /// the tracker on a move, and emit exactly one click for a primary press
    /// observed while recording — carrying the last observed coordinates and
    /// the clock reading `now` — and nothing for any other observation. A
    /// press while idle is discarded, never buffered.
    pub fn handle_event(&mut self, status: SessionStatus, event: InputEvent, now: u64) -> (r:
        Option<ClickEvent>)
        ensures
            *final(self) == pointer_after(*old(self), event),
            r is Some <==> emits(status, event),
            r == (if emits(status, event) {
                Some(click_of(*old(self), now))
            } else {
                None::<ClickEvent>
            }),
    {
        match event {
            InputEvent::Move { x, y } => {
                self.last_x = x;
                self.last_y = y;
                None
            },
            InputEvent::PrimaryPress => {
                if status == SessionStatus::Recording {
                    Some(ClickEvent { x: self.last_x, y: self.last_y, timestamp: now })
                } else {
                    None
                }
            },
            InputEvent::Other => None,
        }
    }
}

/// One observation made by the listener: the session status it read for the
/// event, the raw event, and the clock reading at that moment.
pub struct Observation {
    pub status: SessionStatus,
    pub event: InputEvent,
    pub now: u64,
}

/// The clicks emitted for a whole stream of observations, processed in order
/// from pointer tracker `p`.
pub open spec fn emissions(p: PointerState, obs: Seq<Observation>) -> Seq<ClickEvent>
    decreases obs.len(),
{
    if obs.len() == 0 {
        Seq::empty()
    } else {
        let first = obs[0];
        let rest = emissions(pointer_after(p, first.event), obs.drop_first());
        if emits(first.status, first.event) {
            seq![click_of(p, first.now)] + rest
        } else {
            rest
        }
    }
}

/// How many observations of a stream emit: its primary presses observed while
/// recording.
pub open spec fn count_emitting(obs: Seq<Observation>) -> nat
    decreases obs.len(),
{
    if obs.len() == 0 {
        0
    } else {
        (if emits(obs[0].status, obs[0].event) {
            1nat
        } else {
            0nat
        }) + count_emitting(obs.drop_first())
    }
}

/// A press observed while the session is idle emits nothing, whatever the
/// pointer tracker or the clock say.
pub proof fn lemma_idle_press_emits_nothing(event: InputEvent)
    ensures
        !emits(SessionStatus::Idle, event),
{
}

/// Over any stream of observations, exactly one click is emitted per primary
/// press observed while recording: no qualifying press is dropped or
/// duplicated, and no other observation emits.
pub proof fn lemma_one_click_per_recorded_press(p: PointerState, obs: Seq<Observation>)
    ensures
        emissions(p, obs).len() == count_emitting(obs),
    decreases obs.len(),
{
    if obs.len() > 0 {
        lemma_one_click_per_recorded_press(pointer_after(p, obs[0].event), obs.drop_first());
    }
}

/// Each emitted click carries the coordinates most recently observed before
/// it and the clock reading of its press: the first emission of a stream is
/// the click for the first qualifying press, taken at the pointer tracker as
/// the stream's earlier moves left it.
pub proof fn lemma_emission_carries_last_position(p: PointerState, obs: Seq<Observation>)
    requires
        obs.len() > 0,
        emits(obs[0].status, obs[0].event),
    ensures
        emissions(p, obs)[0] == click_of(p, obs[0].now),
{
}

/// Clicks emitted at non-decreasing clock readings carry non-decreasing
/// timestamps: emissions keep the temporal order of the presses they answer.
pub proof fn lemma_click_timestamps_monotonic(
    p1: PointerState,
    p2: PointerState,
    now1: u64,
    now2: u64,
)
    requires
        now1 <= now2,
    ensures
        click_of(p1, now1).timestamp <= click_of(p2, now2).timestamp,
{
}

} // verus!
