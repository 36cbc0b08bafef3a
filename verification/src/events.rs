//! Diff engine for the event-log telemetry stream.
//!
//! The telemetry source returns the full, chronologically ordered list of
//! events seen so far. Only the most recent record and the running count of
//! records already seen are kept as state; a fire-once latch stops the
//! match-end actuation from repeating.

use vstd::prelude::*;
use crate::actuation::{Actuation, Intensity};

verus! {

/// One record of the event-log stream, in occurrence order. Only the name
/// and, for terminal events, the result are ever inspected.
#[derive(Debug)]
pub struct EventRecord {
    pub id: u64,
    pub name: String,
    pub result: String,
}

/// Tracking state of the event poller: how many records the last batch
/// held, and whether the match-end actuation has already fired.
#[derive(Clone, Copy, Debug, PartialEq, Eq, Structural)]
pub struct EventStreamState {
    pub seen_count: usize,
    pub match_ended: bool,
}

impl EventStreamState {
    /// The state a poller starts from: nothing seen, match still running.
    pub fn initial() -> (r: EventStreamState)
        ensures
            r.seen_count == 0,
            !r.match_ended,
    {
        EventStreamState { seen_count: 0, match_ended: false }
    }
}

/// The command fired when the match ends in a loss.
pub open spec fn spec_defeat_actuation() -> Actuation {
    Actuation { intensity: Intensity { num: 75, den: 100 }, duration_ms: 1000 }
}

/// The command fired when the match ends in anything but a loss.
pub open spec fn spec_victory_actuation() -> Actuation {
    Actuation { intensity: Intensity { num: 100, den: 100 }, duration_ms: 2000 }
}

/// Whether this batch, against state `st`, reports a fresh match end: the
/// latch is not yet set and the most recent record is a "GameEnd".
pub open spec fn spec_match_end_detected(batch: Seq<EventRecord>, st: EventStreamState) -> bool {
    &&& batch.len() > 0
    &&& !st.match_ended
    &&& batch.last().name@ == "GameEnd"@
}

/// What one event-diff call returns: the updated state, the actuation the
/// batch calls for (if any), and whether a match start was just detected.
///
/// An empty batch changes nothing. Otherwise the seen count becomes the
/// batch length; a match start is reported only on the very first
/// non-empty batch whose first record is "GameStart"; and a fresh
/// "GameEnd" as the most recent record fires the defeat command on a
/// "Lose" result, the victory command on any other, and sets the latch.
pub open spec fn spec_event_diff(batch: Seq<EventRecord>, st: EventStreamState) -> (
    EventStreamState,
    Option<Actuation>,
    bool,
) {
    if batch.len() == 0 {
        (st, None, false)
    } else {
        let started = st.seen_count == 0 && batch[0].name@ == "GameStart"@;
        let ended = spec_match_end_detected(batch, st);
        let act = if ended {
            if batch.last().result@ == "Lose"@ {
                Some(spec_defeat_actuation())
            } else {
                Some(spec_victory_actuation())
            }
        } else {
            None
        };
        (
            EventStreamState {
                seen_count: batch.len() as usize,
                match_ended: st.match_ended || ended,
            },
            act,
            started,
        )
    }
}

/// Compares the latest event batch against the tracking state.
///
/// Returns the updated state, at most one actuation command, and a marker
/// that is true exactly when the batch reveals the start of the match.
pub fn diff_events(batch: &Vec<EventRecord>, st: &EventStreamState) -> (r: (
    EventStreamState,
    Option<Actuation>,
    bool,
))
    ensures
        r == spec_event_diff(batch@, *st),
{
    if batch.len() == 0 {
        return (*st, None, false);
    }
    let started = st.seen_count == 0 && batch[0].name == "GameStart".to_owned();
    let last = &batch[batch.len() - 1];
    let ended = !st.match_ended && last.name == "GameEnd".to_owned();
    let act: Option<Actuation> = if ended {
        if last.result == "Lose".to_owned() {
            Some(Actuation { intensity: Intensity { num: 75, den: 100 }, duration_ms: 1000 })
        } else {
            Some(Actuation { intensity: Intensity { num: 100, den: 100 }, duration_ms: 2000 })
        }
    } else {
        None
    };
    let new_state = EventStreamState {
        seen_count: batch.len(),
        match_ended: st.match_ended || ended,
    };
    (new_state, act, started)
}

/// The match-end actuation fires at most once: a call that fires leaves
/// the latch set, and against a latched state no later batch fires.
pub proof fn lemma_match_end_fires_once(
    first: Seq<EventRecord>,
    later: Seq<EventRecord>,
    st: EventStreamState,
)
    requires
        spec_event_diff(first, st).1 is Some,
    ensures
        spec_event_diff(first, st).0.match_ended,
        spec_event_diff(later, spec_event_diff(first, st).0).1 is None,
{
}

/// The latch never resets: once `match_ended` holds, it holds after every
/// further diff call, and no further call emits an actuation.
pub proof fn lemma_latch_is_stable(batch: Seq<EventRecord>, st: EventStreamState)
    requires
        st.match_ended,
    ensures
        spec_event_diff(batch, st).0.match_ended,
        spec_event_diff(batch, st).1 is None,
{
}

} // verus!
