//! One poller cycle, for each of the three telemetry streams.
//!
//! A poller owns the tracking state of exactly one stream. Each cycle it
//! is handed the outcome of that stream's fetch; a failure terminates the
//! poller (the telemetry source has almost certainly gone away at match
//! end), a success runs the stream's diff engine and carries the updated
//! state into the next cycle. A poller's step never touches another
//! stream's state, so one poller's termination leaves the others running.

use vstd::prelude::*;
use crate::actuation::Actuation;
use crate::events::{EventRecord, EventStreamState, diff_events, spec_event_diff};
use crate::player::{
    ActivePlayerSnapshot, ActivePlayerTrackingState, diff_active_player, spec_active_actuation,
};
use crate::score::{ScoreSnapshot, ScoreTrackingState, diff_score, spec_score_diff};

verus! {

/// Why a fetch failed: the transport, or a response of the wrong shape.
#[derive(Clone, Copy, Debug, PartialEq, Eq, Structural)]
pub enum FetchError {
    Network,
    Decode,
}

/// What a poller does after one cycle: stop for good, surfacing the fetch
/// error, or carry the updated state forward and run the listed commands.
#[derive(Debug)]
pub enum PollStep<S> {
    Terminated(FetchError),
    Continue { state: S, commands: Vec<Actuation> },
}

/// The zero-or-one commands of an optional actuation, as a sequence.
pub open spec fn spec_opt_commands(o: Option<Actuation>) -> Seq<Actuation> {
    match o {
        Some(a) => seq![a],
        None => Seq::<Actuation>::empty(),
    }
}

/// The commands one score-diff call emits, creep-score pulse first.
pub open spec fn spec_score_commands(snap: ScoreSnapshot, st: ScoreTrackingState) -> Seq<
    Actuation,
> {
    spec_opt_commands(spec_score_diff(snap, st).1) + spec_opt_commands(spec_score_diff(snap, st).2)
}

/// One cycle of the event poller: terminate on a failed fetch, else diff
/// the batch. The second result is the match-start marker.
pub fn event_poll_step(fetch: Result<Vec<EventRecord>, FetchError>, st: &EventStreamState) -> (r: (
    PollStep<EventStreamState>,
    bool,
))
    ensures
        (r.0 is Terminated) <==> (fetch is Err),
        (fetch matches Err(e) ==> r.0 == PollStep::<EventStreamState>::Terminated(e) && !r.1),
        (fetch matches Ok(batch) ==> {
            &&& r.0 matches PollStep::Continue { state, commands }
                && state == spec_event_diff(batch@, *st).0
                && commands@ == spec_opt_commands(spec_event_diff(batch@, *st).1)
            &&& r.1 == spec_event_diff(batch@, *st).2
        }),
{
    match fetch {
        Err(e) => (PollStep::Terminated(e), false),
        Ok(batch) => {
            let (state, act, started) = diff_events(&batch, st);
            let mut commands: Vec<Actuation> = Vec::new();
            if let Some(a) = act {
                commands.push(a);
            }
            proof {
                assert(commands@ =~= spec_opt_commands(act));
            }
            (PollStep::Continue { state, commands }, started)
        },
    }
}

/// One cycle of the score poller: terminate on a failed fetch, else diff
/// the snapshot and run its commands, creep-score pulse before death
/// pulse.
pub fn score_poll_step(
    fetch: Result<ScoreSnapshot, FetchError>,
    st: &ScoreTrackingState,
) -> (r: PollStep<ScoreTrackingState>)
    requires
        st.update_count < u64::MAX,
    ensures
        (r is Terminated) <==> (fetch is Err),
        (fetch matches Err(e) ==> r == PollStep::<ScoreTrackingState>::Terminated(e)),
        (fetch matches Ok(snap) ==> (r matches PollStep::Continue { state, commands }
            && state == spec_score_diff(snap, *st).0
            && commands@ == spec_score_commands(snap, *st))),
{
    match fetch {
        Err(e) => PollStep::Terminated(e),
        Ok(snap) => {
            let (state, creep_act, death_act) = diff_score(&snap, st);
            let mut commands: Vec<Actuation> = Vec::new();
            if let Some(a) = creep_act {
                commands.push(a);
            }
            if let Some(a) = death_act {
                commands.push(a);
            }
            proof {
                assert(commands@ =~= spec_score_commands(snap, *st));
            }
            PollStep::Continue { state, commands }
        },
    }
}

/// One cycle of the active-player poller: terminate on a failed fetch,
/// else diff the snapshot and run its single command, if one fired.
pub fn active_poll_step(
    fetch: Result<ActivePlayerSnapshot, FetchError>,
    st: &ActivePlayerTrackingState,
) -> (r: PollStep<ActivePlayerTrackingState>)
    ensures
        (r is Terminated) <==> (fetch is Err),
        (fetch matches Err(e) ==> r == PollStep::<ActivePlayerTrackingState>::Terminated(e)),
        (fetch matches Ok(snap) ==> (r matches PollStep::Continue { state, commands }
            && state == (ActivePlayerTrackingState {
                gold: snap.gold,
                level: snap.level,
                stats: snap.stats,
            })
            && commands@ == spec_opt_commands(spec_active_actuation(snap, *st)))),
{
    match fetch {
        Err(e) => PollStep::Terminated(e),
        Ok(snap) => {
            let (state, act) = diff_active_player(&snap, st);
            let mut commands: Vec<Actuation> = Vec::new();
            if let Some(a) = act {
                commands.push(a);
            }
            proof {
                assert(commands@ =~= spec_opt_commands(act));
            }
            PollStep::Continue { state, commands }
        },
    }
}

} // verus!
