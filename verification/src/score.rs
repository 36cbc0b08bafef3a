//! Diff engine for the score telemetry stream.
//!
//! Creep-score increases are debounced: every second increase fires a short
//! low-intensity pulse. Any increase of the death count fires one strong
//! pulse. Both tracked values are replaced by the snapshot's values
//! unconditionally at the end of each call.

use vstd::prelude::*;
use crate::actuation::{Actuation, Intensity};

verus! {

/// The score values reported by one telemetry fetch.
#[derive(Clone, Copy, Debug, PartialEq, Eq, Structural)]
pub struct ScoreSnapshot {
    pub creep_score: u64,
    pub deaths: u64,
}

/// Tracking state of the score poller. `update_count` counts the
/// creep-score increases seen so far and drives the debounce.
#[derive(Clone, Copy, Debug, PartialEq, Eq, Structural)]
pub struct ScoreTrackingState {
    pub creep_score: u64,
    pub update_count: u64,
    pub deaths: u64,
}

impl ScoreTrackingState {
    /// The state a poller starts from: all counters at zero.
    pub fn initial() -> (r: ScoreTrackingState)
        ensures
            r == (ScoreTrackingState { creep_score: 0, update_count: 0, deaths: 0 }),
    {
        ScoreTrackingState { creep_score: 0, update_count: 0, deaths: 0 }
    }
}

/// The debounced command fired on every second creep-score increase.
pub open spec fn spec_creep_actuation() -> Actuation {
    Actuation { intensity: Intensity { num: 40, den: 100 }, duration_ms: 200 }
}

/// The command fired whenever the death count increases.
pub open spec fn spec_death_actuation() -> Actuation {
    Actuation { intensity: Intensity { num: 75, den: 100 }, duration_ms: 1000 }
}

/// What one score-diff call returns: the updated state, the debounced
/// creep-score command (if due), and the death command (if due).
///
/// A creep-score increase increments `update_count`, and the pulse fires
/// exactly when the incremented count is even. A death-count increase of
/// any size fires exactly one pulse. The tracked creep score and death
/// count become the snapshot's values whether or not they increased.
pub open spec fn spec_score_diff(snap: ScoreSnapshot, st: ScoreTrackingState) -> (
    ScoreTrackingState,
    Option<Actuation>,
    Option<Actuation>,
) {
    let creep_up = snap.creep_score > st.creep_score;
    let new_count = if creep_up {
        (st.update_count + 1) as u64
    } else {
        st.update_count
    };
    let creep_act = if creep_up && new_count % 2 == 0 {
        Some(spec_creep_actuation())
    } else {
        None
    };
    let death_act = if snap.deaths > st.deaths {
        Some(spec_death_actuation())
    } else {
        None
    };
    (
        ScoreTrackingState {
            creep_score: snap.creep_score,
            update_count: new_count,
            deaths: snap.deaths,
        },
        creep_act,
        death_act,
    )
}

/// Compares the latest score snapshot against the tracking state.
///
/// Returns the updated state, the creep-score command if this increase is
/// an even-numbered one, and the death command if the death count rose.
pub fn diff_score(snap: &ScoreSnapshot, st: &ScoreTrackingState) -> (r: (
    ScoreTrackingState,
    Option<Actuation>,
    Option<Actuation>,
))
    requires
        st.update_count < u64::MAX,
    ensures
        r == spec_score_diff(*snap, *st),
        (snap.deaths > st.deaths) <==> (r.2 == Some(spec_death_actuation())),
{
    let creep_up = snap.creep_score > st.creep_score;
    let new_count: u64 = if creep_up {
        st.update_count + 1
    } else {
        st.update_count
    };
    let creep_act: Option<Actuation> = if creep_up && new_count % 2 == 0 {
        Some(Actuation { intensity: Intensity { num: 40, den: 100 }, duration_ms: 200 })
    } else {
        None
    };
    let death_act: Option<Actuation> = if snap.deaths > st.deaths {
        Some(Actuation { intensity: Intensity { num: 75, den: 100 }, duration_ms: 1000 })
    } else {
        None
    };
    let new_state = ScoreTrackingState {
        creep_score: snap.creep_score,
        update_count: new_count,
        deaths: snap.deaths,
    };
    (new_state, creep_act, death_act)
}

/// The tracking state after feeding the snapshots of `snaps` to the diff
/// engine one by one, starting from `st`.
pub open spec fn spec_score_state_after(snaps: Seq<ScoreSnapshot>, st: ScoreTrackingState)
    -> ScoreTrackingState
    decreases snaps.len(),
{
    if snaps.len() == 0 {
        st
    } else {
        spec_score_diff(snaps.last(), spec_score_state_after(snaps.drop_last(), st)).0
    }
}

/// Whether the creep-score pulse fires on call `i` of the series.
pub open spec fn spec_creep_fired_at(
    snaps: Seq<ScoreSnapshot>,
    st: ScoreTrackingState,
    i: int,
) -> bool {
    spec_score_diff(snaps[i], spec_score_state_after(snaps.take(i), st)).1 is Some
}

/// Debounce parity: across a series of snapshots whose creep scores
/// strictly increase call over call, `update_count` after the series
/// equals its start plus the series length, and the creep pulse fires on
/// exactly every second increase (those whose incremented count is even).
pub proof fn lemma_creep_debounce(snaps: Seq<ScoreSnapshot>, st: ScoreTrackingState)
    requires
        st.update_count + snaps.len() <= u64::MAX,
        forall|i: int|
            0 <= i < snaps.len() ==> (#[trigger] snaps[i]).creep_score > (if i == 0 {
                st.creep_score
            } else {
                snaps[i - 1].creep_score
            }),
    ensures
        spec_score_state_after(snaps, st).update_count == st.update_count + snaps.len(),
        forall|i: int|
            0 <= i < snaps.len() ==> (#[trigger] spec_creep_fired_at(snaps, st, i) <==> (
            st.update_count + i + 1) % 2 == 0),
    decreases snaps.len(),
{
    if snaps.len() > 0 {
        let prefix = snaps.drop_last();
        assert forall|i: int|
            0 <= i < prefix.len() implies (#[trigger] prefix[i]).creep_score > (if i == 0 {
            st.creep_score
        } else {
            prefix[i - 1].creep_score
        }) by {
            assert(prefix[i] == snaps[i]);
        }
        lemma_creep_debounce(prefix, st);
        let before_last = spec_score_state_after(prefix, st);
        assert(before_last.creep_score == if snaps.len() == 1 {
            st.creep_score
        } else {
            snaps[snaps.len() - 2].creep_score
        }) by {
            lemma_score_state_tracks_last(prefix, st);
        }
        assert forall|i: int|
            0 <= i < snaps.len() implies (#[trigger] spec_creep_fired_at(snaps, st, i) <==> (
        st.update_count + i + 1) % 2 == 0) by {
            if i < snaps.len() - 1 {
                assert(snaps.take(i) =~= prefix.take(i));
                assert(snaps[i] == prefix[i]);
                assert(spec_creep_fired_at(prefix, st, i) <==> (st.update_count + i + 1) % 2
                    == 0);
            } else {
                assert(snaps.take(i) =~= prefix);
            }
        }
    }
}

/// After a non-empty series, the tracked creep score is the last
/// snapshot's; after an empty one, it is unchanged.
pub proof fn lemma_score_state_tracks_last(snaps: Seq<ScoreSnapshot>, st: ScoreTrackingState)
    ensures
        spec_score_state_after(snaps, st).creep_score == if snaps.len() == 0 {
            st.creep_score
        } else {
            snaps.last().creep_score
        },
        spec_score_state_after(snaps, st).deaths == if snaps.len() == 0 {
            st.deaths
        } else {
            snaps.last().deaths
        },
    decreases snaps.len(),
{
    if snaps.len() > 0 {
        lemma_score_state_tracks_last(snaps.drop_last(), st);
    }
}

} // verus!
