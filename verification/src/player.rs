//! Diff engine for the active-player telemetry stream.
//!
//! Six tracked quantities can trigger a pulse, checked in a strict
//! priority order; only the first increase found fires, even when several
//! quantities rose in the same poll tick. Quantities the telemetry source
//! reports with a fractional part are tracked in whole units.

use vstd::prelude::*;
use crate::actuation::{Actuation, Intensity, clamped_ratio, spec_clamped};

verus! {

/// The champion stats inspected by the diff, in whole units.
#[derive(Clone, Copy, Debug, PartialEq, Eq, Structural)]
pub struct ChampionStat {
    pub haste: u64,
    pub armor: u64,
    pub health: u64,
    pub speed: u64,
}

/// The active-player values reported by one telemetry fetch.
#[derive(Clone, Copy, Debug, PartialEq, Eq, Structural)]
pub struct ActivePlayerSnapshot {
    pub gold: u64,
    pub level: u64,
    pub stats: ChampionStat,
}

/// Tracking state of the active-player poller: the last seen snapshot.
#[derive(Clone, Copy, Debug, PartialEq, Eq, Structural)]
pub struct ActivePlayerTrackingState {
    pub gold: u64,
    pub level: u64,
    pub stats: ChampionStat,
}

impl ActivePlayerTrackingState {
    /// The state a poller starts from: every quantity at zero.
    pub fn initial() -> (r: ActivePlayerTrackingState)
        ensures
            r == (ActivePlayerTrackingState {
                gold: 0,
                level: 0,
                stats: ChampionStat { haste: 0, armor: 0, health: 0, speed: 0 },
            }),
    {
        ActivePlayerTrackingState {
            gold: 0,
            level: 0,
            stats: ChampionStat { haste: 0, armor: 0, health: 0, speed: 0 },
        }
    }
}

/// Gold threshold against which the gold pulse's intensity is scaled.
pub const GOLD_SCALE: u64 = 15000;

/// Ability-haste threshold for the haste pulse's intensity.
pub const HASTE_SCALE: u64 = 500;

/// Armor threshold for the armor pulse's intensity.
pub const ARMOR_SCALE: u64 = 300;

/// Health threshold for the health pulse's intensity.
pub const HEALTH_SCALE: u64 = 10000;

/// Move-speed threshold for the speed pulse's intensity.
pub const SPEED_SCALE: u64 = 1000;

/// The command fired on a gold increase: intensity `min(gold / 15000, 1)`.
pub open spec fn spec_gold_actuation(gold: u64) -> Actuation {
    Actuation { intensity: spec_clamped(gold, GOLD_SCALE), duration_ms: 200 }
}

/// The command fired on a level-up.
pub open spec fn spec_level_actuation() -> Actuation {
    Actuation { intensity: Intensity { num: 50, den: 100 }, duration_ms: 500 }
}

/// The command fired on an ability-haste increase.
pub open spec fn spec_haste_actuation(haste: u64) -> Actuation {
    Actuation { intensity: spec_clamped(haste, HASTE_SCALE), duration_ms: 100 }
}

/// The command fired on an armor increase.
pub open spec fn spec_armor_actuation(armor: u64) -> Actuation {
    Actuation { intensity: spec_clamped(armor, ARMOR_SCALE), duration_ms: 100 }
}

/// The command fired on a max-health increase.
pub open spec fn spec_health_actuation(health: u64) -> Actuation {
    Actuation { intensity: spec_clamped(health, HEALTH_SCALE), duration_ms: 100 }
}

/// The command fired on a move-speed increase.
pub open spec fn spec_speed_actuation(speed: u64) -> Actuation {
    Actuation { intensity: spec_clamped(speed, SPEED_SCALE), duration_ms: 100 }
}

/// The single command an active-player diff call emits, if any: the first
/// quantity in the order gold, level, haste, armor, health, speed that
/// increased fires, and no lower-priority increase does.
pub open spec fn spec_active_actuation(
    snap: ActivePlayerSnapshot,
    st: ActivePlayerTrackingState,
) -> Option<Actuation> {
    if snap.gold > st.gold {
        Some(spec_gold_actuation(snap.gold))
    } else if snap.level > st.level {
        Some(spec_level_actuation())
    } else if snap.stats.haste > st.stats.haste {
        Some(spec_haste_actuation(snap.stats.haste))
    } else if snap.stats.armor > st.stats.armor {
        Some(spec_armor_actuation(snap.stats.armor))
    } else if snap.stats.health > st.stats.health {
        Some(spec_health_actuation(snap.stats.health))
    } else if snap.stats.speed > st.stats.speed {
        Some(spec_speed_actuation(snap.stats.speed))
    } else {
        None
    }
}

/// Compares the latest active-player snapshot against the tracking state.
///
/// Returns the tracking state fully replaced by the snapshot's values,
/// whichever branch fired, and the highest-priority pulse the increases
/// call for, if any quantity increased at all.
pub fn diff_active_player(snap: &ActivePlayerSnapshot, st: &ActivePlayerTrackingState) -> (r: (
    ActivePlayerTrackingState,
    Option<Actuation>,
))
    ensures
        r.0 == (ActivePlayerTrackingState { gold: snap.gold, level: snap.level, stats: snap.stats }),
        r.1 == spec_active_actuation(*snap, *st),
        (r.1 matches Some(a) ==> a.wf()),
{
    let act: Option<Actuation> = if snap.gold > st.gold {
        Some(Actuation { intensity: clamped_ratio(snap.gold, GOLD_SCALE), duration_ms: 200 })
    } else if snap.level > st.level {
        Some(Actuation { intensity: Intensity { num: 50, den: 100 }, duration_ms: 500 })
    } else if snap.stats.haste > st.stats.haste {
        Some(Actuation {
            intensity: clamped_ratio(snap.stats.haste, HASTE_SCALE),
            duration_ms: 100,
        })
    } else if snap.stats.armor > st.stats.armor {
        Some(Actuation {
            intensity: clamped_ratio(snap.stats.armor, ARMOR_SCALE),
            duration_ms: 100,
        })
    } else if snap.stats.health > st.stats.health {
        Some(Actuation {
            intensity: clamped_ratio(snap.stats.health, HEALTH_SCALE),
            duration_ms: 100,
        })
    } else if snap.stats.speed > st.stats.speed {
        Some(Actuation {
            intensity: clamped_ratio(snap.stats.speed, SPEED_SCALE),
            duration_ms: 100,
        })
    } else {
        None
    };
    let new_state = ActivePlayerTrackingState {
        gold: snap.gold,
        level: snap.level,
        stats: snap.stats,
    };
    (new_state, act)
}

/// Priority of the active-player pulses: a pulse fires exactly when some
/// quantity increased, and an increase of a quantity fires that
/// quantity's own pulse only when no higher-priority quantity increased
/// with it; the pulse's intensity is always in `[0, 1]`.
pub proof fn lemma_active_priority(snap: ActivePlayerSnapshot, st: ActivePlayerTrackingState)
    ensures
        (spec_active_actuation(snap, st) is Some) <==> (snap.gold > st.gold || snap.level
            > st.level || snap.stats.haste > st.stats.haste || snap.stats.armor
            > st.stats.armor || snap.stats.health > st.stats.health || snap.stats.speed
            > st.stats.speed),
        snap.gold > st.gold ==> spec_active_actuation(snap, st) == Some(
            spec_gold_actuation(snap.gold),
        ),
        snap.gold <= st.gold && snap.level > st.level ==> spec_active_actuation(snap, st)
            == Some(spec_level_actuation()),
        snap.gold <= st.gold && snap.level <= st.level && snap.stats.haste > st.stats.haste
            ==> spec_active_actuation(snap, st) == Some(spec_haste_actuation(snap.stats.haste)),
        snap.gold <= st.gold && snap.level <= st.level && snap.stats.haste <= st.stats.haste
            && snap.stats.armor > st.stats.armor ==> spec_active_actuation(snap, st) == Some(
            spec_armor_actuation(snap.stats.armor),
        ),
        snap.gold <= st.gold && snap.level <= st.level && snap.stats.haste <= st.stats.haste
            && snap.stats.armor <= st.stats.armor && snap.stats.health > st.stats.health
            ==> spec_active_actuation(snap, st) == Some(spec_health_actuation(snap.stats.health)),
        snap.gold <= st.gold && snap.level <= st.level && snap.stats.haste <= st.stats.haste
            && snap.stats.armor <= st.stats.armor && snap.stats.health <= st.stats.health
            && snap.stats.speed > st.stats.speed ==> spec_active_actuation(snap, st) == Some(
            spec_speed_actuation(snap.stats.speed),
        ),
        (spec_active_actuation(snap, st) matches Some(a) ==> a.wf()),
{
}

} // verus!
