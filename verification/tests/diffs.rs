use swarm_bliss::actuation::{Actuation, Intensity, clamped_ratio};
use swarm_bliss::events::{EventRecord, EventStreamState, diff_events};
use swarm_bliss::player::{
    ActivePlayerSnapshot, ActivePlayerTrackingState, ChampionStat, diff_active_player,
};
use swarm_bliss::score::{ScoreSnapshot, ScoreTrackingState, diff_score};

fn record(id: u64, name: &str, result: &str) -> EventRecord {
    EventRecord { id, name: name.to_owned(), result: result.to_owned() }
}

fn stats(haste: u64, armor: u64, health: u64, speed: u64) -> ChampionStat {
    ChampionStat { haste, armor, health, speed }
}

fn player_snap(gold: u64, level: u64, s: ChampionStat) -> ActivePlayerSnapshot {
    ActivePlayerSnapshot { gold, level, stats: s }
}

fn player_state(gold: u64, level: u64, s: ChampionStat) -> ActivePlayerTrackingState {
    ActivePlayerTrackingState { gold, level, stats: s }
}

#[test]
fn creep_score_debounce_parity() {
    // Five strictly increasing creep scores from a fresh state: the pulse
    // fires on the second and fourth increase, and the counter ends at 5.
    let mut st = ScoreTrackingState::initial();
    let mut fired: Vec<bool> = Vec::new();
    for creep in [3u64, 7, 12, 20, 33] {
        let (next, creep_act, death_act) =
            diff_score(&ScoreSnapshot { creep_score: creep, deaths: 0 }, &st);
        fired.push(creep_act.is_some());
        assert!(death_act.is_none());
        assert_eq!(next.creep_score, creep);
        st = next;
    }
    assert_eq!(fired, vec![false, true, false, true, false]);
    assert_eq!(st.update_count, 5);
}

#[test]
fn creep_score_even_update_fires() {
    // Score state {creepScore:10, updateCount:1, deaths:0} receiving
    // {creepScore:12, deaths:0}: count becomes 2 (even), the pulse fires.
    let st = ScoreTrackingState { creep_score: 10, update_count: 1, deaths: 0 };
    let snap = ScoreSnapshot { creep_score: 12, deaths: 0 };
    let (next, creep_act, death_act) = diff_score(&snap, &st);
    assert_eq!(next.update_count, 2);
    assert_eq!(next.creep_score, 12);
    assert_eq!(next.deaths, 0);
    assert_eq!(
        creep_act,
        Some(Actuation { intensity: Intensity { num: 40, den: 100 }, duration_ms: 200 })
    );
    assert!(death_act.is_none());
}

#[test]
fn creep_score_odd_update_is_suppressed() {
    let st = ScoreTrackingState { creep_score: 10, update_count: 2, deaths: 0 };
    let (next, creep_act, _) = diff_score(&ScoreSnapshot { creep_score: 11, deaths: 0 }, &st);
    assert_eq!(next.update_count, 3);
    assert!(creep_act.is_none());
}

#[test]
fn death_increase_fires_once_whatever_the_jump() {
    // Deaths rising by three still fires exactly one {0.75, 1 s} pulse.
    let st = ScoreTrackingState { creep_score: 50, update_count: 4, deaths: 1 };
    let (next, creep_act, death_act) = diff_score(&ScoreSnapshot { creep_score: 50, deaths: 4 }, &st);
    assert!(creep_act.is_none());
    assert_eq!(
        death_act,
        Some(Actuation { intensity: Intensity { num: 75, den: 100 }, duration_ms: 1000 })
    );
    assert_eq!(next.deaths, 4);
    assert_eq!(next.update_count, 4);
}

#[test]
fn score_tracks_decreases_without_firing() {
    // A lower snapshot never fires but still replaces the tracked values.
    let st = ScoreTrackingState { creep_score: 30, update_count: 3, deaths: 2 };
    let (next, creep_act, death_act) = diff_score(&ScoreSnapshot { creep_score: 20, deaths: 2 }, &st);
    assert!(creep_act.is_none());
    assert!(death_act.is_none());
    assert_eq!(next, ScoreTrackingState { creep_score: 20, update_count: 3, deaths: 2 });
}

#[test]
fn game_end_lose_fires_defeat_then_latches() {
    // A batch ending in {name: "GameEnd", result: "Lose"} with the latch
    // clear fires exactly one {0.75, 1 s} pulse and sets the latch; a
    // second batch with another "GameEnd" fires nothing.
    let st = EventStreamState::initial();
    let batch = vec![record(0, "GameStart", ""), record(1, "GameEnd", "Lose")];
    let (st2, act, started) = diff_events(&batch, &st);
    assert!(started);
    assert_eq!(
        act,
        Some(Actuation { intensity: Intensity { num: 75, den: 100 }, duration_ms: 1000 })
    );
    assert!(st2.match_ended);
    assert_eq!(st2.seen_count, 2);

    let batch2 = vec![
        record(0, "GameStart", ""),
        record(1, "GameEnd", "Lose"),
        record(2, "GameEnd", "Lose"),
    ];
    let (st3, act2, started2) = diff_events(&batch2, &st2);
    assert!(act2.is_none());
    assert!(!started2);
    assert!(st3.match_ended);
    assert_eq!(st3.seen_count, 3);
}

#[test]
fn game_end_win_fires_victory() {
    let st = EventStreamState { seen_count: 5, match_ended: false };
    let batch = vec![record(7, "GameEnd", "Win")];
    let (st2, act, started) = diff_events(&batch, &st);
    assert!(!started);
    assert_eq!(
        act,
        Some(Actuation { intensity: Intensity { num: 100, den: 100 }, duration_ms: 2000 })
    );
    assert!(st2.match_ended);
}

#[test]
fn game_end_empty_result_counts_as_victory() {
    // Any non-"Lose" result, the default empty string included, is a win.
    let st = EventStreamState { seen_count: 1, match_ended: false };
    let (_, act, _) = diff_events(&vec![record(3, "GameEnd", "")], &st);
    assert_eq!(
        act,
        Some(Actuation { intensity: Intensity { num: 100, den: 100 }, duration_ms: 2000 })
    );
}

#[test]
fn empty_batch_changes_nothing() {
    let st = EventStreamState { seen_count: 4, match_ended: false };
    let (st2, act, started) = diff_events(&Vec::new(), &st);
    assert_eq!(st2, st);
    assert!(act.is_none());
    assert!(!started);
}

#[test]
fn game_start_marker_only_on_first_batch() {
    let st = EventStreamState::initial();
    let batch = vec![record(0, "GameStart", "")];
    let (st2, act, started) = diff_events(&batch, &st);
    assert!(started);
    assert!(act.is_none());
    assert_eq!(st2.seen_count, 1);

    // With records already seen, the marker stays quiet.
    let (_, _, started_again) = diff_events(&batch, &st2);
    assert!(!started_again);
}

#[test]
fn gold_increase_fires_scaled_pulse() {
    // Gold 100 -> 16000 yields intensity min(16000/15000, 1) = 1, 0.2 s.
    let st = player_state(100, 1, stats(0, 30, 600, 330));
    let snap = player_snap(16000, 1, stats(0, 30, 600, 330));
    let (next, act) = diff_active_player(&snap, &st);
    assert_eq!(
        act,
        Some(Actuation { intensity: Intensity { num: 15000, den: 15000 }, duration_ms: 200 })
    );
    assert_eq!(next, player_state(16000, 1, stats(0, 30, 600, 330)));
}

#[test]
fn gold_below_threshold_keeps_raw_ratio() {
    let st = player_state(0, 1, stats(0, 0, 0, 0));
    let snap = player_snap(7500, 1, stats(0, 0, 0, 0));
    let (_, act) = diff_active_player(&snap, &st);
    assert_eq!(
        act,
        Some(Actuation { intensity: Intensity { num: 7500, den: 15000 }, duration_ms: 200 })
    );
}

#[test]
fn intensity_is_clamped_at_one() {
    // Gold 20000 gives intensity exactly 1, not 20000/15000.
    let st = player_state(0, 1, stats(0, 0, 0, 0));
    let (_, act) = diff_active_player(&player_snap(20000, 1, stats(0, 0, 0, 0)), &st);
    let a = act.expect("gold increase must fire");
    assert_eq!(a.intensity, Intensity { num: 15000, den: 15000 });
    assert_eq!(a.intensity.num, a.intensity.den);

    let i = clamped_ratio(987654, 500);
    assert_eq!(i, Intensity { num: 500, den: 500 });
}

#[test]
fn gold_outranks_every_other_increase() {
    // Gold, level and armor all rose in one tick: only the gold pulse fires.
    let st = player_state(1000, 3, stats(10, 50, 2000, 340));
    let snap = player_snap(1200, 4, stats(10, 80, 2000, 340));
    let (next, act) = diff_active_player(&snap, &st);
    assert_eq!(
        act,
        Some(Actuation { intensity: Intensity { num: 1200, den: 15000 }, duration_ms: 200 })
    );
    assert_eq!(next, player_state(1200, 4, stats(10, 80, 2000, 340)));
}

#[test]
fn level_up_alone_fires_fixed_pulse() {
    let st = player_state(500, 3, stats(0, 50, 2000, 340));
    let snap = player_snap(500, 4, stats(0, 50, 2000, 340));
    let (_, act) = diff_active_player(&snap, &st);
    assert_eq!(
        act,
        Some(Actuation { intensity: Intensity { num: 50, den: 100 }, duration_ms: 500 })
    );
}

#[test]
fn haste_alone_fires_scaled_pulse() {
    let st = player_state(500, 4, stats(20, 50, 2000, 340));
    let snap = player_snap(500, 4, stats(45, 50, 2000, 340));
    let (_, act) = diff_active_player(&snap, &st);
    assert_eq!(
        act,
        Some(Actuation { intensity: Intensity { num: 45, den: 500 }, duration_ms: 100 })
    );
}

#[test]
fn armor_alone_fires_scaled_pulse() {
    let st = player_state(500, 4, stats(20, 50, 2000, 340));
    let snap = player_snap(500, 4, stats(20, 95, 2000, 340));
    let (_, act) = diff_active_player(&snap, &st);
    assert_eq!(
        act,
        Some(Actuation { intensity: Intensity { num: 95, den: 300 }, duration_ms: 100 })
    );
}

#[test]
fn health_alone_fires_scaled_pulse() {
    let st = player_state(500, 4, stats(20, 50, 2000, 340));
    let snap = player_snap(500, 4, stats(20, 50, 2600, 340));
    let (_, act) = diff_active_player(&snap, &st);
    assert_eq!(
        act,
        Some(Actuation { intensity: Intensity { num: 2600, den: 10000 }, duration_ms: 100 })
    );
}

#[test]
fn speed_alone_fires_scaled_pulse() {
    let st = player_state(500, 4, stats(20, 50, 2000, 340));
    let snap = player_snap(500, 4, stats(20, 50, 2000, 385));
    let (_, act) = diff_active_player(&snap, &st);
    assert_eq!(
        act,
        Some(Actuation { intensity: Intensity { num: 385, den: 1000 }, duration_ms: 100 })
    );
}

#[test]
fn no_increase_fires_nothing_but_state_still_replaced() {
    // Everything equal or lower: no pulse, yet the snapshot replaces the
    // tracking state in full.
    let st = player_state(900, 5, stats(30, 60, 2500, 400));
    let snap = player_snap(700, 5, stats(30, 55, 2500, 400));
    let (next, act) = diff_active_player(&snap, &st);
    assert!(act.is_none());
    assert_eq!(next, player_state(700, 5, stats(30, 55, 2500, 400)));
}
