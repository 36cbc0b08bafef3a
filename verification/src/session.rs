//! Session controller: waits for a match, runs the pollers, loops forever.
//!
//! The controller is a two-phase state machine. In `Idle` it checks the
//! game-status endpoint until the reported mode equals the configured
//! target, retrying after a fixed delay on a failed fetch or a different
//! mode. Entering `InMatch` starts the three pollers; once all of them
//! have terminated the controller returns to `Idle` unconditionally.

use vstd::prelude::*;

verus! {

/// The game-status record reported by the telemetry source. Only the mode
/// string is inspected, against the configured target mode.
#[derive(Debug)]
pub struct GameStat {
    pub game_mode: String,
}

/// Configuration the session controller is constructed with: the game
/// mode that counts as a running match, the delay between poller cycles,
/// and the delay between status checks while idle (milliseconds).
#[derive(Debug)]
pub struct SessionConfig {
    pub target_mode: String,
    pub poll_delay_ms: u64,
    pub idle_retry_delay_ms: u64,
}

impl SessionConfig {
    /// The stock configuration: the swarm game mode, 50 ms between poller
    /// cycles, one second between idle status checks.
    pub fn standard() -> (r: SessionConfig)
        ensures
            r.target_mode@ == "STRAWBERRY"@,
            r.poll_delay_ms == 50,
            r.idle_retry_delay_ms == 1000,
    {
        SessionConfig {
            target_mode: "STRAWBERRY".to_owned(),
            poll_delay_ms: 50,
            idle_retry_delay_ms: 1000,
        }
    }
}

/// The two phases of the session controller.
#[derive(Clone, Copy, Debug, PartialEq, Eq, Structural)]
pub enum SessionPhase {
    Idle,
    InMatch,
}

/// What the controller just observed: the outcome of a status check
/// (`None` for a failed fetch), or that all three pollers terminated.
#[derive(Debug)]
pub enum SessionEvent {
    StatusChecked(Option<GameStat>),
    PollersDone,
}

/// What the controller does next.
#[derive(Clone, Copy, Debug, PartialEq, Eq, Structural)]
pub enum SessionAction {
    /// Check the game-status endpoint now.
    CheckStatus,
    /// Sleep for `delay_ms`, then check the game-status endpoint again.
    RetryStatus { delay_ms: u64 },
    /// Fetch the active-player name and start the three pollers.
    BeginPolling,
    /// Keep waiting until every poller has terminated.
    AwaitPollers,
}

/// The controller's transition function.
///
/// While idle, a status check whose mode equals the target enters the
/// match and starts the pollers; any other outcome (failed fetch
/// included) stays idle and retries after the configured delay. Once in
/// a match, the only transition out is all pollers terminating, which
/// returns to idle and checks the status again at once.
pub open spec fn spec_session_transition(
    phase: SessionPhase,
    ev: SessionEvent,
    cfg: SessionConfig,
) -> (SessionPhase, SessionAction) {
    match (phase, ev) {
        (SessionPhase::Idle, SessionEvent::StatusChecked(fetch)) => if fetch matches Some(s)
            && s.game_mode@ == cfg.target_mode@ {
            (SessionPhase::InMatch, SessionAction::BeginPolling)
        } else {
            (
                SessionPhase::Idle,
                SessionAction::RetryStatus { delay_ms: cfg.idle_retry_delay_ms },
            )
        },
        (SessionPhase::Idle, SessionEvent::PollersDone) => (
            SessionPhase::Idle,
            SessionAction::CheckStatus,
        ),
        (SessionPhase::InMatch, SessionEvent::PollersDone) => (
            SessionPhase::Idle,
            SessionAction::CheckStatus,
        ),
        (SessionPhase::InMatch, SessionEvent::StatusChecked(_)) => (
            SessionPhase::InMatch,
            SessionAction::AwaitPollers,
        ),
    }
}

/// Advances the session controller by one observed event.
pub fn session_transition(phase: SessionPhase, ev: SessionEvent, cfg: &SessionConfig) -> (r: (
    SessionPhase,
    SessionAction,
))
    ensures
        r == spec_session_transition(phase, ev, *cfg),
{
    match ev {
        SessionEvent::StatusChecked(fetch) => match phase {
            SessionPhase::Idle => match fetch {
                Some(s) => if s.game_mode == cfg.target_mode {
                    (SessionPhase::InMatch, SessionAction::BeginPolling)
                } else {
                    (
                        SessionPhase::Idle,
                        SessionAction::RetryStatus { delay_ms: cfg.idle_retry_delay_ms },
                    )
                },
                None => (
                    SessionPhase::Idle,
                    SessionAction::RetryStatus { delay_ms: cfg.idle_retry_delay_ms },
                ),
            },
            SessionPhase::InMatch => (SessionPhase::InMatch, SessionAction::AwaitPollers),
        },
        SessionEvent::PollersDone => (SessionPhase::Idle, SessionAction::CheckStatus),
    }
}

/// The controller never leaves its two-phase cycle: the idle phase is
/// left only for a status check that matched the target mode, and the
/// in-match phase only for the pollers' joint termination.
pub proof fn lemma_session_phase_changes(phase: SessionPhase, ev: SessionEvent, cfg: SessionConfig)
    ensures
        spec_session_transition(phase, ev, cfg).0 == SessionPhase::InMatch && phase
            == SessionPhase::Idle ==> (ev matches SessionEvent::StatusChecked(Some(s))
            && s.game_mode@ == cfg.target_mode@),
        spec_session_transition(phase, ev, cfg).0 == SessionPhase::Idle && phase
            == SessionPhase::InMatch ==> ev is PollersDone,
{
}

} // verus!
