//! Polling/diffing/dispatch engine for live game telemetry.
//!
//! Three pollers each track one telemetry stream (event log, score,
//! active-player stats). Each cycle, a poller hands the freshly fetched
//! snapshot and its tracking state to a diff engine, which returns the
//! updated state together with the haptic actuation commands that the
//! detected changes call for. A session controller waits for a match to
//! begin, runs the three pollers until all of them stop, and returns to
//! waiting. Everything here is pure state-transition logic: fetching,
//! sleeping and driving the actuator are left to the caller.

pub mod actuation;
pub mod events;
pub mod player;
pub mod poller;
pub mod score;
pub mod session;
