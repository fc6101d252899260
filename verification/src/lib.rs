//! A focus timer with a progression system: a countdown state machine for
//! work and break sessions, and the rules that turn completed focus sessions
//! into experience points, levels and day streaks.

pub mod calendar;
pub mod ledger;
pub mod models;
pub mod notifications;
pub mod orchestrator;
pub mod timer;
pub mod xp;
