//! Core logic of a pomodoro chat bot: a countdown clock, the cycle state
//! machine that drives work phases, the command router, and the per-user
//! task list semantics. The chat transport and the persistent store are
//! collaborators that live outside this crate.

pub mod clock;
pub mod messages;
pub mod router;
pub mod session;
pub mod store;
pub mod task;
pub mod text;
pub mod tracker;
