//! Tap-tempo sessions: a bounded window of tap samples, the tag formats a
//! tempo is stored in, the keys a user presses and the state machine that
//! ties them together.

pub mod estimator;
pub mod input;
pub mod session;
pub mod text;
pub mod track;
