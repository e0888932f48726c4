//! Runtime control of one stage of an arcade shooter.
//!
//! The scene controller is a small state machine (loading, running, game
//! over) that answers engine events with a list of commands for the host to
//! carry out. Progress that survives a stage lives in the session record, and
//! the spawner decides where each enemy of a wave appears.

pub mod command;
pub mod session;
pub mod spawner;
pub mod scene;
