//! The terminal interface's state, its status line, its key handling and the
//! text of its screens.
pub mod data;
pub mod event_laws;
pub mod events;
pub mod flow;
pub mod screens;
pub mod state;
pub mod status;
pub mod status_laws;
pub mod tasks;
