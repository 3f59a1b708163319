//! Automatic scene switching for live streams.
//!
//! Stream servers report how good a stream is. The switcher decides when that
//! asks for another scene in the broadcasting software, which scene that is,
//! and what to do while the software is still busy with the last request. It
//! does none of the input and output itself: each decision is a function of
//! the state, of what was answered last and of what the clock said.
pub mod calls;
pub mod clock;
pub mod config;
pub mod debug;
pub mod error;
pub mod laws;
pub mod notify;
pub mod outcomes;
pub mod rules;
pub mod scenes;
pub mod state;
pub mod status;
pub mod steps;
pub mod switcher;
pub mod triggers;
pub mod views;
