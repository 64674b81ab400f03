//! A terminal work/break interval timer, verified: the settings and
//! statistics data model, the countdown model, the session state machine
//! that decides transitions and side effects, and the small text helpers
//! the shell needs.

pub mod cli;
pub mod digits;
pub mod editor;
pub mod session;
pub mod settings;
pub mod stats;
pub mod timer;
pub mod ui;
