//! Scheduling core of a desktop auto-clicker.
//!
//! The library decides what a click worker does and when: how long to wait,
//! which pointer and button actions make up one click, when a run ends, and
//! whether a run may start at all. The host drives it, performs the actions it
//! names through the platform's input-injection facility, and reports back.
pub mod config;
pub mod control;
pub mod input;
pub mod worker;

pub use config::{
    Button, ClickPattern, ClickType, LocationMode, Mode, Pacing, StartConfig, interval_ms,
    jitter_bounds, pacing,
};
pub use input::{InputAction, click_once};
pub use worker::{Phase, Worker, WorkerAction, WorkerEvent};
pub use control::{ClickError, RunState};
