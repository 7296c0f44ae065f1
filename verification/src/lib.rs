//! Orchestration core of a per-virtual-desktop label overlay: the visibility
//! policy, the configuration document and the event-driven state machine that
//! decides what the overlay shows and when.

pub mod autorun;
pub mod config;
pub mod events;
pub mod geometry;
pub mod hotkeys;
pub mod labels;
pub mod laws;
pub mod orchestrator;
pub mod text;
pub mod utils;
pub mod visibility;
