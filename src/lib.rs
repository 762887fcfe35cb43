//! Core of a screen-overlay paint tool: a bounded undo/redo history of
//! drawing surfaces, an edge-triggered input tracker, and the per-frame
//! gesture logic that turns tracked input into canvas and history operations.

pub mod history;
pub mod input;
pub mod session;
