//! State machine and panel-routing engine for a small single-window
//! notes application.
//!
//! The library owns the in-memory application state (`label`, `value`,
//! `mode`, `page`), the transition rules that govern which panel renders
//! for a given state, and the load/save contract that reconciles a
//! persisted blob with the current schema.  The windowing runtime and the
//! widget toolkit are outside collaborators: they deliver input events and
//! draw whatever [`router::RenderPlan`] the library decides on.

pub mod codec;
pub mod router;
pub mod state;
