//! Core state of a small terminal dashboard: a focus state machine over four
//! panels, wrap-around selection lists for the tab bar and the table panel,
//! an application state that dispatches key events to them, and the timeout
//! arithmetic of the fixed-tick input loop. Terminal handling and drawing are
//! left to an outer shell; this crate owns only the semantic state it hands
//! to a renderer.

pub mod app;
pub mod focus;
pub mod list;
pub mod tick;
