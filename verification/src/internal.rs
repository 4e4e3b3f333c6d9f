//! What stands between the builder and the event loop: the window's
//! configuration, the decisions of the event handler, and the fixed-step
//! clock.

pub mod app;
pub mod executor;
