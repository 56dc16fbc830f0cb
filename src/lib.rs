//! Lifecycle of a desktop application host: the runtime comes up or fails,
//! the event loop runs, and the single exposed action ends the process.
pub mod lifecycle;
pub mod laws;
