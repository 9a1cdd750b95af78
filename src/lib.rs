//! Decision logic of a system-wide keyboard observer: classifying low-level
//! key notifications into events, deciding what reaches the log, and keeping
//! the single hook session through install and uninstall.

pub mod classify;
pub mod consumer;
pub mod event;
pub mod lifecycle;
