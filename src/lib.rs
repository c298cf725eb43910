//! Runs a list of commands while a USB notifier light plays a pending
//! animation, then settles the light on a success or a failure color.
//!
//! The library holds the verified logic: the color palette, the task and
//! configuration model, and the notification controller's state machine with
//! its outcome channel. Device I/O, threads, sleeping and process spawning are
//! left to the program that drives it.
mod channel;
pub mod blinc;
pub mod colors;
pub mod config;
pub mod document;
pub mod laws;
pub mod task;
pub mod transition;

pub use channel::Offer;
