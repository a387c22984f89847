//! Key-state tracking, terminal-event adaptation and screen layout for a
//! MacBook-to-IBM-PC/XT keyboard tester.
//!
//! - [`input`]: terminal key events, the mapper's host events, and the
//!   adapter between them.
//! - [`tracker`]: per-key display state (never pressed, seen, down).
//! - [`schedule`]: guest key transitions and simulated releases.
//! - [`describe`]: the one-line description of the last event.
//! - [`layout`]: the screen as positioned, styled cells.
//! - [`session`]: what each terminal event and each clock tick does.
pub mod describe;
pub mod input;
pub mod layout;
pub mod schedule;
pub mod session;
pub mod text;
pub mod tracker;
