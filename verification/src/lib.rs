//! Visibility policy for a single tray-resident window.
//!
//! The window is anchored to the bottom-right corner of its monitor at launch,
//! hidden to the tray instead of closed, and summoned again from the tray icon,
//! the tray menu or a global hotkey. Every decision is a function from plain
//! values to plain values; the caller owns the toolkit and performs the effects.

pub mod controller;
pub mod hotkey;
pub mod placement;
pub mod shell;
pub mod startup;
pub mod text;
pub mod tray;
