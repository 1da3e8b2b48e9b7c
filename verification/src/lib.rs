//! Launch-time handoff of a data-file path from the command line to the
//! application window.
//!
//! A launch scans its arguments for a data file ([`scanner`]), writes the
//! one it finds to a transient marker and records what happened
//! ([`diagnostics`]). Once the window is ready it asks, once, for the pending
//! path ([`reader`]); asking consumes the marker. [`store`] holds the marker
//! in memory, and [`delivery`] states what a launch followed by that
//! question delivers.

pub mod delivery;
pub mod diagnostics;
pub mod reader;
pub mod scanner;
pub mod store;
pub mod text;
