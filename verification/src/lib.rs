//! Core of a minimal desktop-shell command that opens a webview window:
//! derives a window identifier from the window's title and builds the
//! request that the windowing toolkit is asked to fulfil.

pub mod identifier;
pub mod request;
