//! Verified core of a Chrome DevTools performance-trace analyzer: tab
//! navigation and key handling of the terminal viewer, main-thread detection,
//! and the Markdown report layout.

pub mod analysis;
pub mod app;
pub mod export;
pub mod paths;
pub mod text;
pub mod trace;
pub mod ui;
