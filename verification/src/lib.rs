//! The decisions of a terminal window that holds several tabs.
//!
//! A [`WindowContext`] owns the tabs of one window, the events that wait to be
//! processed, and the flags that say when the window has to be drawn again. It
//! performs no input or output. Each operation changes the state and returns
//! what the embedding program has to do next, such as drawing a tab bar,
//! resizing a terminal or requesting a redraw.

pub mod config;
pub mod context;
pub mod decimal;
pub mod effects;
pub mod event;
pub mod laws;
pub mod model;
pub mod ref_test;
pub mod setup;
pub mod tab;
pub mod terminal;

pub use config::UiConfig;
pub use context::WindowContext;
