//! Keeps a render surface sized to the browser viewport it is embedded in.
//!
//! The crate holds the decisions of a viewport plugin: how a window size
//! becomes a surface resolution, what a pending resize signal is, and what
//! the startup and per-tick routines do with it. The host application talks
//! to the browser and resizes the engine's window as the routines decide.

pub mod plugin;
pub mod resolution;
pub mod signal;
pub mod surface;

pub use crate::plugin::{FullViewportPlugin, TickAction, ViewportError, WindowReading};
pub use crate::resolution::WindowSize;
pub use crate::signal::ResizeSignal;
