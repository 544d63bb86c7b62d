//! Verified core of a drag-and-drop disk-image viewer.
//!
//! The library holds the state that the user interface reads and the
//! transitions that drive it: intake of a dropped file, dispatch of a
//! background load, draining of load-status messages, the two-state
//! redraw mode, persistent-label restoration, and asset URL joining.
//! The surrounding shell (window, panels, threads, storage) stays outside
//! and calls into these functions with plain values.

pub mod app;
pub mod imd;
pub mod persist;
pub mod status;
pub mod util;
