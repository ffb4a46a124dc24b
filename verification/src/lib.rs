//! Keyboard layout indicator: the decisions of a small tray program that
//! shows the current keyboard layout (`EN`, `RU`, ...) in a large overlay
//! when the layout changes or a new typing session starts.
//!
//! The window system around it reports events (menu commands, timer ticks,
//! the sampled layout and key states) and carries out the returned actions.

pub mod geometry;
pub mod handles;
pub mod indicator;
pub mod keys;
pub mod laws;
pub mod layout;
pub mod menu;
pub mod state;
pub mod utf16;
pub mod version;

pub use indicator::IndicatorSize;
pub use layout::layout_to_indicator;
pub use utf16::{copy_utf16_z, to_utf16};
