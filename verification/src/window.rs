//! The two windows: the overlay that follows the cursor and the toolkit.

pub mod carousel;
pub mod idle;
pub mod toolkit;
pub mod tooltip;

