use vstd::prelude::*;

verus! {

/// The glyph of an empty cell.
pub const BLANK: u8 = 32;

/// Upper left corner of a box.
pub const BOX_TOP_LEFT: u8 = 218;

/// Upper right corner of a box.
pub const BOX_TOP_RIGHT: u8 = 191;

/// Lower left corner of a box.
pub const BOX_BOTTOM_LEFT: u8 = 192;

/// Lower right corner of a box.
pub const BOX_BOTTOM_RIGHT: u8 = 217;

/// Horizontal line of a box.
pub const BOX_HORIZONTAL: u8 = 196;

/// Vertical line of a box.
pub const BOX_VERTICAL: u8 = 179;

/// The filled part of a progress bar.
pub const BAR_FULL: u8 = 178;

/// The unfilled part of a progress bar.
pub const BAR_EMPTY: u8 = 176;

} // verus!
