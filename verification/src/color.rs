use vstd::prelude::*;

verus! {

/// The bit pattern of the single-precision number 1.0.
pub const CHANNEL_ONE: u32 = 0x3F80_0000;

/// The bit pattern of the single-precision number 0.0.
pub const CHANNEL_ZERO: u32 = 0;

/// A colour of three channels.
///
/// Each channel holds the IEEE 754 bit pattern of a single-precision number
/// between 0.0 and 1.0, so that a colour is carried through the console
/// unchanged and compared bit for bit.
#[derive(Clone, Copy, Debug, PartialEq, Eq, Structural)]
pub struct RGB {
    pub r: u32,
    pub g: u32,
    pub b: u32,
}

impl RGB {
    /// Opaque white, the default foreground.
    pub open spec fn spec_white() -> RGB {
        RGB { r: CHANNEL_ONE, g: CHANNEL_ONE, b: CHANNEL_ONE }
    }

    /// Black, the default background.
    pub open spec fn spec_black() -> RGB {
        RGB { r: CHANNEL_ZERO, g: CHANNEL_ZERO, b: CHANNEL_ZERO }
    }

    /// A colour from the bit patterns of its three channels.
    pub fn from_bits(r: u32, g: u32, b: u32) -> (color: RGB)
        ensures
            color == (RGB { r, g, b }),
    {
        RGB { r, g, b }
    }

    #[verifier::when_used_as_spec(spec_white)]
    pub fn white() -> (color: RGB)
        ensures
            color == RGB::spec_white(),
    {
        RGB { r: CHANNEL_ONE, g: CHANNEL_ONE, b: CHANNEL_ONE }
    }

    #[verifier::when_used_as_spec(spec_black)]
    pub fn black() -> (color: RGB)
        ensures
            color == RGB::spec_black(),
    {
        RGB { r: CHANNEL_ZERO, g: CHANNEL_ZERO, b: CHANNEL_ZERO }
    }
}

} // verus!
