//! Chip-select modes of the auxiliary SPI.  Only variable mode is
//! supported: each FIFO entry self-describes its shift length and drives
//! chip select for exactly that burst.

use vstd::prelude::*;

verus! {

/// A chip-select mode, carrying the bits it sets in the first control
/// register.
pub trait Mode {
    /// The control-register bits of this mode.
    spec fn spec_config_mask() -> u32;

    /// The control-register bits of this mode.
    fn config_mask() -> (r: u32)
        ensures
            r == Self::spec_config_mask(),
    ;
}

/// Variable mode: entries carry their own shift count and chip-select
/// burst.
pub struct Variable;

impl Mode for Variable {
    /// Turns on both the variable-length and variable-CS bits.
    open spec fn spec_config_mask() -> u32 {
        0b11u32 << 14
    }

    fn config_mask() -> u32 {
        0b11u32 << 14
    }
}

} // verus!
