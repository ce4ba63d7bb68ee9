//! Camera-facing values.
//!
//! The camera itself is a foreign library that only exists next to the
//! hardware; the values handed to it are defined here.

use vstd::prelude::*;

verus! {

/// How a grabbed image is flipped before it is handed over.
#[derive(Clone, Copy, Debug, PartialEq, Eq, Structural)]
pub enum FlipFlag {
    NoFlip,
    Vertical,
    Horizontal,
    Both,
}

impl FlipFlag {
    /// The numeric code the camera library expects.
    pub open spec fn spec_code(self) -> u8 {
        match self {
            FlipFlag::NoFlip => 0,
            FlipFlag::Vertical => 1,
            FlipFlag::Horizontal => 2,
            FlipFlag::Both => 3,
        }
    }

    /// The numeric code the camera library expects.
    pub fn code(&self) -> (r: u8)
        ensures
            r == self.spec_code(),
    {
        match self {
            FlipFlag::NoFlip => 0,
            FlipFlag::Vertical => 1,
            FlipFlag::Horizontal => 2,
            FlipFlag::Both => 3,
        }
    }
}

/// Default camera exposure time in microseconds, used when no
/// configuration file overrides it.
pub const DEFAULT_EXPOSURE_US: u32 = 4000;

} // verus!
