//! Feature flags accepted by the sequencer's draw entry point.
//!
//! Only presence or absence of a flag is checked; no cross-flag validation
//! happens, and the layout engine currently treats every flag as an inert
//! pass-through (its output does not depend on them).

use vstd::prelude::*;

verus! {

/// No editing capability.
pub const EDIT_NONE: u32 = 0x01;

/// Allow editing item start/end bounds.
pub const EDIT_START_END: u32 = 0x02;

/// Allow changing the current frame.
pub const CHANGE_FRAME: u32 = 0x08;

/// Allow adding items.
pub const ADD: u32 = 0x10;

/// Allow deleting items.
pub const DELETE: u32 = 0x20;

/// Allow copy/paste of items.
pub const COPY_PASTE: u32 = 0x40;

/// A set of sequencer feature flags, packed as bits of a `u32`.
#[derive(Debug, Clone, Copy, PartialEq, Eq)]
pub struct SequencerOptions {
    pub bits: u32,
}

impl SequencerOptions {
    /// The empty flag set.
    pub fn empty() -> (r: Self)
        ensures
            r.bits == 0u32,
    {
        Self { bits: 0 }
    }

    /// A flag set holding exactly the given bits.
    pub fn from_bits(bits: u32) -> (r: Self)
        ensures
            r.bits == bits,
    {
        Self { bits }
    }

    /// Whether every bit of `mask` is present in this set.
    pub fn contains(self, mask: u32) -> (r: bool)
        ensures
            r == ((self.bits & mask) == mask),
    {
        (self.bits & mask) == mask
    }

    /// This set together with every bit of `mask`.
    pub fn with(self, mask: u32) -> (r: Self)
        ensures
            r.bits == (self.bits | mask),
    {
        Self { bits: self.bits | mask }
    }
}

} // verus!
