//! Byte counts rendered for display in binary units.

use vstd::prelude::*;

use crate::text::{gib_string, gib_text, kib_string, kib_text, pad_left, push_left_padded};

verus! {

/// A byte count shown as a number of gibibytes with one decimal place.
#[derive(Debug, Clone, Copy, PartialEq, Eq, Structural)]
pub struct ByteSizeDisplayGiB(pub u64);

/// A byte count shown as a whole number of kibibytes.
#[derive(Debug, Clone, Copy, PartialEq, Eq, Structural)]
pub struct ByteSizeDisplayKiB(pub u64);

impl ByteSizeDisplayGiB {
    /// The count in gibibytes, as `1.5`.
    pub fn to_string(&self) -> (r: String)
        ensures
            r@ == gib_text(self.0 as nat),
    {
        gib_string(self.0 as u128)
    }

    /// The count in gibibytes, right-aligned in a column of `width`.
    pub fn to_string_width(&self, width: usize) -> (r: String)
        ensures
            r@ == pad_left(gib_text(self.0 as nat), width as nat),
    {
        let text = gib_string(self.0 as u128);
        let mut r = String::new();
        push_left_padded(&mut r, text.as_str(), width);
        assert(r@ =~= pad_left(gib_text(self.0 as nat), width as nat));
        r
    }
}

impl ByteSizeDisplayKiB {
    /// The count in whole kibibytes, rounded down.
    pub fn to_string(&self) -> (r: String)
        ensures
            r@ == kib_text(self.0 as nat),
    {
        kib_string(self.0)
    }

    /// The count in whole kibibytes, right-aligned in a column of `width`.
    pub fn to_string_width(&self, width: usize) -> (r: String)
        ensures
            r@ == pad_left(kib_text(self.0 as nat), width as nat),
    {
        let text = kib_string(self.0);
        let mut r = String::new();
        push_left_padded(&mut r, text.as_str(), width);
        assert(r@ =~= pad_left(kib_text(self.0 as nat), width as nat));
        r
    }
}

} // verus!
