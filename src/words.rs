//! Conversions between byte counts and 32-bit word counts.
use vstd::prelude::*;

verus! {

/// Byte and word counts of the endpoint memory, which is laid out in 32-bit
/// words.
pub trait ExtU16: Sized {
    /// Whether the word count `self` has a byte count that fits in a `u16`.
    spec fn words_fit(self) -> bool;

    /// The number of whole words in `self` bytes.
    fn bytes_to_words(self) -> u16;

    /// The number of bytes in `self` words.
    fn words_to_bytes(self) -> u16
        requires
            self.words_fit(),
    ;
}

impl ExtU16 for u16 {
    open spec fn words_fit(self) -> bool {
        self <= 16383
    }

    fn bytes_to_words(self) -> (r: u16)
        ensures
            r == self / 4,
    {
        self / 4
    }

    fn words_to_bytes(self) -> (r: u16)
        ensures
            r == self * 4,
    {
        self * 4
    }
}

} // verus!
