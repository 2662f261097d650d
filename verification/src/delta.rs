//! Size comparison between an original and a converted file.

use vstd::prelude::*;

verus! {

/// The measured sizes of one conversion: the input file's size and the
/// output file's size, in bytes.
#[derive(Clone, Copy, Debug, PartialEq, Eq, Structural)]
pub struct Delta {
    pub original: u64,
    pub new: u64,
}

impl Delta {
    pub fn new(original: u64, new: u64) -> (r: Self)
        ensures
            r.original == original,
            r.new == new,
    {
        Delta { original, new }
    }

    /// Whether the conversion did not grow the file.
    pub fn is_smaller(&self) -> (r: bool)
        ensures
            r == (self.original >= self.new),
    {
        self.original >= self.new
    }

    /// The absolute difference between the two sizes.
    pub fn difference(&self) -> (r: u64)
        ensures
            r == self.spec_difference(),
    {
        if self.original > self.new {
            self.original - self.new
        } else {
            self.new - self.original
        }
    }

    /// `|original - new|`, exactly.
    pub open spec fn spec_difference(self) -> u64 {
        if self.original > self.new {
            (self.original - self.new) as u64
        } else {
            (self.new - self.original) as u64
        }
    }
}

} // verus!
