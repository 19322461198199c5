//! Byte counts and the two subtractions that quota accounting needs.

use vstd::prelude::*;

verus! {

/// A number of bytes, never negative.
#[derive(Debug, Clone, Copy, PartialEq, Eq, Structural)]
pub struct ByteCount(pub usize);

impl View for ByteCount {
    type V = int;

    open spec fn view(&self) -> int {
        self.0 as int
    }
}

impl ByteCount {
    /// `self - rhs`, or `None` where that would be negative.
    pub fn checked_sub(self, rhs: ByteCount) -> (r: Option<ByteCount>)
        ensures
            self@ >= rhs@ ==> r is Some && r->Some_0@ == self@ - rhs@,
            self@ < rhs@ ==> r is None,
    {
        if self.0 >= rhs.0 {
            Some(ByteCount(self.0 - rhs.0))
        } else {
            None
        }
    }

    /// `self - rhs`, or zero where that would be negative.
    pub fn saturating_sub(self, rhs: ByteCount) -> (r: ByteCount)
        ensures
            self@ >= rhs@ ==> r@ == self@ - rhs@,
            self@ < rhs@ ==> r@ == 0,
    {
        if self.0 >= rhs.0 {
            ByteCount(self.0 - rhs.0)
        } else {
            ByteCount(0)
        }
    }

    /// `self + rhs`, or `None` where the sum does not fit the machine word.
    pub fn checked_add(self, rhs: ByteCount) -> (r: Option<ByteCount>)
        ensures
            self@ + rhs@ <= usize::MAX ==> r is Some && r->Some_0@ == self@ + rhs@,
            self@ + rhs@ > usize::MAX ==> r is None,
    {
        if rhs.0 <= usize::MAX - self.0 {
            Some(ByteCount(self.0 + rhs.0))
        } else {
            None
        }
    }

    /// Adds `rhs` in place.
    pub fn add_assign(&mut self, rhs: ByteCount)
        requires
            old(self)@ + rhs@ <= usize::MAX,
        ensures
            final(self)@ == old(self)@ + rhs@,
    {
        self.0 = self.0 + rhs.0;
    }
}

} // verus!
