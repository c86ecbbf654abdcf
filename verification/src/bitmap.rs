//! Validity bitmaps: one bit per row, a cleared bit denotes a logical null.
//! Immutable bitmaps share their backing storage and slice by bookkeeping
//! alone; the mutable counterpart is an exclusive-owner builder.

use crate::arcs::clone_arc;
use std::sync::Arc;
use vstd::prelude::*;

verus! {

broadcast use vstd::seq::group_seq_axioms, vstd::std_specs::vec::group_vec_axioms;

/// An immutable window over a shared sequence of validity bits.
pub struct Bitmap {
    pub bits: Arc<Vec<bool>>,
    pub offset: usize,
    pub length: usize,
}

/// How many of the first `n` bits of `s` are cleared.
pub open spec fn count_unset(s: Seq<bool>, n: int) -> int
    decreases n,
{
    if n <= 0 {
        0
    } else {
        count_unset(s, n - 1) + if s[n - 1] {
            0int
        } else {
            1int
        }
    }
}

/// Each cleared bit counts once, so the count never exceeds the length.
pub proof fn lemma_count_unset_bounds(s: Seq<bool>, n: int)
    requires
        0 <= n <= s.len(),
    ensures
        0 <= count_unset(s, n) <= n,
        count_unset(s, n) == n <==> (forall|i: int| 0 <= i < n ==> !s[i]),
    decreases n,
{
    if n > 0 {
        lemma_count_unset_bounds(s, n - 1);
    }
}

impl Bitmap {
    /// The bits this window exposes.
    pub open spec fn bits(&self) -> Seq<bool> {
        self.bits@.subrange(self.offset as int, self.offset + self.length)
    }

    /// The window lies inside the backing storage.
    pub open spec fn well_formed(&self) -> bool {
        self.offset + self.length <= self.bits@.len()
    }

    /// Wraps a fully-owned bit vector as an immutable bitmap.
    pub fn from_data(bits: Vec<bool>) -> (r: Bitmap)
        ensures
            r.well_formed(),
            r.bits() == bits@,
    {
        let length = bits.len();
        let r = Bitmap { bits: Arc::new(bits), offset: 0, length };
        proof {
            assert(r.bits() =~= r.bits@);
        }
        r
    }

    /// Number of rows covered.
    pub fn len(&self) -> (r: usize)
        requires
            self.well_formed(),
        ensures
            r == self.bits().len(),
    {
        self.length
    }

    /// The validity bit at `row`; a cleared bit denotes null.
    pub fn get_bit(&self, row: usize) -> (r: bool)
        requires
            self.well_formed(),
            row < self.bits().len(),
        ensures
            r == self.bits()[row as int],
    {
        let total: usize = self.bits.len();
        proof {
            assert(total == self.bits@.len());
        }
        self.bits[self.offset + row]
    }

    /// How many bits are cleared, i.e. how many rows are null.
    pub fn null_count(&self) -> (r: usize)
        requires
            self.well_formed(),
        ensures
            r == count_unset(self.bits(), self.bits().len() as int),
    {
        let total: usize = self.bits.len();
        proof {
            assert(total == self.bits@.len());
        }
        let mut count: usize = 0;
        let mut i: usize = 0;
        while i < self.length
            invariant
                self.well_formed(),
                total == self.bits@.len(),
                0 <= i <= self.length,
                count == count_unset(self.bits(), i as int),
                count <= i,
            decreases self.length - i,
        {
            proof {
                lemma_count_unset_bounds(self.bits(), i as int);
            }
            if !self.bits[self.offset + i] {
                count = count + 1;
            }
            i = i + 1;
        }
        count
    }

    /// A zero-copy window over rows `[offset, offset + length)`: the backing
    /// storage is shared, only the bookkeeping changes.
    pub fn slice(&self, offset: usize, length: usize) -> (r: Bitmap)
        requires
            self.well_formed(),
            offset + length <= self.bits().len(),
        ensures
            r.well_formed(),
            r.bits() == self.bits().subrange(offset as int, offset + length),
    {
        let total: usize = self.bits.len();
        proof {
            assert(total == self.bits@.len());
        }
        let r = Bitmap { bits: clone_arc(&self.bits), offset: self.offset + offset, length };
        proof {
            assert(r.bits() =~= self.bits().subrange(offset as int, offset + length));
        }
        r
    }
}

impl Clone for Bitmap {
    /// The clone shares the backing storage and exposes the same bits.
    fn clone(&self) -> (r: Self)
        ensures
            r.bits() == self.bits(),
            r.well_formed() == self.well_formed(),
    {
        Bitmap { bits: clone_arc(&self.bits), offset: self.offset, length: self.length }
    }
}

/// The exclusive-owner builder for a validity bitmap.
pub struct MutableBitmap {
    pub bits: Vec<bool>,
}

impl MutableBitmap {
    /// The bits pushed so far.
    pub open spec fn bits(&self) -> Seq<bool> {
        self.bits@
    }

    /// An empty bitmap builder.
    pub fn with_capacity(capacity: usize) -> (r: MutableBitmap)
        ensures
            r.bits() == Seq::<bool>::empty(),
    {
        let _ = capacity;
        MutableBitmap { bits: Vec::new() }
    }

    /// Appends one bit.
    pub fn push(&mut self, bit: bool)
        ensures
            final(self).bits() == old(self).bits().push(bit),
    {
        self.bits.push(bit);
    }

    /// Appends `additional` copies of `bit`.
    pub fn extend_constant(&mut self, additional: usize, bit: bool)
        ensures
            final(self).bits() == old(self).bits() + Seq::new(additional as nat, |i: int| bit),
    {
        let mut i: usize = 0;
        while i < additional
            invariant
                0 <= i <= additional,
                self.bits() == old(self).bits() + Seq::new(i as nat, |j: int| bit),
            decreases additional - i,
        {
            proof {
                assert(old(self).bits() + Seq::new((i + 1) as nat, |j: int| bit) =~= (old(
                    self,
                ).bits() + Seq::new(i as nat, |j: int| bit)).push(bit));
            }
            self.bits.push(bit);
            i = i + 1;
        }
    }

    /// Freezes the builder into an immutable bitmap.
    pub fn freeze(self) -> (r: Bitmap)
        ensures
            r.well_formed(),
            r.bits() == self.bits(),
    {
        Bitmap::from_data(self.bits)
    }
}

} // verus!
