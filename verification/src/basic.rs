//! The read-side capability contract shared by every column variant:
//! length, logical type, nullability and memory accounting.

use crate::arcs::clone_arc;
use crate::bitmap::Bitmap;
use crate::bitmap::lemma_count_unset_bounds;
use crate::column::Column;
use crate::column::col_len;
use crate::column::col_null_at;
use crate::column::col_type;
use crate::column::col_well_formed;
use crate::column::cols_well_formed_prefix;
use crate::column::lemma_cols_well_formed_prefix;
use crate::types::DataType;
use crate::types::DataTypePtr;
use std::sync::Arc;
use vstd::prelude::*;
use vstd::string::StrSliceExecFns;

verus! {

broadcast use vstd::seq::group_seq_axioms, vstd::std_specs::vec::group_vec_axioms;

/// Caps a mathematical byte count at what a `usize` can hold.
pub open spec fn sat_usize(x: int) -> int {
    if x <= usize::MAX {
        x
    } else {
        usize::MAX as int
    }
}

/// Resident byte footprint of a column. A nullable column reports only its
/// inner column; a struct column reports the sum over its children.
pub open spec fn col_mem(c: Column) -> int
    decreases c, 0int, 0int,
{
    match c {
        Column::Boolean(p) => p.length as int,
        Column::Int8(p) => p.length as int,
        Column::Int16(p) => p.length * 2,
        Column::Int32(p) => p.length * 4,
        Column::Int64(p) => p.length * 8,
        Column::UInt8(p) => p.length as int,
        Column::UInt16(p) => p.length * 2,
        Column::UInt32(p) => p.length * 4,
        Column::UInt64(p) => p.length * 8,
        Column::String(s) => str_chars_sum(s.window(), s.window().len() as int),
        Column::Nullable(n) => col_mem(*n.column),
        Column::Struct(s) => {
            proof {
                assert(decreases_to!(s.values => s.values@));
            }
            col_mem_prefix(s.values@, s.values@.len() as int)
        },
        Column::Array(a) => (a.length + 1) * 8 + col_mem(*a.values),
    }
}

/// Total stored character count of the first `n` strings of `ss`.
pub open spec fn str_chars_sum(ss: Seq<String>, n: int) -> int
    decreases n,
{
    if n <= 0 {
        0
    } else {
        str_chars_sum(ss, n - 1) + ss[n - 1]@.len()
    }
}

/// Total byte footprint of the first `n` child columns of `vs`.
pub open spec fn col_mem_prefix(vs: Seq<crate::column::ColumnRef>, n: int) -> int
    decreases vs, 0int, n,
        when n <= vs.len()
{
    if n <= 0 {
        0
    } else {
        proof {
            assert(decreases_to!(vs => vs[n - 1]));
        }
        col_mem_prefix(vs, n - 1) + col_mem(*vs[n - 1])
    }
}

/// A column's byte footprint is never negative.
pub proof fn lemma_col_mem_nonneg(c: &Column)
    ensures
        col_mem(*c) >= 0,
    decreases *c, 1int, 0int,
{
    match c {
        Column::Nullable(n) => lemma_col_mem_nonneg(&n.column),
        Column::Struct(s) => lemma_col_mem_prefix_nonneg(s.values@, s.values@.len() as int),
        Column::Array(a) => lemma_col_mem_nonneg(&a.values),
        Column::String(s) => lemma_str_chars_sum_nonneg(s.window(), s.window().len() as int),
        _ => (),
    }
}

/// A string buffer's character total is never negative.
pub proof fn lemma_str_chars_sum_nonneg(ss: Seq<String>, n: int)
    ensures
        str_chars_sum(ss, n) >= 0,
    decreases n,
{
    if n > 0 {
        lemma_str_chars_sum_nonneg(ss, n - 1);
    }
}

/// A child prefix's byte total is never negative.
pub proof fn lemma_col_mem_prefix_nonneg(vs: Seq<crate::column::ColumnRef>, n: int)
    requires
        n <= vs.len(),
    ensures
        col_mem_prefix(vs, n) >= 0,
    decreases vs, 1int, n,
{
    if n > 0 {
        assert(decreases_to!(vs => vs[n - 1]));
        lemma_col_mem_prefix_nonneg(vs, n - 1);
        lemma_col_mem_nonneg(&vs[n - 1]);
    }
}

impl Column {
    /// Row count. Constant for the lifetime of the column.
    pub fn len(&self) -> (r: usize)
        requires
            col_well_formed(*self),
        ensures
            r == col_len(*self),
        decreases *self,
    {
        match self {
            Column::Boolean(p) => p.length,
            Column::Int8(p) => p.length,
            Column::Int16(p) => p.length,
            Column::Int32(p) => p.length,
            Column::Int64(p) => p.length,
            Column::UInt8(p) => p.length,
            Column::UInt16(p) => p.length,
            Column::UInt32(p) => p.length,
            Column::UInt64(p) => p.length,
            Column::String(s) => s.length,
            Column::Nullable(n) => n.column.len(),
            Column::Struct(s) => {
                proof {
                    lemma_cols_well_formed_prefix(s.values@, s.values@.len() as int);
                }
                s.values[0].len()
            },
            Column::Array(a) => a.length,
        }
    }

    /// This column's logical type; a nullable column wraps the inner
    /// column's type in `Nullable`.
    pub fn data_type(&self) -> (r: DataTypePtr)
        requires
            col_well_formed(*self),
        ensures
            (*r)@ == col_type(*self),
        decreases *self,
    {
        match self {
            Column::Boolean(_) => Arc::new(DataType::Boolean),
            Column::Int8(_) => Arc::new(DataType::Int8),
            Column::Int16(_) => Arc::new(DataType::Int16),
            Column::Int32(_) => Arc::new(DataType::Int32),
            Column::Int64(_) => Arc::new(DataType::Int64),
            Column::UInt8(_) => Arc::new(DataType::UInt8),
            Column::UInt16(_) => Arc::new(DataType::UInt16),
            Column::UInt32(_) => Arc::new(DataType::UInt32),
            Column::UInt64(_) => Arc::new(DataType::UInt64),
            Column::String(_) => Arc::new(DataType::String),
            Column::Nullable(n) => Arc::new(DataType::Nullable(n.column.data_type())),
            Column::Struct(s) => clone_arc(&s.data_type),
            Column::Array(a) => clone_arc(&a.data_type),
        }
    }

    /// True only for the nullable wrapper.
    pub fn is_nullable(&self) -> (r: bool)
        ensures
            r == (*self is Nullable),
    {
        match self {
            Column::Nullable(_) => true,
            _ => false,
        }
    }

    /// Whether row `row` is logically null. Only rows of a nullable column
    /// with a cleared validity bit are.
    pub fn null_at(&self, row: usize) -> (r: bool)
        requires
            col_well_formed(*self),
            row < col_len(*self),
        ensures
            r == col_null_at(*self, row as int),
    {
        match self {
            Column::Nullable(n) => !n.validity.get_bit(row),
            _ => false,
        }
    }

    /// Whether every row is null: the column is non-empty and each row of
    /// the nullable wrapper has a cleared validity bit.
    pub fn only_null(&self) -> (r: bool)
        requires
            col_well_formed(*self),
        ensures
            r == (col_len(*self) > 0 && (forall|i: int|
                0 <= i < col_len(*self) ==> col_null_at(*self, i))),
    {
        match self {
            Column::Nullable(n) => {
                proof {
                    lemma_count_unset_bounds(n.validity.bits(), n.validity.bits().len() as int);
                }
                let total = n.validity.len();
                let nulls = n.validity.null_count();
                let r = total > 0 && nulls == total;
                proof {
                    let bits = n.validity.bits();
                    if r {
                        assert forall|i: int| 0 <= i < col_len(*self) implies col_null_at(
                            *self,
                            i,
                        ) by {
                            assert(!bits[i]);
                        }
                    } else if total > 0 {
                        let w = choose|i: int| 0 <= i < bits.len() && bits[i];
                        assert(!col_null_at(*self, w));
                    }
                }
                r
            },
            _ => {
                let length = self.len();
                proof {
                    if length > 0 {
                        assert(!col_null_at(*self, 0));
                    }
                }
                false
            },
        }
    }

    /// The nullability overlay: whether the column is a constant null
    /// column (never, here), and the validity bitmap if there is one.
    pub fn validity(&self) -> (r: (bool, Option<&Bitmap>))
        ensures
            r.0 == false,
            match r.1 {
                Option::Some(b) => *self matches Column::Nullable(n) && b.bits()
                    == n.validity.bits(),
                Option::None => !(*self is Nullable),
            },
    {
        match self {
            Column::Nullable(n) => (false, Some(&n.validity)),
            _ => (false, None),
        }
    }

    /// Resident byte footprint, for memory accounting; saturates at what a
    /// `usize` can hold. Composite variants recurse into their children.
    #[verifier::loop_isolation(false)]
    #[verifier::rlimit(30)]
    pub fn memory_size(&self) -> (r: usize)
        requires
            col_well_formed(*self),
        ensures
            r == sat_usize(col_mem(*self)),
        decreases *self,
    {
        match self {
            Column::Boolean(p) => p.length,
            Column::Int8(p) => p.length,
            Column::Int16(p) => mul_sat(p.length, 2),
            Column::Int32(p) => mul_sat(p.length, 4),
            Column::Int64(p) => mul_sat(p.length, 8),
            Column::UInt8(p) => p.length,
            Column::UInt16(p) => mul_sat(p.length, 2),
            Column::UInt32(p) => mul_sat(p.length, 4),
            Column::UInt64(p) => mul_sat(p.length, 8),
            Column::String(s) => {
                let total: usize = s.values.len();
                proof {
                    assert(total == s.values@.len());
                }
                let mut sum: usize = 0;
                let mut i: usize = 0;
                while i < s.length
                    invariant
                        s.spec_well_formed(),
                        total == s.values@.len(),
                        0 <= i <= s.length,
                        sum == sat_usize(str_chars_sum(s.window(), i as int)),
                    decreases s.length - i,
                {
                    proof {
                        lemma_str_chars_sum_nonneg(s.window(), i as int);
                        assert(s.window()[i as int] == s.values@[s.offset + i]);
                    }
                    let element: &String = &s.values[s.offset + i];
                    proof {
                        assert(*element == s.values@[s.offset + i]);
                    }
                    let b = element.as_str().unicode_len();
                    sum = sum.saturating_add(b);
                    proof {
                        assert(str_chars_sum(s.window(), i + 1) == str_chars_sum(s.window(), i as int)
                            + s.window()[i as int]@.len());
                        assert(sum == sat_usize(str_chars_sum(s.window(), i + 1)));
                    }
                    i = i + 1;
                }
                sum
            },
            Column::Nullable(n) => n.column.memory_size(),
            Column::Struct(s) => {
                let count = s.values.len();
                let mut sum: usize = 0;
                let mut k: usize = 0;
                proof {
                    lemma_cols_well_formed_prefix(s.values@, s.values@.len() as int);
                }
                while k < count
                    invariant
                        count == s.values@.len(),
                        cols_well_formed_prefix(s.values@, count as int),
                        0 <= k <= count,
                        sum == sat_usize(col_mem_prefix(s.values@, k as int)),
                    decreases count - k,
                {
                    proof {
                        lemma_cols_well_formed_prefix(s.values@, count as int);
                        lemma_col_mem_prefix_nonneg(s.values@, k as int);
                        lemma_col_mem_nonneg(&s.values@[k as int]);
                        assert(*self == Column::Struct(*s));
                        assert(decreases_to!(*self => *s));
                        assert(decreases_to!(*s => s.values));
                        assert(decreases_to!(s.values => s.values@));
                        assert(decreases_to!(s.values@ => s.values@[k as int]));
                    }
                    let m = s.values[k].memory_size();
                    sum = sum.saturating_add(m);
                    k = k + 1;
                }
                sum
            },
            Column::Array(a) => {
                proof {
                    lemma_col_mem_nonneg(&a.values);
                }
                let header = mul_sat(a.length.saturating_add(1), 8);
                header.saturating_add(a.values.memory_size())
            },
        }
    }
}

/// Multiplies a length by a small element width, saturating at `usize`.
fn mul_sat(x: usize, w: usize) -> (r: usize)
    ensures
        r == sat_usize(x * w),
{
    match x.checked_mul(w) {
        Some(v) => v,
        None => usize::MAX,
    }
}

} // verus!
