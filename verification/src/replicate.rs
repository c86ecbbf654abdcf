//! Row-wise replication: row `i` of the source is repeated
//! `offsets[i] - offsets[i-1]` times, in original order.

use crate::arcs::clone_arc;
use crate::bitmap::Bitmap;
use crate::bitmap::MutableBitmap;
use crate::column::ArrayColumn;
use crate::column::Column;
use crate::column::ColumnRef;
use crate::column::NullableColumn;
use crate::column::PrimitiveColumn;
use crate::column::StringColumn;
use crate::column::StructColumn;
use crate::column::col_len;
use crate::column::col_null_at;
use crate::column::col_row_prefix;
use crate::column::col_type;
use crate::column::col_value_at;
use crate::column::col_well_formed;
use crate::column::lemma_col_row_prefix;
use crate::column::lemma_cols_well_formed_prefix;
use std::sync::Arc;
use vstd::prelude::*;

verus! {

broadcast use vstd::seq::group_seq_axioms, vstd::std_specs::vec::group_vec_axioms;

/// The start of row `i`'s run in a replicated column: the previous
/// cumulative count, with zero before the first row.
pub open spec fn off_prev(offs: Seq<usize>, i: int) -> int {
    if i <= 0 {
        0
    } else {
        offs[i - 1] as int
    }
}

/// Whether a cumulative repeat-count sequence never decreases.
pub open spec fn offs_nondecreasing(offs: Seq<usize>) -> bool {
    forall|k: int| 0 <= k < offs.len() - 1 ==> #[trigger] offs[k] <= offs[k + 1]
}

/// Non-decreasing counts are ordered across any span.
pub proof fn lemma_offs_nondecreasing(offs: Seq<usize>, i: int, j: int)
    requires
        offs_nondecreasing(offs),
        0 <= i <= j < offs.len(),
    ensures
        offs[i] <= offs[j],
    decreases j - i,
{
    if i < j {
        lemma_offs_nondecreasing(offs, i, j - 1);
    }
}

/// Whether a column supports replication: array columns, at any nesting
/// depth, do not.
pub open spec fn col_replicable(c: Column) -> bool
    decreases c, 0int, 0int,
{
    match c {
        Column::Array(_) => false,
        Column::Nullable(n) => col_replicable(*n.column),
        Column::Struct(s) => {
            proof {
                assert(decreases_to!(s.values => s.values@));
            }
            cols_replicable_prefix(s.values@, s.values@.len() as int)
        },
        _ => true,
    }
}

/// Whether the first `n` child columns all support replication.
pub open spec fn cols_replicable_prefix(vs: Seq<ColumnRef>, n: int) -> bool
    decreases vs, 0int, n,
        when n <= vs.len()
{
    if n <= 0 {
        true
    } else {
        proof {
            assert(decreases_to!(vs => vs[n - 1]));
        }
        cols_replicable_prefix(vs, n - 1) && col_replicable(*vs[n - 1])
    }
}

/// Replicability of a child prefix means each child is replicable.
pub proof fn lemma_cols_replicable_prefix(vs: Seq<ColumnRef>, n: int)
    requires
        0 <= n <= vs.len(),
    ensures
        cols_replicable_prefix(vs, n) <==> (forall|k: int|
            0 <= k < n ==> col_replicable(#[trigger] *vs[k])),
    decreases n,
{
    if n > 0 {
        lemma_cols_replicable_prefix(vs, n - 1);
    }
}

/// What it means for `out` to replicate `src` under `offs`: the output has
/// `offs.last()` rows and row `i` of the source fills positions
/// `[off_prev(offs, i), offs[i])` of the output.
pub open spec fn replicated<T>(out: Seq<T>, src: Seq<T>, offs: Seq<usize>) -> bool {
    &&& out.len() == offs[offs.len() - 1]
    &&& forall|i: int, j: int|
        #![trigger out[j], src[i]]
        0 <= i < offs.len() && off_prev(offs, i) <= j < offs[i] ==> out[j] == src[i]
}

/// Replicates the window of a primitive or string column buffer.
#[verifier::loop_isolation(false)]
#[verifier::rlimit(60)]
fn replicate_values<T: Copy>(src: &Vec<T>, offset: usize, length: usize, offsets: &[usize]) -> (out:
    Vec<T>)
    requires
        offset + length <= src@.len(),
        offsets@.len() == length,
        length > 0,
        offs_nondecreasing(offsets@),
    ensures
        replicated(out@, src@.subrange(offset as int, offset + length), offsets@),
{
    let ghost window = src@.subrange(offset as int, offset + length);
    let total: usize = src.len();
    proof {
        assert(total == src@.len());
    }
    let mut out: Vec<T> = Vec::new();
    let mut i: usize = 0;
    while i < length
        invariant
            0 <= i <= length,
            out@.len() == off_prev(offsets@, i as int),
            forall|m: int, j: int|
                #![trigger out@[j], window[m]]
                0 <= m < i && off_prev(offsets@, m) <= j < offsets@[m] ==> out@[j] == window[m],
        decreases length - i,
    {
        let end = offsets[i];
        let v = src[offset + i];
        proof {
            if i > 0 {
                assert(offsets@[i - 1] <= offsets@[i as int]);
            }
            assert forall|m: int| 0 <= m < i implies offsets@[m] <= off_prev(
                offsets@,
                i as int,
            ) by {
                lemma_offs_nondecreasing(offsets@, m, i - 1);
            }
        }
        while out.len() < end
            invariant
                off_prev(offsets@, i as int) <= out@.len() <= end,
                end == offsets@[i as int],
                v == window[i as int],
                forall|m: int, j: int|
                    #![trigger out@[j], window[m]]
                    0 <= m < i && off_prev(offsets@, m) <= j < offsets@[m] ==> out@[j] == window[m],
                forall|j: int|
                    off_prev(offsets@, i as int) <= j < out@.len() ==> #[trigger] out@[j]
                        == window[i as int],
            decreases end - out@.len(),
        {
            out.push(v);
        }
        i = i + 1;
    }
    out
}

/// Replicates the window of a string column buffer.
#[verifier::loop_isolation(false)]
#[verifier::rlimit(60)]
fn replicate_string_values(src: &Vec<String>, offset: usize, length: usize, offsets: &[usize]) -> (
    out: Vec<String>)
    requires
        offset + length <= src@.len(),
        offsets@.len() == length,
        length > 0,
        offs_nondecreasing(offsets@),
    ensures
        replicated(out@, src@.subrange(offset as int, offset + length), offsets@),
{
    let ghost window = src@.subrange(offset as int, offset + length);
    let total: usize = src.len();
    proof {
        assert(total == src@.len());
    }
    let mut out: Vec<String> = Vec::new();
    let mut i: usize = 0;
    while i < length
        invariant
            0 <= i <= length,
            out@.len() == off_prev(offsets@, i as int),
            forall|m: int, j: int|
                #![trigger out@[j], window[m]]
                0 <= m < i && off_prev(offsets@, m) <= j < offsets@[m] ==> out@[j] == window[m],
        decreases length - i,
    {
        let end = offsets[i];
        proof {
            if i > 0 {
                assert(offsets@[i - 1] <= offsets@[i as int]);
            }
            assert forall|m: int| 0 <= m < i implies offsets@[m] <= off_prev(
                offsets@,
                i as int,
            ) by {
                lemma_offs_nondecreasing(offsets@, m, i - 1);
            }
        }
        while out.len() < end
            invariant
                off_prev(offsets@, i as int) <= out@.len() <= end,
                end == offsets@[i as int],
                forall|m: int, j: int|
                    #![trigger out@[j], window[m]]
                    0 <= m < i && off_prev(offsets@, m) <= j < offsets@[m] ==> out@[j] == window[m],
                forall|j: int|
                    off_prev(offsets@, i as int) <= j < out@.len() ==> #[trigger] out@[j]
                        == window[i as int],
            decreases end - out@.len(),
        {
            let v = src[offset + i].clone();
            out.push(v);
        }
        i = i + 1;
    }
    out
}

impl Column {
    /// Row-wise repetition: `offsets` holds one cumulative repeat count per
    /// row, so row `i` appears `offsets[i] - offsets[i-1]` times,
    /// contiguously and in original order; the result has `offsets.last()`
    /// rows. The counts must not decrease and must cover every row of a
    /// non-empty column; array columns do not support replication.
    #[verifier::loop_isolation(false)]
    #[verifier::rlimit(100)]
    pub fn replicate(&self, offsets: &[usize]) -> (r: ColumnRef)
        requires
            col_well_formed(*self),
            col_replicable(*self),
            offsets@.len() == col_len(*self),
            col_len(*self) > 0,
            offs_nondecreasing(offsets@),
        ensures
            col_well_formed(*r),
            (*r is Nullable) == (*self is Nullable),
            col_type(*r) == col_type(*self),
            col_len(*r) == offsets@[offsets@.len() - 1],
            forall|i: int, j: int|
                #![trigger col_value_at(*r, j), col_value_at(*self, i)]
                0 <= i < col_len(*self) && off_prev(offsets@, i) <= j < offsets@[i]
                    ==> col_value_at(*r, j) == col_value_at(*self, i) && col_null_at(*r, j)
                    == col_null_at(*self, i),
        decreases *self, 1int,
    {
        match self {
            Column::Boolean(p) => {
                let out = replicate_values(&p.values, p.offset, p.length, offsets);
                let r = Arc::new(Column::Boolean(PrimitiveColumn::from_vec(out)));
                proof {
                    lemma_rep_segment(offsets@);
                }
                r
            },
            Column::Int8(p) => {
                let out = replicate_values(&p.values, p.offset, p.length, offsets);
                let r = Arc::new(Column::Int8(PrimitiveColumn::from_vec(out)));
                proof {
                    lemma_rep_segment(offsets@);
                }
                r
            },
            Column::Int16(p) => {
                let out = replicate_values(&p.values, p.offset, p.length, offsets);
                let r = Arc::new(Column::Int16(PrimitiveColumn::from_vec(out)));
                proof {
                    lemma_rep_segment(offsets@);
                }
                r
            },
            Column::Int32(p) => {
                let out = replicate_values(&p.values, p.offset, p.length, offsets);
                let r = Arc::new(Column::Int32(PrimitiveColumn::from_vec(out)));
                proof {
                    lemma_rep_segment(offsets@);
                }
                r
            },
            Column::Int64(p) => {
                let out = replicate_values(&p.values, p.offset, p.length, offsets);
                let r = Arc::new(Column::Int64(PrimitiveColumn::from_vec(out)));
                proof {
                    lemma_rep_segment(offsets@);
                }
                r
            },
            Column::UInt8(p) => {
                let out = replicate_values(&p.values, p.offset, p.length, offsets);
                let r = Arc::new(Column::UInt8(PrimitiveColumn::from_vec(out)));
                proof {
                    lemma_rep_segment(offsets@);
                }
                r
            },
            Column::UInt16(p) => {
                let out = replicate_values(&p.values, p.offset, p.length, offsets);
                let r = Arc::new(Column::UInt16(PrimitiveColumn::from_vec(out)));
                proof {
                    lemma_rep_segment(offsets@);
                }
                r
            },
            Column::UInt32(p) => {
                let out = replicate_values(&p.values, p.offset, p.length, offsets);
                let r = Arc::new(Column::UInt32(PrimitiveColumn::from_vec(out)));
                proof {
                    lemma_rep_segment(offsets@);
                }
                r
            },
            Column::UInt64(p) => {
                let out = replicate_values(&p.values, p.offset, p.length, offsets);
                let r = Arc::new(Column::UInt64(PrimitiveColumn::from_vec(out)));
                proof {
                    lemma_rep_segment(offsets@);
                }
                r
            },
            Column::String(s) => {
                let out = replicate_string_values(&s.values, s.offset, s.length, offsets);
                let r = Arc::new(Column::String(StringColumn::from_vec(out)));
                proof {
                    lemma_rep_segment(offsets@);
                }
                r
            },
            Column::Nullable(n) => replicate_nullable(n, offsets),
            Column::Struct(s) => replicate_struct(s, offsets),
            Column::Array(a) => {
                proof {
                    assert(false);
                }
                Arc::new(
                    Column::Array(
                        ArrayColumn {
                            data_type: clone_arc(&a.data_type),
                            offsets: clone_arc(&a.offsets),
                            start: a.start,
                            length: a.length,
                            values: clone_arc(&a.values),
                        },
                    ),
                )
            },
        }
    }
}


/// Replicates a nullable column: the inner column and the validity bitmap
/// are replicated by the same counts.
#[verifier::loop_isolation(false)]
#[verifier::rlimit(100)]
fn replicate_nullable(n: &NullableColumn, offsets: &[usize]) -> (r: ColumnRef)
    requires
        col_well_formed(Column::Nullable(*n)),
        col_replicable(Column::Nullable(*n)),
        offsets@.len() == col_len(Column::Nullable(*n)),
        col_len(Column::Nullable(*n)) > 0,
        offs_nondecreasing(offsets@),
    ensures
        col_well_formed(*r),
        *r is Nullable,
        col_type(*r) == col_type(Column::Nullable(*n)),
        col_len(*r) == offsets@[offsets@.len() - 1],
        forall|i: int, j: int|
            #![trigger col_value_at(*r, j), col_value_at(Column::Nullable(*n), i)]
            0 <= i < col_len(Column::Nullable(*n)) && off_prev(offsets@, i) <= j < offsets@[i]
                ==> col_value_at(*r, j) == col_value_at(Column::Nullable(*n), i) && col_null_at(
                *r,
                j,
            ) == col_null_at(Column::Nullable(*n), i),
    decreases Column::Nullable(*n), 0int,
{
    let ghost whole = Column::Nullable(*n);
    let column = n.column.replicate(offsets);
    let validity = replicate_bits(&n.validity, offsets);
    let r = Arc::new(Column::Nullable(NullableColumn { column, validity }));
    proof {
        lemma_rep_segment(offsets@);
        assert forall|i2: int, j: int|
            #![trigger col_value_at(*r, j), col_value_at(whole, i2)]
            0 <= i2 < col_len(whole) && off_prev(offsets@, i2) <= j < offsets@[i2]
                implies col_value_at(*r, j) == col_value_at(whole, i2) && col_null_at(*r, j)
            == col_null_at(whole, i2) by {
            assert(col_value_at(*r, j) == col_value_at(*column, j));
            assert(col_value_at(whole, i2) == col_value_at(*n.column, i2));
            assert(validity.bits()[j] == n.validity.bits()[i2]);
        }
    }
    r
}

/// Replicates a validity bitmap: the bit of each source row is repeated as
/// many times as the row itself.
#[verifier::loop_isolation(false)]
#[verifier::rlimit(100)]
fn replicate_bits(v: &Bitmap, offsets: &[usize]) -> (r: Bitmap)
    requires
        v.well_formed(),
        offsets@.len() == v.bits().len(),
        v.bits().len() > 0,
        offs_nondecreasing(offsets@),
    ensures
        r.well_formed(),
        r.bits().len() == offsets@[offsets@.len() - 1],
        forall|i: int, j: int|
            #![trigger r.bits()[j], v.bits()[i]]
            0 <= i < offsets@.len() && off_prev(offsets@, i) <= j < offsets@[i] ==> r.bits()[j]
                == v.bits()[i],
{
    let capacity = offsets[offsets.len() - 1];
    let mut bitmap = MutableBitmap::with_capacity(capacity);
    let mut previous_offset: usize = 0;
    let mut i: usize = 0;
    while i < offsets.len()
        invariant
            0 <= i <= offsets@.len(),
            previous_offset == off_prev(offsets@, i as int),
            bitmap.bits().len() == previous_offset,
            forall|m: int, j: int|
                #![trigger bitmap.bits()[j], v.bits()[m]]
                0 <= m < i && off_prev(offsets@, m) <= j < offsets@[m] ==> bitmap.bits()[j]
                    == v.bits()[m],
        decreases offsets@.len() - i,
    {
        let off = offsets[i];
        let bit = v.get_bit(i);
        proof {
            if i > 0 {
                assert(offsets@[i - 1] <= offsets@[i as int]);
            }
            assert forall|m: int| 0 <= m < i implies offsets@[m] <= off_prev(
                offsets@,
                i as int,
            ) by {
                lemma_offs_nondecreasing(offsets@, m, i - 1);
            }
        }
        bitmap.extend_constant(off - previous_offset, bit);
        previous_offset = off;
        i = i + 1;
    }
    bitmap.freeze()
}

/// Replicates a struct column: every child is replicated identically so the
/// children remain equal-length.
#[verifier::loop_isolation(false)]
#[verifier::rlimit(100)]
fn replicate_struct(s: &StructColumn, offsets: &[usize]) -> (r: ColumnRef)
    requires
        col_well_formed(Column::Struct(*s)),
        col_replicable(Column::Struct(*s)),
        offsets@.len() == col_len(Column::Struct(*s)),
        col_len(Column::Struct(*s)) > 0,
        offs_nondecreasing(offsets@),
    ensures
        col_well_formed(*r),
        !(*r is Nullable),
        col_type(*r) == col_type(Column::Struct(*s)),
        col_len(*r) == offsets@[offsets@.len() - 1],
        forall|i: int, j: int|
            #![trigger col_value_at(*r, j), col_value_at(Column::Struct(*s), i)]
            0 <= i < col_len(Column::Struct(*s)) && off_prev(offsets@, i) <= j < offsets@[i]
                ==> col_value_at(*r, j) == col_value_at(Column::Struct(*s), i) && col_null_at(
                *r,
                j,
            ) == col_null_at(Column::Struct(*s), i),
    decreases Column::Struct(*s), 0int,
{
    let ghost whole = Column::Struct(*s);
    let count = s.values.len();
    proof {
        lemma_cols_well_formed_prefix(s.values@, count as int);
        lemma_cols_replicable_prefix(s.values@, count as int);
    }
    let mut children: Vec<ColumnRef> = Vec::new();
    let mut k: usize = 0;
    while k < count
        invariant
            0 <= k <= count,
            children@.len() == k,
            forall|m: int| 0 <= m < k ==> col_well_formed(#[trigger] *children@[m]),
            forall|m: int|
                0 <= m < k ==> col_len(#[trigger] *children@[m]) == offsets@[offsets@.len() - 1],
            forall|m: int, i2: int, j: int|
                #![trigger col_value_at(*children@[m], j), col_value_at(*s.values@[m], i2)]
                0 <= m < k && 0 <= i2 < col_len(whole) && off_prev(offsets@, i2) <= j
                    < offsets@[i2] ==> col_value_at(*children@[m], j)
                    == col_value_at(*s.values@[m], i2),
        decreases count - k,
    {
        proof {
            assert(col_len(*s.values@[k as int]) == col_len(whole));
        }
        let child = s.values[k].replicate(offsets);
        children.push(child);
        k = k + 1;
    }
    let r = Arc::new(
        Column::Struct(
            StructColumn { values: children, data_type: clone_arc(&s.data_type) },
        ),
    );
    proof {
        lemma_rep_segment(offsets@);
        match &*r {
            Column::Struct(rs) => {
                lemma_cols_well_formed_prefix(rs.values@, count as int);
                assert forall|i2: int, j: int|
                    #![trigger col_value_at(*r, j), col_value_at(whole, i2)]
                    0 <= i2 < col_len(whole) && off_prev(offsets@, i2) <= j
                        < offsets@[i2] implies col_value_at(*r, j) == col_value_at(
                    whole,
                    i2,
                ) && col_null_at(*r, j) == col_null_at(whole, i2) by {
                    lemma_col_row_prefix(rs.values@, j, count as int);
                    lemma_col_row_prefix(s.values@, i2, count as int);
                    assert forall|m: int| 0 <= m < count implies col_row_prefix(
                        rs.values@,
                        j,
                        count as int,
                    )[m] == col_row_prefix(s.values@, i2, count as int)[m] by {
                        assert(col_value_at(*rs.values@[m], j) == col_value_at(
                            *s.values@[m],
                            i2,
                        ));
                    }
                    assert(col_row_prefix(rs.values@, j, count as int)
                        =~= col_row_prefix(s.values@, i2, count as int));
                }
            },
            _ => (),
        }
    }
    r
            
}

/// A row's run always ends by the final cumulative count.
pub proof fn lemma_rep_segment(offs: Seq<usize>)
    requires
        offs_nondecreasing(offs),
        offs.len() > 0,
    ensures
        forall|i: int| 0 <= i < offs.len() ==> #[trigger] offs[i] <= offs[offs.len() - 1],
        forall|i: int| 0 <= i < offs.len() ==> off_prev(offs, i) <= offs[i],
{
    assert forall|i: int| 0 <= i < offs.len() implies #[trigger] offs[i] <= offs[offs.len()
        - 1] by {
        lemma_offs_nondecreasing(offs, i, offs.len() - 1);
    }
}

} // verus!
