//! Batch transformations: zero-copy slicing, row-wise replication and
//! materialization of views into fully independent columns.

use crate::arcs::clone_arc;
use crate::column::ArrayColumn;
use crate::column::Column;
use crate::column::ColumnRef;
use crate::column::NullableColumn;
use crate::column::PrimitiveColumn;
use crate::column::StringColumn;
use crate::column::StructColumn;
use crate::column::col_len;
use crate::column::col_null_at;
use crate::column::col_row_prefix;
use crate::column::col_type;
use crate::column::col_value_at;
use crate::column::col_well_formed;
use crate::column::lemma_col_row_prefix;
use crate::column::lemma_cols_well_formed_prefix;
use crate::column::lemma_offsets_monotone;
use std::sync::Arc;
use vstd::prelude::*;

verus! {

broadcast use vstd::seq::group_seq_axioms, vstd::std_specs::vec::group_vec_axioms;

impl Column {
    /// A new column over rows `[offset, offset + length)` of this one. The
    /// slice is zero-copy: backing buffers are shared and only bookkeeping
    /// is recomputed. The caller guarantees the range is in bounds.
    #[verifier::loop_isolation(false)]
    #[verifier::rlimit(100)]
    pub fn slice(&self, offset: usize, length: usize) -> (r: ColumnRef)
        requires
            col_well_formed(*self),
            offset + length <= col_len(*self),
        ensures
            col_well_formed(*r),
            col_len(*r) == length,
            col_type(*r) == col_type(*self),
            (*r is Nullable) == (*self is Nullable),
            forall|i: int|
                0 <= i < length ==> col_value_at(*r, i) == col_value_at(*self, offset + i),
            forall|i: int| 0 <= i < length ==> col_null_at(*r, i) == col_null_at(*self, offset + i),
        decreases *self,
    {
        match self {
            Column::Boolean(p) => Arc::new(Column::Boolean(p.slice(offset, length))),
            Column::Int8(p) => Arc::new(Column::Int8(p.slice(offset, length))),
            Column::Int16(p) => Arc::new(Column::Int16(p.slice(offset, length))),
            Column::Int32(p) => Arc::new(Column::Int32(p.slice(offset, length))),
            Column::Int64(p) => Arc::new(Column::Int64(p.slice(offset, length))),
            Column::UInt8(p) => Arc::new(Column::UInt8(p.slice(offset, length))),
            Column::UInt16(p) => Arc::new(Column::UInt16(p.slice(offset, length))),
            Column::UInt32(p) => Arc::new(Column::UInt32(p.slice(offset, length))),
            Column::UInt64(p) => Arc::new(Column::UInt64(p.slice(offset, length))),
            Column::String(s) => Arc::new(Column::String(s.slice(offset, length))),
            Column::Nullable(n) => {
                let column = n.column.slice(offset, length);
                let validity = n.validity.slice(offset, length);
                let r = Arc::new(Column::Nullable(NullableColumn { column, validity }));
                proof {
                    assert forall|i: int| 0 <= i < length implies col_value_at(*r, i)
                        == col_value_at(*self, offset + i) by {
                        assert(col_value_at(*r, i) == col_value_at(*column, i));
                        assert(col_value_at(*self, offset + i) == col_value_at(
                            *n.column,
                            offset + i,
                        ));
                    }
                    assert forall|i: int| 0 <= i < length implies col_null_at(*r, i)
                        == col_null_at(*self, offset + i) by {
                        assert(validity.bits()[i] == n.validity.bits()[offset + i]);
                    }
                }
                r
            },
            Column::Struct(s) => {
                let count = s.values.len();
                proof {
                    lemma_cols_well_formed_prefix(s.values@, count as int);
                }
                let mut children: Vec<ColumnRef> = Vec::new();
                let mut k: usize = 0;
                while k < count
                    invariant
                        0 <= k <= count,
                        children@.len() == k,
                        forall|m: int|
                            0 <= m < k ==> col_well_formed(#[trigger] *children@[m]),
                        forall|m: int|
                            0 <= m < k ==> col_len(#[trigger] *children@[m]) == length,
                        forall|m: int|
                            0 <= m < k ==> (forall|i: int|
                                0 <= i < length ==> col_value_at(#[trigger] *children@[m], i)
                                    == col_value_at(*s.values@[m], offset + i)),
                    decreases count - k,
                {
                    let child = s.values[k].slice(offset, length);
                    children.push(child);
                    k = k + 1;
                }
                let r = Arc::new(
                    Column::Struct(StructColumn { values: children, data_type: clone_arc(&s.data_type) }),
                );
                proof {
                    match &*r {
                        Column::Struct(rs) => {
                            lemma_cols_well_formed_prefix(rs.values@, count as int);
                            assert forall|i: int| 0 <= i < length implies col_value_at(*r, i)
                                == col_value_at(*self, offset + i) by {
                                lemma_col_row_prefix(rs.values@, i, count as int);
                                lemma_col_row_prefix(s.values@, offset + i, count as int);
                                assert forall|m: int| 0 <= m < count implies col_row_prefix(
                                    rs.values@,
                                    i,
                                    count as int,
                                )[m] == col_row_prefix(s.values@, offset + i, count as int)[m] by {
                                    assert(col_value_at(*rs.values@[m], i) == col_value_at(
                                        *s.values@[m],
                                        offset + i,
                                    ));
                                }
                                assert(col_row_prefix(rs.values@, i, count as int)
                                    =~= col_row_prefix(s.values@, offset + i, count as int));
                            }
                        },
                        _ => (),
                    }
                }
                r
            },
            Column::Array(a) => {
                let on: usize = a.offsets.len();
                proof {
                    assert(on == a.offsets@.len());
                    lemma_offsets_monotone(
                        a.offsets@,
                        a.start as int,
                        a.start + a.length,
                        a.start as int,
                        a.start + offset,
                    );
                    lemma_offsets_monotone(
                        a.offsets@,
                        a.start as int,
                        a.start + a.length,
                        a.start + offset + length,
                        a.start + a.length,
                    );
                }
                Arc::new(
                    Column::Array(
                        ArrayColumn {
                            data_type: clone_arc(&a.data_type),
                            offsets: clone_arc(&a.offsets),
                            start: a.start + offset,
                            length,
                            values: clone_arc(&a.values),
                        },
                    ),
                )
            },
        }
    }

    /// Materializes a column that may be a shared or sliced view into a
    /// fully independent, densely stored column holding the same values.
    #[verifier::loop_isolation(false)]
    #[verifier::rlimit(100)]
    pub fn convert_full_column(&self) -> (r: ColumnRef)
        requires
            col_well_formed(*self),
        ensures
            col_well_formed(*r),
            col_len(*r) == col_len(*self),
            col_type(*r) == col_type(*self),
            (*r is Nullable) == (*self is Nullable),
            forall|i: int|
                0 <= i < col_len(*self) ==> col_value_at(*r, i) == col_value_at(*self, i),
            forall|i: int|
                0 <= i < col_len(*self) ==> col_null_at(*r, i) == col_null_at(*self, i),
        decreases *self,
    {
        match self {
            Column::Boolean(p) => Arc::new(Column::Boolean(materialize(p))),
            Column::Int8(p) => Arc::new(Column::Int8(materialize(p))),
            Column::Int16(p) => Arc::new(Column::Int16(materialize(p))),
            Column::Int32(p) => Arc::new(Column::Int32(materialize(p))),
            Column::Int64(p) => Arc::new(Column::Int64(materialize(p))),
            Column::UInt8(p) => Arc::new(Column::UInt8(materialize(p))),
            Column::UInt16(p) => Arc::new(Column::UInt16(materialize(p))),
            Column::UInt32(p) => Arc::new(Column::UInt32(materialize(p))),
            Column::UInt64(p) => Arc::new(Column::UInt64(materialize(p))),
            Column::String(s) => Arc::new(Column::String(materialize_strings(s))),
            Column::Nullable(n) => {
                let column = n.column.convert_full_column();
                let validity = n.validity.clone();
                let r = Arc::new(Column::Nullable(NullableColumn { column, validity }));
                proof {
                    assert forall|i: int| 0 <= i < col_len(*self) implies col_value_at(*r, i)
                        == col_value_at(*self, i) by {
                        assert(col_value_at(*r, i) == col_value_at(*column, i));
                        assert(col_value_at(*self, i) == col_value_at(*n.column, i));
                    }
                }
                r
            },
            Column::Struct(s) => {
                let count = s.values.len();
                let mut children: Vec<ColumnRef> = Vec::new();
                let mut k: usize = 0;
                while k < count
                    invariant
                        0 <= k <= count,
                        children@.len() == k,
                        forall|m: int| 0 <= m < k ==> children@[m] == s.values@[m],
                    decreases count - k,
                {
                    children.push(clone_arc(&s.values[k]));
                    k = k + 1;
                }
                proof {
                    assert(children@ =~= s.values@);
                }
                Arc::new(
                    Column::Struct(StructColumn { values: children, data_type: clone_arc(&s.data_type) }),
                )
            },
            Column::Array(a) => Arc::new(
                Column::Array(
                    ArrayColumn {
                        data_type: clone_arc(&a.data_type),
                        offsets: clone_arc(&a.offsets),
                        start: a.start,
                        length: a.length,
                        values: clone_arc(&a.values),
                    },
                ),
            ),
        }
    }
}

/// Copies the window of a primitive column into fresh, dense storage.
#[verifier::loop_isolation(false)]
fn materialize<T: Copy>(p: &PrimitiveColumn<T>) -> (r: PrimitiveColumn<T>)
    requires
        p.spec_well_formed(),
    ensures
        r.spec_well_formed(),
        r.window() == p.window(),
        r.length == p.length,
{
    let mut out: Vec<T> = Vec::new();
    let mut i: usize = 0;
    while i < p.length
        invariant
            0 <= i <= p.length,
            out@ == p.window().subrange(0, i as int),
        decreases p.length - i,
    {
        out.push(p.value(i));
        proof {
            assert(out@ =~= p.window().subrange(0, i + 1));
        }
        i = i + 1;
    }
    proof {
        assert(out@ =~= p.window());
    }
    PrimitiveColumn::from_vec(out)
}

/// Copies the window of a string column into fresh, dense storage.
#[verifier::loop_isolation(false)]
fn materialize_strings(s: &StringColumn) -> (r: StringColumn)
    requires
        s.spec_well_formed(),
    ensures
        r.spec_well_formed(),
        r.window() == s.window(),
        r.length == s.length,
{
    let mut out: Vec<String> = Vec::new();
    let mut i: usize = 0;
    while i < s.length
        invariant
            0 <= i <= s.length,
            out@ == s.window().subrange(0, i as int),
        decreases s.length - i,
    {
        out.push(s.value(i).clone());
        proof {
            assert(out@ =~= s.window().subrange(0, i + 1));
        }
        i = i + 1;
    }
    proof {
        assert(out@ =~= s.window());
    }
    StringColumn::from_vec(out)
}

} // verus!
