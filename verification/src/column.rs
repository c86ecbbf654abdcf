//! The column capability contract and its concrete variants: an immutable,
//! reference-counted batch of logical values of one data type, with
//! zero-copy slicing and row-wise replication.

use crate::arcs::clone_arc;
use crate::bitmap::Bitmap;
use crate::types::DataType;
use crate::types::DataTypePtr;
use crate::types::TypeModel;
use crate::types::type_model;
use crate::value::ValueModel;
use std::sync::Arc;
use vstd::prelude::*;

verus! {

broadcast use vstd::seq::group_seq_axioms, vstd::std_specs::vec::group_vec_axioms;

/// Shared handle to an immutable column.
pub type ColumnRef = Arc<Column>;

/// A window over a shared buffer of fixed-width values.
pub struct PrimitiveColumn<T> {
    pub values: Arc<Vec<T>>,
    pub offset: usize,
    pub length: usize,
}

/// A window over a shared buffer of string values.
pub struct StringColumn {
    pub values: Arc<Vec<String>>,
    pub offset: usize,
    pub length: usize,
}

/// One inner column plus a validity bitmap of identical length.
pub struct NullableColumn {
    pub column: ColumnRef,
    pub validity: Bitmap,
}

/// An ordered sequence of equal-length child columns, one per field of the
/// associated struct data type.
pub struct StructColumn {
    pub values: Vec<ColumnRef>,
    pub data_type: DataTypePtr,
}

/// One variable-length list per row, stored as a window over a shared
/// cumulative offsets buffer delimiting runs in a flat child column.
pub struct ArrayColumn {
    pub data_type: DataTypePtr,
    pub offsets: Arc<Vec<i64>>,
    pub start: usize,
    pub length: usize,
    pub values: ColumnRef,
}

/// An immutable batch of `len()` logical values of one data type.
pub enum Column {
    Boolean(PrimitiveColumn<bool>),
    Int8(PrimitiveColumn<i8>),
    Int16(PrimitiveColumn<i16>),
    Int32(PrimitiveColumn<i32>),
    Int64(PrimitiveColumn<i64>),
    UInt8(PrimitiveColumn<u8>),
    UInt16(PrimitiveColumn<u16>),
    UInt32(PrimitiveColumn<u32>),
    UInt64(PrimitiveColumn<u64>),
    String(StringColumn),
    Nullable(NullableColumn),
    Struct(StructColumn),
    Array(ArrayColumn),
}

impl<T> PrimitiveColumn<T> {
    /// The values this window exposes.
    pub open spec fn window(&self) -> Seq<T> {
        self.values@.subrange(self.offset as int, self.offset + self.length)
    }

    /// The window lies inside the backing storage.
    pub open spec fn spec_well_formed(&self) -> bool {
        self.offset + self.length <= self.values@.len()
    }

    /// Wraps a fully-owned buffer as a column window over all of it.
    pub fn from_vec(values: Vec<T>) -> (r: PrimitiveColumn<T>)
        ensures
            r.spec_well_formed(),
            r.window() == values@,
            r.offset == 0,
            r.length == values@.len(),
    {
        let length = values.len();
        let r = PrimitiveColumn { values: Arc::new(values), offset: 0, length };
        proof {
            assert(r.window() =~= r.values@);
        }
        r
    }

    /// A zero-copy window over rows `[offset, offset + length)` of this one.
    pub fn slice(&self, offset: usize, length: usize) -> (r: PrimitiveColumn<T>)
        requires
            self.spec_well_formed(),
            offset + length <= self.window().len(),
        ensures
            r.spec_well_formed(),
            r.window() == self.window().subrange(offset as int, offset + length),
            r.length == length,
    {
        let total: usize = self.values.len();
        proof {
            assert(total == self.values@.len());
        }
        let r = PrimitiveColumn {
            values: clone_arc(&self.values),
            offset: self.offset + offset,
            length,
        };
        proof {
            assert(r.window() =~= self.window().subrange(offset as int, offset + length));
        }
        r
    }
}

impl<T: Copy> PrimitiveColumn<T> {
    /// The value at row `i` of this window.
    pub fn value(&self, i: usize) -> (r: T)
        requires
            self.spec_well_formed(),
            i < self.window().len(),
        ensures
            r == self.window()[i as int],
    {
        let total: usize = self.values.len();
        proof {
            assert(total == self.values@.len());
        }
        self.values[self.offset + i]
    }
}

impl StringColumn {
    /// The value at row `i` of this window.
    pub fn value(&self, i: usize) -> (r: &String)
        requires
            self.spec_well_formed(),
            i < self.window().len(),
        ensures
            *r == self.window()[i as int],
    {
        let total: usize = self.values.len();
        proof {
            assert(total == self.values@.len());
        }
        &self.values[self.offset + i]
    }
}

impl StringColumn {
    /// The values this window exposes.
    pub open spec fn window(&self) -> Seq<String> {
        self.values@.subrange(self.offset as int, self.offset + self.length)
    }

    /// The window lies inside the backing storage.
    pub open spec fn spec_well_formed(&self) -> bool {
        self.offset + self.length <= self.values@.len()
    }

    /// Wraps a fully-owned buffer as a column window over all of it.
    pub fn from_vec(values: Vec<String>) -> (r: StringColumn)
        ensures
            r.spec_well_formed(),
            r.window() == values@,
            r.offset == 0,
            r.length == values@.len(),
    {
        let length = values.len();
        let r = StringColumn { values: Arc::new(values), offset: 0, length };
        proof {
            assert(r.window() =~= r.values@);
        }
        r
    }

    /// A zero-copy window over rows `[offset, offset + length)` of this one.
    pub fn slice(&self, offset: usize, length: usize) -> (r: StringColumn)
        requires
            self.spec_well_formed(),
            offset + length <= self.window().len(),
        ensures
            r.spec_well_formed(),
            r.window() == self.window().subrange(offset as int, offset + length),
            r.length == length,
    {
        let total: usize = self.values.len();
        proof {
            assert(total == self.values@.len());
        }
        let r = StringColumn {
            values: clone_arc(&self.values),
            offset: self.offset + offset,
            length,
        };
        proof {
            assert(r.window() =~= self.window().subrange(offset as int, offset + length));
        }
        r
    }
}

/// Row count of a column.
pub open spec fn col_len(c: Column) -> int
    decreases c, 0int, 0int,
{
    match c {
        Column::Boolean(p) => p.length as int,
        Column::Int8(p) => p.length as int,
        Column::Int16(p) => p.length as int,
        Column::Int32(p) => p.length as int,
        Column::Int64(p) => p.length as int,
        Column::UInt8(p) => p.length as int,
        Column::UInt16(p) => p.length as int,
        Column::UInt32(p) => p.length as int,
        Column::UInt64(p) => p.length as int,
        Column::String(s) => s.length as int,
        Column::Nullable(n) => col_len(*n.column),
        Column::Struct(s) => {
            if s.values@.len() == 0 {
                0
            } else {
                proof {
                    assert(decreases_to!(s.values => s.values@));
                    assert(decreases_to!(s.values@ => s.values@[0]));
                }
                col_len(*s.values@[0])
            }
        },
        Column::Array(a) => a.length as int,
    }
}

/// Logical type of a column.
pub open spec fn col_type(c: Column) -> TypeModel
    decreases c, 0int, 0int,
{
    match c {
        Column::Boolean(_) => TypeModel::Boolean,
        Column::Int8(_) => TypeModel::Int8,
        Column::Int16(_) => TypeModel::Int16,
        Column::Int32(_) => TypeModel::Int32,
        Column::Int64(_) => TypeModel::Int64,
        Column::UInt8(_) => TypeModel::UInt8,
        Column::UInt16(_) => TypeModel::UInt16,
        Column::UInt32(_) => TypeModel::UInt32,
        Column::UInt64(_) => TypeModel::UInt64,
        Column::String(_) => TypeModel::Str,
        Column::Nullable(n) => TypeModel::Nullable(Box::new(col_type(*n.column))),
        Column::Struct(s) => type_model(*s.data_type),
        Column::Array(a) => type_model(*a.data_type),
    }
}

/// The logical value stored at row `i` of a column. For a nullable column
/// this is the inner column's value, whether or not the row is null.
pub open spec fn col_value_at(c: Column, i: int) -> ValueModel
    decreases c, 0int, 0int,
{
    match c {
        Column::Boolean(p) => ValueModel::Bool(p.window()[i]),
        Column::Int8(p) => ValueModel::Int(p.window()[i] as i64),
        Column::Int16(p) => ValueModel::Int(p.window()[i] as i64),
        Column::Int32(p) => ValueModel::Int(p.window()[i] as i64),
        Column::Int64(p) => ValueModel::Int(p.window()[i]),
        Column::UInt8(p) => ValueModel::UInt(p.window()[i] as u64),
        Column::UInt16(p) => ValueModel::UInt(p.window()[i] as u64),
        Column::UInt32(p) => ValueModel::UInt(p.window()[i] as u64),
        Column::UInt64(p) => ValueModel::UInt(p.window()[i]),
        Column::String(s) => ValueModel::Str(s.window()[i]@),
        Column::Nullable(n) => col_value_at(*n.column, i),
        Column::Struct(s) => {
            proof {
                assert(decreases_to!(s.values => s.values@));
            }
            ValueModel::Struct(col_row_prefix(s.values@, i, s.values@.len() as int))
        },
        Column::Array(a) => {
            let lo = a.offsets@[a.start + i];
            let hi = a.offsets@[a.start + i + 1];
            ValueModel::Arr(col_range_models(*a.values, lo as int, hi - lo))
        },
    }
}

/// The values at row `row` of the first `n` child columns, in field order.
pub open spec fn col_row_prefix(vs: Seq<ColumnRef>, row: int, n: int) -> Seq<ValueModel>
    decreases vs, 0int, n,
        when n <= vs.len()
{
    if n <= 0 {
        Seq::empty()
    } else {
        proof {
            assert(decreases_to!(vs => vs[n - 1]));
        }
        col_row_prefix(vs, row, n - 1).push(col_value_at(*vs[n - 1], row))
    }
}

/// The values at rows `[lo, lo + k)` of a column.
pub open spec fn col_range_models(c: Column, lo: int, k: int) -> Seq<ValueModel>
    decreases c, 0int, k,
{
    if k <= 0 {
        Seq::empty()
    } else {
        col_range_models(c, lo, k - 1).push(col_value_at(c, lo + k - 1))
    }
}

/// Whether row `i` of a column is logically null: only rows of a nullable
/// column whose validity bit is cleared are.
pub open spec fn col_null_at(c: Column, i: int) -> bool {
    match c {
        Column::Nullable(n) => !n.validity.bits()[i],
        _ => false,
    }
}

/// Structural invariants every constructed column maintains: windows lie in
/// their buffers, a validity bitmap matches the inner length, struct children
/// are non-empty, equal-length and match the declared arity, and array
/// offsets are non-negative, non-decreasing and end inside the child column.
pub open spec fn col_well_formed(c: Column) -> bool
    decreases c, 0int, 0int,
{
    match c {
        Column::Boolean(p) => p.spec_well_formed(),
        Column::Int8(p) => p.spec_well_formed(),
        Column::Int16(p) => p.spec_well_formed(),
        Column::Int32(p) => p.spec_well_formed(),
        Column::Int64(p) => p.spec_well_formed(),
        Column::UInt8(p) => p.spec_well_formed(),
        Column::UInt16(p) => p.spec_well_formed(),
        Column::UInt32(p) => p.spec_well_formed(),
        Column::UInt64(p) => p.spec_well_formed(),
        Column::String(s) => s.spec_well_formed(),
        Column::Nullable(n) => {
            &&& col_well_formed(*n.column)
            &&& n.validity.well_formed()
            &&& n.validity.bits().len() == col_len(*n.column)
            &&& !(*n.column is Nullable)
        },
        Column::Struct(s) => {
            &&& s.values@.len() > 0
            &&& cols_well_formed_prefix(s.values@, s.values@.len() as int)
            &&& (forall|k: int|
                0 <= k < s.values@.len() ==> col_len(#[trigger] *s.values@[k]) == col_len(
                    *s.values@[0],
                ))
            &&& match *s.data_type {
                DataType::Struct(names, types) => names@.len() == s.values@.len() && types@.len()
                    == s.values@.len(),
                _ => false,
            }
        },
        Column::Array(a) => {
            &&& col_well_formed(*a.values)
            &&& a.start + a.length + 1 <= a.offsets@.len()
            &&& (forall|i: int|
                a.start <= i < a.start + a.length ==> #[trigger] a.offsets@[i]
                    <= a.offsets@[i + 1])
            &&& a.offsets@[a.start as int] >= 0
            &&& a.offsets@[a.start + a.length] <= col_len(*a.values)
            &&& *a.data_type is Array
        },
    }
}

/// Whether the first `n` child columns are all well formed.
pub open spec fn cols_well_formed_prefix(vs: Seq<ColumnRef>, n: int) -> bool
    decreases vs, 0int, n,
        when n <= vs.len()
{
    if n <= 0 {
        true
    } else {
        proof {
            assert(decreases_to!(vs => vs[n - 1]));
        }
        cols_well_formed_prefix(vs, n - 1) && col_well_formed(*vs[n - 1])
    }
}

/// Well-formedness of a child prefix means each child is well formed.
pub proof fn lemma_cols_well_formed_prefix(vs: Seq<ColumnRef>, n: int)
    requires
        0 <= n <= vs.len(),
    ensures
        cols_well_formed_prefix(vs, n) <==> (forall|k: int|
            0 <= k < n ==> col_well_formed(#[trigger] *vs[k])),
    decreases n,
{
    if n > 0 {
        lemma_cols_well_formed_prefix(vs, n - 1);
    }
}

/// The row of a struct column is taken child by child, in field order.
pub proof fn lemma_col_row_prefix(vs: Seq<ColumnRef>, row: int, n: int)
    requires
        0 <= n <= vs.len(),
    ensures
        col_row_prefix(vs, row, n).len() == n,
        forall|k: int|
            0 <= k < n ==> col_row_prefix(vs, row, n)[k] == col_value_at(#[trigger] *vs[k], row),
    decreases n,
{
    if n > 0 {
        lemma_col_row_prefix(vs, row, n - 1);
    }
}

/// A column's row count is non-negative and fits in a `usize`.
pub proof fn lemma_col_len_bounds(c: &Column)
    ensures
        0 <= col_len(*c) <= usize::MAX,
    decreases *c, 1int, 0int,
{
    match c {
        Column::Nullable(n) => lemma_col_len_bounds(&n.column),
        Column::Struct(s) => {
            if s.values@.len() > 0 {
                assert(decreases_to!(*c => *s));
                assert(decreases_to!(*s => s.values));
                assert(decreases_to!(s.values => s.values@));
                assert(decreases_to!(s.values@ => s.values@[0]));
                lemma_col_len_bounds(&s.values@[0]);
            }
        },
        _ => (),
    }
}

/// A struct column's rows keep the declared field order: row `i` is a
/// struct value whose `k`-th field is child `k`'s value at row `i`, for
/// every row and every field.
pub proof fn lemma_struct_field_order(s: &StructColumn, i: int)
    requires
        col_well_formed(Column::Struct(*s)),
        0 <= i < col_len(Column::Struct(*s)),
    ensures
        col_value_at(Column::Struct(*s), i) matches ValueModel::Struct(fields) && fields.len()
            == s.values@.len() && (forall|k: int|
            0 <= k < s.values@.len() ==> fields[k] == col_value_at(#[trigger] *s.values@[k], i)),
{
    lemma_col_row_prefix(s.values@, i, s.values@.len() as int);
}

/// Pairwise non-decreasing offsets are non-decreasing across any span.
pub proof fn lemma_offsets_monotone(offs: Seq<i64>, lo: int, hi: int, i: int, j: int)
    requires
        lo <= i <= j <= hi,
        forall|k: int| lo <= k < hi ==> #[trigger] offs[k] <= offs[k + 1],
    ensures
        offs[i] <= offs[j],
    decreases j - i,
{
    if i < j {
        lemma_offsets_monotone(offs, lo, hi, i, j - 1);
    }
}

/// A row range is taken row by row.
pub proof fn lemma_col_range_models(c: &Column, lo: int, k: int)
    requires
        0 <= k,
    ensures
        col_range_models(*c, lo, k).len() == k,
        forall|j: int| 0 <= j < k ==> col_range_models(*c, lo, k)[j] == col_value_at(*c, lo + j),
    decreases k,
{
    if k > 0 {
        lemma_col_range_models(c, lo, k - 1);
    }
}

} // verus!
