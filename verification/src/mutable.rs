//! Mutable columns: exclusive-owner, append-only builders, one per column
//! variant, frozen into immutable columns by `finish`/`as_column`.

use crate::arcs::clone_arc;
use crate::column::ArrayColumn;
use crate::column::Column;
use crate::bitmap::Bitmap;
use crate::column::ColumnRef;
use crate::column::NullableColumn;
use crate::column::col_null_at;
use crate::column::PrimitiveColumn;
use crate::column::StringColumn;
use crate::column::StructColumn;
use crate::column::col_len;
use crate::column::col_range_models;
use crate::column::col_type;
use crate::column::col_value_at;
use crate::column::col_well_formed;
use crate::column::lemma_col_range_models;
use crate::column::lemma_offsets_monotone;
use crate::types::DataType;
use crate::types::DataTypePtr;
use crate::types::TypeModel;
use crate::value::ValueModel;
use std::sync::Arc;
use vstd::pervasive::VecAdditionalExecFns;
use vstd::prelude::*;

verus! {

broadcast use vstd::seq::group_seq_axioms, vstd::std_specs::vec::group_vec_axioms;

/// Relies on std's `Vec::shrink_to_fit`: it may release spare capacity and
/// leaves the contents unchanged.
#[verifier::external_body]
fn vec_shrink_to_fit<T>(v: &mut Vec<T>)
    ensures
        final(v)@ == old(v)@,
{
    v.shrink_to_fit();
}

/// The rows a cumulative offsets sequence delimits in a flat child row
/// sequence: row `i` holds the child rows `[offs[i], offs[i+1])`.
pub open spec fn array_rows(offs: Seq<i64>, crows: Seq<ValueModel>) -> Seq<ValueModel> {
    Seq::new(
        (offs.len() - 1) as nat,
        |i: int| ValueModel::Arr(crows.subrange(offs[i] as int, offs[i + 1] as int)),
    )
}

/// The write-side counterpart of `Column`: one builder per column variant.
pub enum MutableColumn {
    Boolean(Vec<bool>),
    Nullable(Box<MutableNullableColumn>),
    Struct(Box<MutableStructColumn>),
    Int8(Vec<i8>),
    Int16(Vec<i16>),
    Int32(Vec<i32>),
    Int64(Vec<i64>),
    UInt8(Vec<u8>),
    UInt16(Vec<u16>),
    UInt32(Vec<u32>),
    UInt64(Vec<u64>),
    String(Vec<String>),
    Array(Box<MutableArrayColumn>),
}

/// The builder of a nullable column: the inner builder plus one validity
/// bit per appended row; a cleared bit denotes a null row.
pub struct MutableNullableColumn {
    pub values: Box<MutableColumn>,
    pub validity: Vec<bool>,
}

/// The builder of a struct column: one child builder per field, all
/// holding the same number of appended rows.
pub struct MutableStructColumn {
    pub values: Vec<MutableColumn>,
    pub data_type: DataTypePtr,
}

/// The builder of an array column: a running cursor into the flat child
/// builder and the cumulative end offset of every appended row.
pub struct MutableArrayColumn {
    pub last_offset: usize,
    pub offsets: Vec<i64>,
    pub values: Box<MutableColumn>,
    pub data_type: DataTypePtr,
}

/// The logical rows appended to a builder so far.
pub open spec fn mc_rows(m: MutableColumn) -> Seq<ValueModel>
    decreases m, 0int,
{
    match m {
        MutableColumn::Boolean(v) => Seq::new(v@.len(), |i: int| ValueModel::Bool(v@[i])),
        MutableColumn::Nullable(b) => mc_rows(*b.values),
        MutableColumn::Struct(b) => {
            proof {
                assert(decreases_to!(b.values => b.values@));
            }
            struct_rows(b.values@)
        },
        MutableColumn::Int8(v) => Seq::new(v@.len(), |i: int| ValueModel::Int(v@[i] as i64)),
        MutableColumn::Int16(v) => Seq::new(v@.len(), |i: int| ValueModel::Int(v@[i] as i64)),
        MutableColumn::Int32(v) => Seq::new(v@.len(), |i: int| ValueModel::Int(v@[i] as i64)),
        MutableColumn::Int64(v) => Seq::new(v@.len(), |i: int| ValueModel::Int(v@[i])),
        MutableColumn::UInt8(v) => Seq::new(v@.len(), |i: int| ValueModel::UInt(v@[i] as u64)),
        MutableColumn::UInt16(v) => Seq::new(v@.len(), |i: int| ValueModel::UInt(v@[i] as u64)),
        MutableColumn::UInt32(v) => Seq::new(v@.len(), |i: int| ValueModel::UInt(v@[i] as u64)),
        MutableColumn::UInt64(v) => Seq::new(v@.len(), |i: int| ValueModel::UInt(v@[i])),
        MutableColumn::String(v) => Seq::new(v@.len(), |i: int| ValueModel::Str(v@[i]@)),
        MutableColumn::Array(b) => array_rows(b.offsets@, mc_rows(*b.values)),
    }
}

/// The rows of a struct builder with the given children: as many rows as
/// each child holds, each a struct value taking the children in order.
pub open spec fn struct_rows(vs: Seq<MutableColumn>) -> Seq<ValueModel>
    decreases vs, vs.len() + 1,
{
    let crs = mc_rows_prefix(vs, vs.len() as int);
    let height = if crs.len() == 0 {
        0
    } else {
        crs[0].len()
    };
    Seq::new(height, |i: int| ValueModel::Struct(Seq::new(crs.len(), |k: int| crs[k][i])))
}

/// The row sequences of the first `n` child builders.
pub open spec fn mc_rows_prefix(vs: Seq<MutableColumn>, n: int) -> Seq<Seq<ValueModel>>
    decreases vs, n,
        when n <= vs.len()
{
    if n <= 0 {
        Seq::empty()
    } else {
        proof {
            assert(decreases_to!(vs => vs[n - 1]));
        }
        mc_rows_prefix(vs, n - 1).push(mc_rows(vs[n - 1]))
    }
}

/// The rows of a child prefix are taken child by child.
pub proof fn lemma_mc_rows_prefix(vs: Seq<MutableColumn>, n: int)
    requires
        0 <= n <= vs.len(),
    ensures
        mc_rows_prefix(vs, n).len() == n,
        forall|k: int| 0 <= k < n ==> mc_rows_prefix(vs, n)[k] == mc_rows(#[trigger] vs[k]),
    decreases n,
{
    if n > 0 {
        lemma_mc_rows_prefix(vs, n - 1);
    }
}

/// The default rows of the first `n` child builders.
pub open spec fn mc_defaults_prefix(vs: Seq<MutableColumn>, n: int) -> Seq<ValueModel>
    decreases vs, n,
        when n <= vs.len()
{
    if n <= 0 {
        Seq::empty()
    } else {
        proof {
            assert(decreases_to!(vs => vs[n - 1]));
        }
        mc_defaults_prefix(vs, n - 1).push(mc_default(vs[n - 1]))
    }
}

/// The defaults of a child prefix are taken child by child.
pub proof fn lemma_mc_defaults_prefix(vs: Seq<MutableColumn>, n: int)
    requires
        0 <= n <= vs.len(),
    ensures
        mc_defaults_prefix(vs, n).len() == n,
        forall|k: int| 0 <= k < n ==> mc_defaults_prefix(vs, n)[k] == mc_default(#[trigger] vs[k]),
    decreases n,
{
    if n > 0 {
        lemma_mc_defaults_prefix(vs, n - 1);
    }
}

/// Whether the first `n` child builders are all well formed.
pub open spec fn mcs_wf_prefix(vs: Seq<MutableColumn>, n: int) -> bool
    decreases vs, n,
        when n <= vs.len()
{
    if n <= 0 {
        true
    } else {
        proof {
            assert(decreases_to!(vs => vs[n - 1]));
        }
        mcs_wf_prefix(vs, n - 1) && mc_wf(vs[n - 1])
    }
}

/// Well-formedness of a child prefix means each child is well formed.
pub proof fn lemma_mcs_wf_prefix(vs: Seq<MutableColumn>, n: int)
    requires
        0 <= n <= vs.len(),
    ensures
        mcs_wf_prefix(vs, n) <==> (forall|k: int| 0 <= k < n ==> mc_wf(#[trigger] vs[k])),
    decreases n,
{
    if n > 0 {
        lemma_mcs_wf_prefix(vs, n - 1);
    }
}

/// Whether the first `n` child builders can all take one more row.
pub open spec fn mcs_can_append_prefix(vs: Seq<MutableColumn>, n: int) -> bool
    decreases vs, n,
        when n <= vs.len()
{
    if n <= 0 {
        true
    } else {
        proof {
            assert(decreases_to!(vs => vs[n - 1]));
        }
        mcs_can_append_prefix(vs, n - 1) && mc_can_append(vs[n - 1])
    }
}

/// Appendability of a child prefix means each child can take a row.
pub proof fn lemma_mcs_can_append_prefix(vs: Seq<MutableColumn>, n: int)
    requires
        0 <= n <= vs.len(),
    ensures
        mcs_can_append_prefix(vs, n) <==> (forall|k: int|
            0 <= k < n ==> mc_can_append(#[trigger] vs[k])),
    decreases n,
{
    if n > 0 {
        lemma_mcs_can_append_prefix(vs, n - 1);
    }
}

/// Appending one default row to every child appends one default struct
/// row to the struct builder.
pub proof fn lemma_append_struct_rows(vs0: Seq<MutableColumn>, vs1: Seq<MutableColumn>)
    requires
        vs0.len() == vs1.len(),
        vs0.len() > 0,
        forall|m: int|
            0 <= m < vs0.len() ==> mc_rows(#[trigger] vs0[m]).len() == mc_rows(vs0[0]).len(),
        forall|m: int|
            0 <= m < vs1.len() ==> mc_rows(#[trigger] vs1[m]) == mc_rows(vs0[m]).push(
                mc_default(vs0[m]),
            ),
    ensures
        struct_rows(vs1) == struct_rows(vs0).push(
            ValueModel::Struct(mc_defaults_prefix(vs0, vs0.len() as int)),
        ),
{
    let n = vs0.len() as int;
    lemma_mc_rows_prefix(vs0, n);
    lemma_mc_rows_prefix(vs1, n);
    lemma_mc_defaults_prefix(vs0, n);
    let crs0 = mc_rows_prefix(vs0, n);
    let crs1 = mc_rows_prefix(vs1, n);
    assert forall|k: int| 0 <= k < n implies #[trigger] crs1[k] == crs0[k].push(
        mc_default(vs0[k]),
    ) && crs0[k].len() == crs0[0].len() by {
        assert(crs0[k] == mc_rows(vs0[k]));
        assert(crs1[k] == mc_rows(vs1[k]));
    }
    let height = crs0[0].len() as int;
    assert(crs0[0] == mc_rows(vs0[0]));
    assert(crs1[0] == mc_rows(vs1[0]));
    assert(crs1[0].len() == height + 1);
    assert forall|i: int| 0 <= i <= height implies struct_rows(vs1)[i] == struct_rows(vs0).push(
        ValueModel::Struct(mc_defaults_prefix(vs0, n)),
    )[i] by {
        if i < height {
            assert forall|k: int| 0 <= k < n implies #[trigger] crs1[k][i] == crs0[k][i] by {
                assert(crs1[k] == crs0[k].push(mc_default(vs0[k])));
                assert(crs0[k].len() == crs0[0].len());
            }
            assert(Seq::new(crs1.len(), |k: int| crs1[k][i]) =~= Seq::new(
                crs0.len(),
                |k: int| crs0[k][i],
            ));
        } else {
            assert forall|k: int| 0 <= k < n implies #[trigger] crs1[k][i] == mc_default(
                vs0[k],
            ) by {
                assert(crs1[k] == crs0[k].push(mc_default(vs0[k])));
                assert(crs0[k].len() == crs0[0].len());
            }
            assert(Seq::new(crs1.len(), |k: int| crs1[k][i]) =~= mc_defaults_prefix(vs0, n));
        }
    }
    assert(struct_rows(vs1) =~= struct_rows(vs0).push(
        ValueModel::Struct(mc_defaults_prefix(vs0, n)),
    ));
}

/// A struct column frozen from a struct builder holds the builder's rows.
pub proof fn lemma_frozen_struct_rows(vs0: Seq<MutableColumn>, sc: &StructColumn)
    requires
        vs0.len() > 0,
        sc.values@.len() == vs0.len(),
        forall|m: int|
            0 <= m < vs0.len() ==> mc_rows(#[trigger] vs0[m]).len() == mc_rows(vs0[0]).len(),
        forall|m: int| 0 <= m < vs0.len() ==> col_well_formed(#[trigger] *sc.values@[m]),
        forall|m: int|
            0 <= m < vs0.len() ==> col_len(#[trigger] *sc.values@[m]) == mc_rows(vs0[m]).len(),
        forall|m: int|
            0 <= m < vs0.len() ==> (forall|i: int|
                0 <= i < col_len(#[trigger] *sc.values@[m]) ==> col_value_at(*sc.values@[m], i)
                    == mc_rows(vs0[m])[i]),
        match *sc.data_type {
            DataType::Struct(names, types) => names@.len() == vs0.len() && types@.len()
                == vs0.len(),
            _ => false,
        },
    ensures
        col_well_formed(Column::Struct(*sc)),
        col_len(Column::Struct(*sc)) == struct_rows(vs0).len(),
        forall|i: int|
            0 <= i < struct_rows(vs0).len() ==> col_value_at(Column::Struct(*sc), i) == struct_rows(
                vs0,
            )[i],
{
    let n = vs0.len() as int;
    lemma_mc_rows_prefix(vs0, n);
    crate::column::lemma_cols_well_formed_prefix(sc.values@, n);
    let crs = mc_rows_prefix(vs0, n);
    assert forall|k: int| 0 <= k < n implies #[trigger] crs[k] == mc_rows(vs0[k]) && crs[k].len()
        == crs[0].len() && col_len(*sc.values@[k]) == crs[k].len() by {
        assert(crs[k] == mc_rows(vs0[k]));
        assert(crs[0] == mc_rows(vs0[0]));
        assert(mc_rows(vs0[k]).len() == mc_rows(vs0[0]).len());
    }
    assert(col_len(Column::Struct(*sc)) == col_len(*sc.values@[0]));
    assert forall|i: int| 0 <= i < struct_rows(vs0).len() implies col_value_at(
        Column::Struct(*sc),
        i,
    ) == struct_rows(vs0)[i] by {
        crate::column::lemma_col_row_prefix(sc.values@, i, n);
        assert forall|k: int| 0 <= k < n implies crate::column::col_row_prefix(
            sc.values@,
            i,
            n,
        )[k] == #[trigger] crs[k][i] by {
            assert(col_value_at(*sc.values@[k], i) == mc_rows(vs0[k])[i]);
        }
        assert(crate::column::col_row_prefix(sc.values@, i, n) =~= Seq::new(
            crs.len(),
            |k: int| crs[k][i],
        ));
    }
}

/// A struct builder whose children hold no rows holds no rows.
pub proof fn lemma_empty_struct_builder(vs: Seq<MutableColumn>)
    requires
        vs.len() > 0,
        forall|m: int| 0 <= m < vs.len() ==> mc_rows(#[trigger] vs[m]).len() == 0,
    ensures
        struct_rows(vs).len() == 0,
{
    lemma_mc_rows_prefix(vs, vs.len() as int);
    assert(mc_rows_prefix(vs, vs.len() as int)[0] == mc_rows(vs[0]));
}

/// The logical type a builder produces.
pub open spec fn mc_type(m: MutableColumn) -> TypeModel
    decreases m, 0int,
{
    match m {
        MutableColumn::Boolean(_) => TypeModel::Boolean,
        MutableColumn::Nullable(b) => TypeModel::Nullable(Box::new(mc_type(*b.values))),
        MutableColumn::Struct(b) => crate::types::type_model(*b.data_type),
        MutableColumn::Int8(_) => TypeModel::Int8,
        MutableColumn::Int16(_) => TypeModel::Int16,
        MutableColumn::Int32(_) => TypeModel::Int32,
        MutableColumn::Int64(_) => TypeModel::Int64,
        MutableColumn::UInt8(_) => TypeModel::UInt8,
        MutableColumn::UInt16(_) => TypeModel::UInt16,
        MutableColumn::UInt32(_) => TypeModel::UInt32,
        MutableColumn::UInt64(_) => TypeModel::UInt64,
        MutableColumn::String(_) => TypeModel::Str,
        MutableColumn::Array(b) => crate::types::type_model(*b.data_type),
    }
}

/// The default row a builder appends: zero, false or empty for flat
/// variants, and — deliberately — a one-element array of the child's
/// default for the array builder, not an empty array.
pub open spec fn mc_default(m: MutableColumn) -> ValueModel
    decreases m, 0int,
{
    match m {
        MutableColumn::Boolean(_) => ValueModel::Bool(false),
        MutableColumn::Nullable(b) => mc_default(*b.values),
        MutableColumn::Struct(b) => {
            proof {
                assert(decreases_to!(b.values => b.values@));
            }
            ValueModel::Struct(mc_defaults_prefix(b.values@, b.values@.len() as int))
        },
        MutableColumn::Int8(_) => ValueModel::Int(0),
        MutableColumn::Int16(_) => ValueModel::Int(0),
        MutableColumn::Int32(_) => ValueModel::Int(0),
        MutableColumn::Int64(_) => ValueModel::Int(0),
        MutableColumn::UInt8(_) => ValueModel::UInt(0),
        MutableColumn::UInt16(_) => ValueModel::UInt(0),
        MutableColumn::UInt32(_) => ValueModel::UInt(0),
        MutableColumn::UInt64(_) => ValueModel::UInt(0),
        MutableColumn::String(_) => ValueModel::Str(Seq::empty()),
        MutableColumn::Array(b) => ValueModel::Arr(seq![mc_default(*b.values)]),
    }
}

/// Whether one more row can be appended without overflowing the array
/// builder's running cursor (a machine limit, not a logical one).
pub open spec fn mc_can_append(m: MutableColumn) -> bool
    decreases m, 0int,
{
    match m {
        MutableColumn::Array(b) => b.last_offset < usize::MAX && b.last_offset
            < 0x7fff_ffff_ffff_ffff && mc_can_append(*b.values),
        MutableColumn::Nullable(b) => mc_can_append(*b.values),
        MutableColumn::Struct(b) => {
            proof {
                assert(decreases_to!(b.values => b.values@));
            }
            mcs_can_append_prefix(b.values@, b.values@.len() as int)
        },
        _ => true,
    }
}

/// Structural invariants of a builder: an array builder's offsets start at
/// zero, never decrease, and end at the running cursor, which equals the
/// number of child rows.
pub open spec fn mc_wf(m: MutableColumn) -> bool
    decreases m, 0int,
{
    match m {
        MutableColumn::Nullable(b) => {
            &&& b.validity@.len() == mc_rows(*b.values).len()
            &&& mc_wf(*b.values)
            &&& !(*b.values is Nullable)
        },
        MutableColumn::Struct(b) => {
            proof {
                assert(decreases_to!(b.values => b.values@));
            }
            &&& b.values@.len() > 0
            &&& mcs_wf_prefix(b.values@, b.values@.len() as int)
            &&& (forall|k: int|
                0 <= k < b.values@.len() ==> mc_rows(#[trigger] b.values@[k]).len() == mc_rows(
                    b.values@[0],
                ).len())
            &&& match *b.data_type {
                DataType::Struct(names, types) => names@.len() == b.values@.len() && types@.len()
                    == b.values@.len(),
                _ => false,
            }
        },
        MutableColumn::Array(b) => {
            &&& b.offsets@.len() >= 1
            &&& b.offsets@[0] == 0
            &&& (forall|k: int|
                0 <= k < b.offsets@.len() - 1 ==> #[trigger] b.offsets@[k] <= b.offsets@[k + 1])
            &&& b.offsets@[b.offsets@.len() - 1] == b.last_offset as i64
            &&& b.last_offset == mc_rows(*b.values).len()
            &&& mc_wf(*b.values)
            &&& match *b.data_type {
                DataType::Array(inner) => (*inner)@ == mc_type(*b.values),
                _ => false,
            }
        },
        _ => true,
    }
}

impl MutableArrayColumn {
    /// An empty array builder over the given child builder. The data type
    /// must be the array type of what the child builder produces.
    pub fn new(data_type: DataTypePtr, values: Box<MutableColumn>) -> (r: MutableArrayColumn)
        requires
            mc_wf(*values),
            mc_rows(*values).len() == 0,
            match *data_type {
                DataType::Array(inner) => (*inner)@ == mc_type(*values),
                _ => false,
            },
        ensures
            mc_wf(MutableColumn::Array(Box::new(r))),
            mc_rows(MutableColumn::Array(Box::new(r))).len() == 0,
            mc_type(MutableColumn::Array(Box::new(r))) == crate::types::type_model(*data_type),
            r.data_type == data_type,
    {
        let mut offsets: Vec<i64> = Vec::new();
        offsets.push(0);
        MutableArrayColumn { last_offset: 0, offsets, values, data_type }
    }
}

impl MutableColumn {
    /// How many rows have been appended since creation or the last freeze.
    pub fn len(&self) -> (r: usize)
        requires
            mc_wf(*self),
        ensures
            r == mc_rows(*self).len(),
        decreases *self,
    {
        match self {
            MutableColumn::Boolean(v) => v.len(),
            MutableColumn::Nullable(b) => b.values.len(),
            MutableColumn::Struct(b) => {
                proof {
                    assert(decreases_to!(*self => *b));
                    assert(decreases_to!(*b => b.values));
                    assert(decreases_to!(b.values => b.values@));
                    assert(decreases_to!(b.values@ => b.values@[0]));
                    lemma_mcs_wf_prefix(b.values@, b.values@.len() as int);
                    lemma_mc_rows_prefix(b.values@, b.values@.len() as int);
                    assert(mc_rows_prefix(b.values@, b.values@.len() as int)[0] == mc_rows(
                        b.values@[0],
                    ));
                    assert(mc_rows(*self) == struct_rows(b.values@));
                    assert(struct_rows(b.values@).len() == mc_rows(b.values@[0]).len());
                }
                b.values[0].len()
            },
            MutableColumn::Int8(v) => v.len(),
            MutableColumn::Int16(v) => v.len(),
            MutableColumn::Int32(v) => v.len(),
            MutableColumn::Int64(v) => v.len(),
            MutableColumn::UInt8(v) => v.len(),
            MutableColumn::UInt16(v) => v.len(),
            MutableColumn::UInt32(v) => v.len(),
            MutableColumn::UInt64(v) => v.len(),
            MutableColumn::String(v) => v.len(),
            MutableColumn::Array(b) => b.len(),
        }
    }

    /// The data type of the column this builder produces.
    pub fn data_type(&self) -> (r: DataTypePtr)
        requires
            mc_wf(*self),
        ensures
            (*r)@ == mc_type(*self),
        decreases *self,
    {
        match self {
            MutableColumn::Boolean(_) => Arc::new(DataType::Boolean),
            MutableColumn::Nullable(b) => Arc::new(DataType::Nullable(b.values.data_type())),
            MutableColumn::Struct(b) => clone_arc(&b.data_type),
            MutableColumn::Int8(_) => Arc::new(DataType::Int8),
            MutableColumn::Int16(_) => Arc::new(DataType::Int16),
            MutableColumn::Int32(_) => Arc::new(DataType::Int32),
            MutableColumn::Int64(_) => Arc::new(DataType::Int64),
            MutableColumn::UInt8(_) => Arc::new(DataType::UInt8),
            MutableColumn::UInt16(_) => Arc::new(DataType::UInt16),
            MutableColumn::UInt32(_) => Arc::new(DataType::UInt32),
            MutableColumn::UInt64(_) => Arc::new(DataType::UInt64),
            MutableColumn::String(_) => Arc::new(DataType::String),
            MutableColumn::Array(b) => clone_arc(&b.data_type),
        }
    }

    /// Releases spare capacity; the appended rows are unchanged.
    pub fn shrink_to_fit(&mut self)
        ensures
            mc_rows(*final(self)) == mc_rows(*old(self)),
            mc_type(*final(self)) == mc_type(*old(self)),
            mc_wf(*final(self)) == mc_wf(*old(self)),
            mc_can_append(*final(self)) == mc_can_append(*old(self)),
        decreases *old(self), 0int,
    {
        match self {
            MutableColumn::Boolean(v) => vec_shrink_to_fit(v),
            MutableColumn::Nullable(b) => {
                vec_shrink_to_fit(&mut b.validity);
                b.values.shrink_to_fit();
            },
            MutableColumn::Struct(b) => vec_shrink_to_fit(&mut b.values),
            MutableColumn::Int8(v) => vec_shrink_to_fit(v),
            MutableColumn::Int16(v) => vec_shrink_to_fit(v),
            MutableColumn::Int32(v) => vec_shrink_to_fit(v),
            MutableColumn::Int64(v) => vec_shrink_to_fit(v),
            MutableColumn::UInt8(v) => vec_shrink_to_fit(v),
            MutableColumn::UInt16(v) => vec_shrink_to_fit(v),
            MutableColumn::UInt32(v) => vec_shrink_to_fit(v),
            MutableColumn::UInt64(v) => vec_shrink_to_fit(v),
            MutableColumn::String(v) => vec_shrink_to_fit(v),
            MutableColumn::Array(b) => b.shrink_to_fit(),
        }
        proof {
            assert(mc_rows(*self) =~= mc_rows(*old(self)));
        }
    }

    /// Appends one default row: zero, false or empty for flat variants; for
    /// the array builder, an array of exactly one default child element.
    #[verifier::loop_isolation(false)]
    #[verifier::rlimit(60)]
    pub fn append_default(&mut self)
        requires
            mc_wf(*old(self)),
            mc_can_append(*old(self)),
        ensures
            mc_wf(*final(self)),
            mc_type(*final(self)) == mc_type(*old(self)),
            (*final(self) is Nullable) == (*old(self) is Nullable),
            mc_rows(*final(self)) == mc_rows(*old(self)).push(mc_default(*old(self))),
        decreases *old(self), 0int,
    {
        match self {
            MutableColumn::Boolean(v) => v.push(false),
            MutableColumn::Nullable(b) => {
                b.values.append_default();
                b.validity.push(false);
            },
            MutableColumn::Struct(b) => {
                let ghost m0 = *old(self);
                let ghost vs0 = b.values@;
                let ghost dt0 = b.data_type;
                let count = b.values.len();
                proof {
                    lemma_mcs_wf_prefix(vs0, count as int);
                    lemma_mcs_can_append_prefix(vs0, count as int);
                }
                let mut k: usize = 0;
                while k < count
                    invariant
                        0 <= k <= count,
                        count == vs0.len(),
                        b.values@.len() == count,
                        b.data_type == dt0,
                        forall|m: int| k <= m < count ==> b.values@[m] == vs0[m],
                        forall|m: int|
                            0 <= m < k ==> mc_wf(#[trigger] b.values@[m]) && mc_type(
                                b.values@[m],
                            ) == mc_type(vs0[m]) && mc_rows(b.values@[m]) == mc_rows(
                                vs0[m],
                            ).push(mc_default(vs0[m])),
                    decreases count - k,
                {
                    let mut child = MutableColumn::Boolean(Vec::new());
                    b.values.set_and_swap(k, &mut child);
                    proof {
                        assert(child == vs0[k as int]);
                        match m0 {
                            MutableColumn::Struct(bb) => {
                                assert(decreases_to!(m0 => *bb));
                                assert(decreases_to!(*bb => bb.values));
                                assert(decreases_to!(bb.values => bb.values@));
                                assert(decreases_to!(bb.values@ => bb.values@[k as int]));
                                assert(bb.values@ == vs0);
                            },
                            _ => (),
                        }
                        lemma_mcs_wf_prefix(vs0, count as int);
                        lemma_mcs_can_append_prefix(vs0, count as int);
                    }
                    child.append_default();
                    b.values.set_and_swap(k, &mut child);
                    k = k + 1;
                }
                proof {
                    lemma_append_struct_rows(vs0, b.values@);
                    lemma_mcs_wf_prefix(b.values@, count as int);
                    assert forall|m: int| 0 <= m < count implies mc_rows(
                        #[trigger] b.values@[m],
                    ).len() == mc_rows(b.values@[0]).len() by {
                        assert(mc_rows(b.values@[m]) == mc_rows(vs0[m]).push(mc_default(vs0[m])));
                        assert(mc_rows(b.values@[0]) == mc_rows(vs0[0]).push(mc_default(vs0[0])));
                        assert(mc_rows(vs0[m]).len() == mc_rows(vs0[0]).len());
                    }
                    assert(mc_rows(*self) == struct_rows(b.values@));
                    assert(mc_rows(*old(self)) == struct_rows(vs0));
                    assert(mc_default(*old(self)) == ValueModel::Struct(
                        mc_defaults_prefix(vs0, count as int),
                    ));
                }
            },
            MutableColumn::Int8(v) => v.push(0),
            MutableColumn::Int16(v) => v.push(0),
            MutableColumn::Int32(v) => v.push(0),
            MutableColumn::Int64(v) => v.push(0),
            MutableColumn::UInt8(v) => v.push(0),
            MutableColumn::UInt16(v) => v.push(0),
            MutableColumn::UInt32(v) => v.push(0),
            MutableColumn::UInt64(v) => v.push(0),
            MutableColumn::String(v) => v.push(String::new()),
            MutableColumn::Array(b) => b.append_default(),
        }
        proof {
            assert(mc_rows(*self) =~= mc_rows(*old(self)).push(mc_default(*old(self))));
        }
    }
}

impl MutableArrayColumn {
    /// How many rows have been appended since creation or the last freeze.
    pub fn len(&self) -> (r: usize)
        requires
            mc_wf(MutableColumn::Array(Box::new(*self))),
        ensures
            r == mc_rows(MutableColumn::Array(Box::new(*self))).len(),
    {
        self.offsets.len() - 1
    }

    /// Releases spare capacity in the offsets and in the child builder.
    pub fn shrink_to_fit(&mut self)
        ensures
            final(self).last_offset == old(self).last_offset,
            final(self).offsets@ == old(self).offsets@,
            final(self).data_type == old(self).data_type,
            mc_rows(*final(self).values) == mc_rows(*old(self).values),
            mc_type(*final(self).values) == mc_type(*old(self).values),
            mc_wf(*final(self).values) == mc_wf(*old(self).values),
            mc_can_append(*final(self).values) == mc_can_append(*old(self).values),
        decreases old(self).values, 1int,
    {
        vec_shrink_to_fit(&mut self.offsets);
        self.values.shrink_to_fit();
    }

    /// Appends one default row: exactly one default child element, so the
    /// appended array has one element, and the row count grows by one.
    #[verifier::rlimit(60)]
    pub fn append_default(&mut self)
        requires
            mc_wf(MutableColumn::Array(Box::new(*old(self)))),
            mc_can_append(MutableColumn::Array(Box::new(*old(self)))),
        ensures
            mc_wf(MutableColumn::Array(Box::new(*final(self)))),
            mc_type(MutableColumn::Array(Box::new(*final(self)))) == mc_type(
                MutableColumn::Array(Box::new(*old(self))),
            ),
            mc_rows(MutableColumn::Array(Box::new(*final(self)))) == mc_rows(
                MutableColumn::Array(Box::new(*old(self))),
            ).push(mc_default(MutableColumn::Array(Box::new(*old(self))))),
        decreases old(self).values, 1int,
    {
        self.last_offset = self.last_offset + 1;
        self.values.append_default();
        self.offsets.push(self.last_offset as i64);
        proof {
            let ghost m0 = MutableColumn::Array(Box::new(*old(self)));
            let ghost m1 = MutableColumn::Array(Box::new(*self));
            let ghost offs0 = old(self).offsets@;
            let ghost offs1 = self.offsets@;
            let ghost crows0 = mc_rows(*old(self).values);
            let ghost crows1 = mc_rows(*self.values);
            assert(crows1 == crows0.push(mc_default(*old(self).values)));
            assert forall|i: int| 0 <= i < offs0.len() - 1 implies array_rows(offs1, crows1)[i]
                == array_rows(offs0, crows0)[i] by {
                assert(offs1[i] == offs0[i]);
                assert(offs1[i + 1] == offs0[i + 1]);
                lemma_offsets_monotone(offs0, 0, offs0.len() - 1, 0, i);
                lemma_offsets_monotone(offs0, 0, offs0.len() - 1, i + 1, offs0.len() - 1);
                assert(crows1.subrange(offs1[i] as int, offs1[i + 1] as int) =~= crows0.subrange(
                    offs0[i] as int,
                    offs0[i + 1] as int,
                ));
            }
            assert(crows1.subrange(
                offs1[offs1.len() - 2] as int,
                offs1[offs1.len() - 1] as int,
            ) =~= seq![mc_default(*old(self).values)]);
            assert(mc_rows(m1) =~= mc_rows(m0).push(mc_default(m0)));
        }
    }

    /// Rows of a frozen array column are the rows its offsets delimit in
    /// the flat child rows.
    proof fn lemma_frozen_rows(r: &ArrayColumn, crows: Seq<ValueModel>)
        requires
            col_well_formed(Column::Array(*r)),
            r.start == 0,
            col_len(*r.values) == crows.len(),
            forall|j: int| 0 <= j < crows.len() ==> col_value_at(*r.values, j) == crows[j],
        ensures
            forall|i: int|
                0 <= i < r.length ==> col_value_at(Column::Array(*r), i) == array_rows(
                    r.offsets@,
                    crows,
                )[i],
    {
        assert forall|i: int| 0 <= i < r.length implies col_value_at(Column::Array(*r), i)
            == array_rows(r.offsets@, crows)[i] by {
            lemma_offsets_monotone(r.offsets@, 0, r.length as int, 0, i);
            lemma_offsets_monotone(r.offsets@, 0, r.length as int, i + 1, r.length as int);
            lemma_col_range_models(
                &r.values,
                r.offsets@[i] as int,
                r.offsets@[i + 1] - r.offsets@[i],
            );
            assert(col_range_models(
                *r.values,
                r.offsets@[i] as int,
                r.offsets@[i + 1] - r.offsets@[i],
            ) =~= crows.subrange(r.offsets@[i] as int, r.offsets@[i + 1] as int));
        }
    }

    /// Freezes the builder into an immutable array column: storage is
    /// shrunk to fit, the running cursor resets to zero and the offsets
    /// move into the new column, leaving the builder in its initial empty
    /// state, sharing no data with the column just produced.
    #[verifier::rlimit(100)]
    #[verifier::spinoff_prover]
    pub fn finish(&mut self) -> (r: ArrayColumn)
        requires
            mc_wf(MutableColumn::Array(Box::new(*old(self)))),
        ensures
            col_well_formed(Column::Array(r)),
            col_len(Column::Array(r)) == mc_rows(MutableColumn::Array(Box::new(*old(self)))).len(),
            col_type(Column::Array(r)) == mc_type(MutableColumn::Array(Box::new(*old(self)))),
            forall|i: int|
                0 <= i < col_len(Column::Array(r)) ==> col_value_at(Column::Array(r), i)
                    == mc_rows(MutableColumn::Array(Box::new(*old(self))))[i],
            mc_wf(MutableColumn::Array(Box::new(*final(self)))),
            mc_rows(MutableColumn::Array(Box::new(*final(self)))).len() == 0,
            mc_type(MutableColumn::Array(Box::new(*final(self)))) == mc_type(
                MutableColumn::Array(Box::new(*old(self))),
            ),
            final(self).last_offset == 0,
        decreases old(self).values, 1int,
    {
        vec_shrink_to_fit(&mut self.offsets);
        self.last_offset = 0;
        let values = self.values.as_column();
        let mut taken: Vec<i64> = Vec::new();
        core::mem::swap(&mut taken, &mut self.offsets);
        self.offsets.push(0);
        let ghost crows = mc_rows(*old(self).values);
        let r = ArrayColumn::from_data(clone_arc(&self.data_type), taken, values);
        proof {
            let ghost m0 = MutableColumn::Array(Box::new(*old(self)));
            Self::lemma_frozen_rows(&r, crows);
            assert(mc_rows(m0) =~= array_rows(r.offsets@, crows));
        }
        r
    }

    /// Freezes the builder and hands the result out as a shared column.
    pub fn as_column(&mut self) -> (r: ColumnRef)
        requires
            mc_wf(MutableColumn::Array(Box::new(*old(self)))),
        ensures
            col_well_formed(*r),
            col_len(*r) == mc_rows(MutableColumn::Array(Box::new(*old(self)))).len(),
            col_type(*r) == mc_type(MutableColumn::Array(Box::new(*old(self)))),
            forall|i: int|
                0 <= i < col_len(*r) ==> col_value_at(*r, i) == mc_rows(
                    MutableColumn::Array(Box::new(*old(self))),
                )[i],
            mc_wf(MutableColumn::Array(Box::new(*final(self)))),
            mc_rows(MutableColumn::Array(Box::new(*final(self)))).len() == 0,
            mc_type(MutableColumn::Array(Box::new(*final(self)))) == mc_type(
                MutableColumn::Array(Box::new(*old(self))),
            ),
        decreases old(self).values, 2int,
    {
        Arc::new(Column::Array(self.finish()))
    }
}

impl MutableColumn {
    /// Freezes the builder into an immutable column holding the appended
    /// rows, leaving the builder empty.
    #[verifier::loop_isolation(false)]
    #[verifier::rlimit(60)]
    pub fn as_column(&mut self) -> (r: ColumnRef)
        requires
            mc_wf(*old(self)),
        ensures
            col_well_formed(*r),
            col_len(*r) == mc_rows(*old(self)).len(),
            col_type(*r) == mc_type(*old(self)),
            forall|i: int| 0 <= i < col_len(*r) ==> col_value_at(*r, i) == mc_rows(*old(self))[i],
            (*r is Nullable) == (*old(self) is Nullable),
            *old(self) matches MutableColumn::Nullable(b) ==> (forall|i: int|
                0 <= i < col_len(*r) ==> col_null_at(*r, i) == !b.validity@[i]),
            mc_wf(*final(self)),
            mc_rows(*final(self)).len() == 0,
            mc_type(*final(self)) == mc_type(*old(self)),
        decreases *old(self), 0int,
    {
        match self {
            MutableColumn::Struct(b) => {
                let ghost m0 = *old(self);
                let ghost vs0 = b.values@;
                let ghost dt0 = b.data_type;
                let count = b.values.len();
                proof {
                    lemma_mcs_wf_prefix(vs0, count as int);
                    lemma_mc_rows_prefix(vs0, count as int);
                }
                let mut children: Vec<ColumnRef> = Vec::new();
                let mut k: usize = 0;
                while k < count
                    invariant
                        0 <= k <= count,
                        count == vs0.len(),
                        b.values@.len() == count,
                        b.data_type == dt0,
                        children@.len() == k,
                        forall|m: int| k <= m < count ==> b.values@[m] == vs0[m],
                        forall|m: int|
                            0 <= m < k ==> mc_wf(#[trigger] b.values@[m]) && mc_type(
                                b.values@[m],
                            ) == mc_type(vs0[m]) && mc_rows(b.values@[m]).len() == 0,
                        forall|m: int|
                            0 <= m < k ==> col_well_formed(#[trigger] *children@[m]) && col_len(
                                *children@[m],
                            ) == mc_rows(vs0[m]).len() && col_type(*children@[m]) == mc_type(
                                vs0[m],
                            ) && (forall|i: int|
                                0 <= i < col_len(*children@[m]) ==> col_value_at(
                                    *children@[m],
                                    i,
                                ) == mc_rows(vs0[m])[i]),
                    decreases count - k,
                {
                    let mut child = MutableColumn::Boolean(Vec::new());
                    b.values.set_and_swap(k, &mut child);
                    proof {
                        assert(child == vs0[k as int]);
                        match m0 {
                            MutableColumn::Struct(bb) => {
                                assert(decreases_to!(m0 => *bb));
                                assert(decreases_to!(*bb => bb.values));
                                assert(decreases_to!(bb.values => bb.values@));
                                assert(decreases_to!(bb.values@ => bb.values@[k as int]));
                                assert(bb.values@ == vs0);
                            },
                            _ => (),
                        }
                        lemma_mcs_wf_prefix(vs0, count as int);
                    }
                    let col = child.as_column();
                    b.values.set_and_swap(k, &mut child);
                    children.push(col);
                    k = k + 1;
                }
                let r = Arc::new(
                    Column::Struct(
                        StructColumn { values: children, data_type: clone_arc(&b.data_type) },
                    ),
                );
                proof {
                    assert forall|m: int| 0 <= m < count implies mc_rows(
                        #[trigger] vs0[m],
                    ).len() == mc_rows(vs0[0]).len() by {}
                    match &*r {
                        Column::Struct(sc) => {
                            lemma_frozen_struct_rows(vs0, sc);
                        },
                        _ => (),
                    }
                    assert(mc_rows(*old(self)) == struct_rows(vs0));
                    lemma_mcs_wf_prefix(b.values@, count as int);
                    lemma_empty_struct_builder(b.values@);
                    assert(mc_rows(*self) == struct_rows(b.values@));
                    assert forall|m: int| 0 <= m < count implies mc_rows(
                        #[trigger] b.values@[m],
                    ).len() == mc_rows(b.values@[0]).len() by {}
                }
                r
            },
            MutableColumn::Nullable(b) => {
                let column = b.values.as_column();
                let mut taken: Vec<bool> = Vec::new();
                core::mem::swap(&mut taken, &mut b.validity);
                let validity = Bitmap::from_data(taken);
                let r = Arc::new(Column::Nullable(NullableColumn { column, validity }));
                proof {
                    assert forall|i: int| 0 <= i < col_len(*r) implies col_value_at(*r, i)
                        == mc_rows(*old(self))[i] by {
                        assert(col_value_at(*r, i) == col_value_at(*column, i));
                    }
                }
                r
            },
            MutableColumn::Boolean(v) => {
                let mut taken: Vec<bool> = Vec::new();
                core::mem::swap(&mut taken, v);
                Arc::new(Column::Boolean(PrimitiveColumn::from_vec(taken)))
            },
            MutableColumn::Int8(v) => {
                let mut taken: Vec<i8> = Vec::new();
                core::mem::swap(&mut taken, v);
                Arc::new(Column::Int8(PrimitiveColumn::from_vec(taken)))
            },
            MutableColumn::Int16(v) => {
                let mut taken: Vec<i16> = Vec::new();
                core::mem::swap(&mut taken, v);
                Arc::new(Column::Int16(PrimitiveColumn::from_vec(taken)))
            },
            MutableColumn::Int32(v) => {
                let mut taken: Vec<i32> = Vec::new();
                core::mem::swap(&mut taken, v);
                Arc::new(Column::Int32(PrimitiveColumn::from_vec(taken)))
            },
            MutableColumn::Int64(v) => {
                let mut taken: Vec<i64> = Vec::new();
                core::mem::swap(&mut taken, v);
                Arc::new(Column::Int64(PrimitiveColumn::from_vec(taken)))
            },
            MutableColumn::UInt8(v) => {
                let mut taken: Vec<u8> = Vec::new();
                core::mem::swap(&mut taken, v);
                Arc::new(Column::UInt8(PrimitiveColumn::from_vec(taken)))
            },
            MutableColumn::UInt16(v) => {
                let mut taken: Vec<u16> = Vec::new();
                core::mem::swap(&mut taken, v);
                Arc::new(Column::UInt16(PrimitiveColumn::from_vec(taken)))
            },
            MutableColumn::UInt32(v) => {
                let mut taken: Vec<u32> = Vec::new();
                core::mem::swap(&mut taken, v);
                Arc::new(Column::UInt32(PrimitiveColumn::from_vec(taken)))
            },
            MutableColumn::UInt64(v) => {
                let mut taken: Vec<u64> = Vec::new();
                core::mem::swap(&mut taken, v);
                Arc::new(Column::UInt64(PrimitiveColumn::from_vec(taken)))
            },
            MutableColumn::String(v) => {
                let mut taken: Vec<String> = Vec::new();
                core::mem::swap(&mut taken, v);
                Arc::new(Column::String(StringColumn::from_vec(taken)))
            },
            MutableColumn::Array(b) => b.as_column(),
        }
    }
}

} // verus!
