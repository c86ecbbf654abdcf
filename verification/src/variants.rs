//! Constructors and accessors of the nullable, struct and array variants.

use crate::arcs::clone_arc;
use crate::bitmap::Bitmap;
use crate::column::ArrayColumn;
use crate::column::Column;
use crate::column::ColumnRef;
use crate::column::NullableColumn;
use crate::column::StructColumn;
use crate::column::col_len;
use crate::column::col_well_formed;
use crate::column::lemma_cols_well_formed_prefix;
use crate::types::DataType;
use crate::types::DataTypePtr;
use vstd::prelude::*;

verus! {

broadcast use vstd::seq::group_seq_axioms, vstd::std_specs::vec::group_vec_axioms;

impl NullableColumn {
    /// Wraps an inner column with a validity bitmap of the same length.
    /// Mismatched lengths are a caller bug, ruled out ahead of the call.
    pub fn new(column: ColumnRef, validity: Bitmap) -> (r: NullableColumn)
        requires
            col_well_formed(*column),
            !(*column is Nullable),
            validity.well_formed(),
            validity.bits().len() == col_len(*column),
        ensures
            r.column == column,
            r.validity.bits() == validity.bits(),
            col_well_formed(Column::Nullable(r)),
    {
        NullableColumn { column, validity }
    }

    /// The wrapped inner column.
    pub fn inner(&self) -> (r: &ColumnRef)
        ensures
            *r == self.column,
    {
        &self.column
    }

    /// The validity bitmap; a cleared bit denotes a null row.
    pub fn ensure_validity(&self) -> (r: &Bitmap)
        ensures
            *r == self.validity,
    {
        &self.validity
    }
}

impl StructColumn {
    /// Assembles a struct column from its child columns and its declared
    /// struct data type. The children must be non-empty, well formed,
    /// equal-length and as many as the type declares; violating that is a
    /// caller bug, ruled out ahead of the call.
    pub fn from_data(values: Vec<ColumnRef>, data_type: DataTypePtr) -> (r: StructColumn)
        requires
            values@.len() > 0,
            forall|k: int| 0 <= k < values@.len() ==> col_well_formed(#[trigger] *values@[k]),
            forall|k: int|
                0 <= k < values@.len() ==> col_len(#[trigger] *values@[k]) == col_len(*values@[0]),
            match *data_type {
                DataType::Struct(names, types) => names@.len() == values@.len() && types@.len()
                    == values@.len(),
                _ => false,
            },
        ensures
            r.values == values,
            r.data_type == data_type,
            col_well_formed(Column::Struct(r)),
    {
        proof {
            lemma_cols_well_formed_prefix(values@, values@.len() as int);
        }
        StructColumn { values, data_type }
    }

    /// The child columns, in field order.
    pub fn values(&self) -> (r: &Vec<ColumnRef>)
        ensures
            *r == self.values,
    {
        &self.values
    }

    /// The declared struct data type.
    pub fn data_type(&self) -> (r: DataTypePtr)
        ensures
            r == self.data_type,
    {
        clone_arc(&self.data_type)
    }
}

impl ArrayColumn {
    /// Assembles an array column from a cumulative offsets sequence (one
    /// leading entry, then one entry per row) and the flat child column.
    /// Malformed offsets are a caller bug, ruled out ahead of the call.
    pub fn from_data(data_type: DataTypePtr, offsets: Vec<i64>, values: ColumnRef) -> (r:
        ArrayColumn)
        requires
            col_well_formed(*values),
            offsets@.len() >= 1,
            forall|i: int| 0 <= i < offsets@.len() - 1 ==> #[trigger] offsets@[i] <= offsets@[i + 1],
            offsets@[0] >= 0,
            offsets@[offsets@.len() - 1] <= col_len(*values),
            *data_type is Array,
        ensures
            r.offsets@ == offsets@,
            r.start == 0,
            r.length == offsets@.len() - 1,
            r.values == values,
            r.data_type == data_type,
            col_well_formed(Column::Array(r)),
    {
        let length = offsets.len() - 1;
        ArrayColumn {
            data_type,
            offsets: std::sync::Arc::new(offsets),
            start: 0,
            length,
            values,
        }
    }
}

} // verus!
