//! Entry points for building whole columns out of plain value buffers.

use crate::column::Column;
use crate::column::ColumnRef;
use crate::column::PrimitiveColumn;
use crate::column::StringColumn;
use crate::column::col_len;
use crate::column::col_value_at;
use crate::column::col_well_formed;
use crate::value::ValueModel;
use std::sync::Arc;
use vstd::prelude::*;

verus! {

broadcast use vstd::seq::group_seq_axioms, vstd::std_specs::vec::group_vec_axioms;

/// Builds immutable columns from fully-owned value buffers, one
/// constructor per storage kind.
pub struct Series;

impl Series {
    /// A boolean column over the given values.
    pub fn from_bool_data(values: Vec<bool>) -> (r: ColumnRef)
        ensures
            col_well_formed(*r),
            col_len(*r) == values@.len(),
            forall|i: int|
                0 <= i < values@.len() ==> col_value_at(*r, i) == ValueModel::Bool(values@[i]),
    {
        Arc::new(Column::Boolean(PrimitiveColumn::from_vec(values)))
    }

    /// A signed 8-bit integer column over the given values.
    pub fn from_i8_data(values: Vec<i8>) -> (r: ColumnRef)
        ensures
            col_well_formed(*r),
            col_len(*r) == values@.len(),
            forall|i: int|
                0 <= i < values@.len() ==> col_value_at(*r, i) == ValueModel::Int(
                    values@[i] as i64,
                ),
    {
        Arc::new(Column::Int8(PrimitiveColumn::from_vec(values)))
    }

    /// A signed 32-bit integer column over the given values; also the
    /// storage of a `Date32` column of epoch day counts.
    pub fn from_i32_data(values: Vec<i32>) -> (r: ColumnRef)
        ensures
            col_well_formed(*r),
            col_len(*r) == values@.len(),
            forall|i: int|
                0 <= i < values@.len() ==> col_value_at(*r, i) == ValueModel::Int(
                    values@[i] as i64,
                ),
    {
        Arc::new(Column::Int32(PrimitiveColumn::from_vec(values)))
    }

    /// A signed 64-bit integer column over the given values.
    pub fn from_i64_data(values: Vec<i64>) -> (r: ColumnRef)
        ensures
            col_well_formed(*r),
            col_len(*r) == values@.len(),
            forall|i: int|
                0 <= i < values@.len() ==> col_value_at(*r, i) == ValueModel::Int(values@[i]),
    {
        Arc::new(Column::Int64(PrimitiveColumn::from_vec(values)))
    }

    /// An unsigned 16-bit integer column over the given values; also the
    /// storage of a `Date` column of epoch day counts.
    pub fn from_u16_data(values: Vec<u16>) -> (r: ColumnRef)
        ensures
            col_well_formed(*r),
            col_len(*r) == values@.len(),
            forall|i: int|
                0 <= i < values@.len() ==> col_value_at(*r, i) == ValueModel::UInt(
                    values@[i] as u64,
                ),
    {
        Arc::new(Column::UInt16(PrimitiveColumn::from_vec(values)))
    }

    /// An unsigned 32-bit integer column over the given values; also the
    /// storage of a `DateTime32` column of epoch seconds.
    pub fn from_u32_data(values: Vec<u32>) -> (r: ColumnRef)
        ensures
            col_well_formed(*r),
            col_len(*r) == values@.len(),
            forall|i: int|
                0 <= i < values@.len() ==> col_value_at(*r, i) == ValueModel::UInt(
                    values@[i] as u64,
                ),
    {
        Arc::new(Column::UInt32(PrimitiveColumn::from_vec(values)))
    }

    /// An unsigned 64-bit integer column over the given values.
    pub fn from_u64_data(values: Vec<u64>) -> (r: ColumnRef)
        ensures
            col_well_formed(*r),
            col_len(*r) == values@.len(),
            forall|i: int|
                0 <= i < values@.len() ==> col_value_at(*r, i) == ValueModel::UInt(values@[i]),
    {
        Arc::new(Column::UInt64(PrimitiveColumn::from_vec(values)))
    }

    /// A string column over the given values.
    pub fn from_string_data(values: Vec<String>) -> (r: ColumnRef)
        ensures
            col_well_formed(*r),
            col_len(*r) == values@.len(),
            forall|i: int|
                0 <= i < values@.len() ==> col_value_at(*r, i) == ValueModel::Str(values@[i]@),
    {
        Arc::new(Column::String(StringColumn::from_vec(values)))
    }
}

} // verus!
