//! The column capability contract: slicing, replication, nullability,
//! struct field order and value extraction.

use datavalues::bitmap::Bitmap;
use datavalues::column::Column;
use datavalues::column::NullableColumn;
use datavalues::column::StructColumn;
use datavalues::series::Series;
use datavalues::types::DataType;
use datavalues::value::DataValue;
use std::sync::Arc;

#[test]
fn slice_rows_equal_source_rows() {
    let column = Series::from_i32_data(vec![10, 20, 30, 40, 50]);
    let sliced = column.slice(1, 3);
    assert_eq!(sliced.len(), 3);
    for i in 0..3 {
        let a = sliced.get_unchecked(i);
        let b = column.get_unchecked(1 + i);
        match (a, b) {
            (DataValue::Int64(x), DataValue::Int64(y)) => assert_eq!(x, y),
            _ => panic!("unexpected value kinds"),
        }
    }
}

#[test]
fn slice_of_nullable_keeps_values_and_validity_aligned() {
    let inner = Series::from_i8_data(vec![1, 2, 3, 4]);
    let validity = Bitmap::from_data(vec![true, false, true, false]);
    let column = Arc::new(Column::Nullable(NullableColumn::new(inner, validity)));
    let sliced = column.slice(1, 2);
    assert_eq!(sliced.len(), 2);
    assert!(sliced.null_at(0));
    assert!(!sliced.null_at(1));
    match sliced.get_unchecked(1) {
        DataValue::Int64(x) => assert_eq!(x, 3),
        _ => panic!("unexpected value kind"),
    }
}

#[test]
fn replicate_repeats_each_row_by_its_count() {
    let column = Series::from_i8_data(vec![1, 2, 3]);
    let replicated = column.replicate(&[2, 4, 7]);
    assert_eq!(replicated.len(), 7);
    let expected = [1i64, 1, 2, 2, 3, 3, 3];
    for (i, want) in expected.iter().enumerate() {
        match replicated.get_unchecked(i) {
            DataValue::Int64(x) => assert_eq!(x, *want),
            _ => panic!("unexpected value kind"),
        }
    }
}

#[test]
fn replicate_of_nullable_repeats_validity_bits() {
    let inner = Series::from_i8_data(vec![9, 8]);
    let validity = Bitmap::from_data(vec![false, true]);
    let column = Arc::new(Column::Nullable(NullableColumn::new(inner, validity)));
    let replicated = column.replicate(&[3, 5]);
    assert_eq!(replicated.len(), 5);
    assert!(replicated.null_at(0));
    assert!(replicated.null_at(1));
    assert!(replicated.null_at(2));
    assert!(!replicated.null_at(3));
    assert!(!replicated.null_at(4));
}

#[test]
fn nullable_consistency_between_null_at_and_only_null() {
    let inner = Series::from_i8_data(vec![1, 2, 3]);
    let validity = Bitmap::from_data(vec![true, false, true]);
    let column = Column::Nullable(NullableColumn::new(inner, validity));
    assert!(!column.null_at(0));
    assert!(column.null_at(1));
    assert!(!column.null_at(2));
    assert!(!column.only_null());

    let all_null = Column::Nullable(NullableColumn::new(
        Series::from_i8_data(vec![1, 2]),
        Bitmap::from_data(vec![false, false]),
    ));
    assert!(all_null.null_at(0));
    assert!(all_null.null_at(1));
    assert!(all_null.only_null());

    let empty = Column::Nullable(NullableColumn::new(
        Series::from_i8_data(vec![]),
        Bitmap::from_data(vec![]),
    ));
    assert!(!empty.only_null());

    let plain = Series::from_i8_data(vec![1]);
    assert!(!plain.null_at(0));
    assert!(!plain.only_null());
}

#[test]
fn nullable_get_reads_the_requested_row() {
    // The validity overlay must not disturb which inner row is read: the
    // value behind row 2 is the inner column's row 2, not row 0.
    let inner = Series::from_i8_data(vec![7, 8, 9]);
    let validity = Bitmap::from_data(vec![true, true, false]);
    let column = Column::Nullable(NullableColumn::new(inner, validity));
    match column.get_unchecked(2) {
        DataValue::Int64(x) => assert_eq!(x, 9),
        _ => panic!("unexpected value kind"),
    }
    match column.get_unchecked(1) {
        DataValue::Int64(x) => assert_eq!(x, 8),
        _ => panic!("unexpected value kind"),
    }
}

#[test]
fn struct_rows_keep_declared_field_order() {
    let data_type = Arc::new(DataType::Struct(
        vec!["num".to_owned(), "text".to_owned()],
        vec![Arc::new(DataType::Int8), Arc::new(DataType::String)],
    ));
    let children = vec![
        Series::from_i8_data(vec![1, 2, 3]),
        Series::from_string_data(vec!["a".to_owned(), "b".to_owned(), "c".to_owned()]),
    ];
    let column = Column::Struct(StructColumn::from_data(children, data_type));
    assert_eq!(column.len(), 3);
    for i in 0..3 {
        match column.get_unchecked(i) {
            DataValue::Struct(fields) => {
                assert_eq!(fields.len(), 2);
                assert!(matches!(fields[0], DataValue::Int64(_)));
                assert!(matches!(fields[1], DataValue::String(_)));
            }
            _ => panic!("expected a struct value"),
        }
    }
}

#[test]
fn struct_slice_and_replicate_transform_all_children() {
    let data_type = Arc::new(DataType::Struct(
        vec!["num".to_owned(), "text".to_owned()],
        vec![Arc::new(DataType::Int8), Arc::new(DataType::String)],
    ));
    let children = vec![
        Series::from_i8_data(vec![1, 2, 3]),
        Series::from_string_data(vec!["a".to_owned(), "b".to_owned(), "c".to_owned()]),
    ];
    let column = Arc::new(Column::Struct(StructColumn::from_data(children, data_type)));
    let sliced = column.slice(1, 2);
    assert_eq!(sliced.len(), 2);
    match sliced.get_unchecked(0) {
        DataValue::Struct(fields) => {
            assert!(matches!(fields[0], DataValue::Int64(2)));
            match &fields[1] {
                DataValue::String(s) => assert_eq!(s, "b"),
                _ => panic!("expected a string field"),
            }
        }
        _ => panic!("expected a struct value"),
    }
    let replicated = column.replicate(&[1, 1, 3]);
    assert_eq!(replicated.len(), 3);
    match replicated.get_unchecked(2) {
        DataValue::Struct(fields) => assert!(matches!(fields[0], DataValue::Int64(3))),
        _ => panic!("expected a struct value"),
    }
}

#[test]
fn convert_full_column_preserves_rows() {
    let column = Series::from_string_data(vec!["p".to_owned(), "q".to_owned()]);
    let sliced = column.slice(1, 1);
    let full = sliced.convert_full_column();
    assert_eq!(full.len(), 1);
    match full.get_unchecked(0) {
        DataValue::String(s) => assert_eq!(s, "q"),
        _ => panic!("unexpected value kind"),
    }
}

#[test]
fn capability_queries_report_type_length_and_validity() {
    let plain = Series::from_u16_data(vec![4, 5, 6]);
    assert_eq!(plain.len(), 3);
    assert!(!plain.is_nullable());
    let (const_null, bitmap) = plain.validity();
    assert!(!const_null);
    assert!(bitmap.is_none());
    assert!(matches!(*plain.data_type(), DataType::UInt16));
    assert_eq!(plain.memory_size(), 6);

    let nullable = Column::Nullable(NullableColumn::new(
        Series::from_u16_data(vec![4, 5, 6]),
        Bitmap::from_data(vec![true, true, false]),
    ));
    assert!(nullable.is_nullable());
    let (const_null, bitmap) = nullable.validity();
    assert!(!const_null);
    let bits = bitmap.unwrap();
    assert_eq!(bits.len(), 3);
    assert_eq!(bits.null_count(), 1);
    assert!(matches!(*nullable.data_type(), DataType::Nullable(_)));
}

#[test]
fn checked_get_rejects_out_of_range_rows() {
    let column = Series::from_i8_data(vec![1, 2]);
    assert!(column.get(1).is_some());
    assert!(column.get(2).is_none());
}
