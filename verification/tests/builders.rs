//! The mutable builders: appending defaults, freezing, and reuse.

use datavalues::column::Column;
use datavalues::mutable::MutableArrayColumn;
use datavalues::mutable::MutableColumn;
use datavalues::types::DataType;
use datavalues::value::DataValue;
use std::sync::Arc;

#[test]
fn array_append_default_appends_one_element_rows() {
    let data_type = Arc::new(DataType::Array(Arc::new(DataType::Int8)));
    let mut builder = MutableArrayColumn::new(data_type, Box::new(MutableColumn::Int8(Vec::new())));
    assert_eq!(builder.len(), 0);
    builder.append_default();
    assert_eq!(builder.len(), 1);
    let column = builder.finish();
    let column = Column::Array(column);
    assert_eq!(column.len(), 1);
    match column.get_unchecked(0) {
        DataValue::Array(items) => {
            assert_eq!(items.len(), 1);
            assert!(matches!(items[0], DataValue::Int64(0)));
        }
        _ => panic!("expected an array value"),
    }
}

#[test]
fn finish_resets_the_builder_for_reuse() {
    let data_type = Arc::new(DataType::Array(Arc::new(DataType::Int8)));
    let mut builder = MutableArrayColumn::new(data_type, Box::new(MutableColumn::Int8(Vec::new())));
    builder.append_default();
    builder.append_default();
    let first = builder.finish();
    assert_eq!(Column::Array(first).len(), 2);
    assert_eq!(builder.len(), 0);
    builder.append_default();
    let second = builder.finish();
    let second = Column::Array(second);
    assert_eq!(second.len(), 1);
    match second.get_unchecked(0) {
        DataValue::Array(items) => assert_eq!(items.len(), 1),
        _ => panic!("expected an array value"),
    }
}

#[test]
fn flat_builders_append_defaults_and_freeze() {
    let mut builder = MutableColumn::String(Vec::new());
    builder.append_default();
    builder.append_default();
    assert_eq!(builder.len(), 2);
    assert!(matches!(*builder.data_type(), DataType::String));
    let column = builder.as_column();
    assert_eq!(column.len(), 2);
    match column.get_unchecked(0) {
        DataValue::String(s) => assert_eq!(s, ""),
        _ => panic!("expected a string value"),
    }
    assert_eq!(builder.len(), 0);
}

#[test]
fn nested_array_builder_defaults_are_one_element_deep() {
    let inner_type = Arc::new(DataType::Array(Arc::new(DataType::UInt8)));
    let inner = MutableArrayColumn::new(inner_type.clone(), Box::new(MutableColumn::UInt8(Vec::new())));
    let outer_type = Arc::new(DataType::Array(inner_type));
    let mut outer = MutableArrayColumn::new(outer_type, Box::new(MutableColumn::Array(Box::new(inner))));
    outer.append_default();
    let column = Column::Array(outer.finish());
    assert_eq!(column.len(), 1);
    match column.get_unchecked(0) {
        DataValue::Array(items) => {
            assert_eq!(items.len(), 1);
            match &items[0] {
                DataValue::Array(inner_items) => {
                    assert_eq!(inner_items.len(), 1);
                    assert!(matches!(inner_items[0], DataValue::UInt64(0)));
                }
                _ => panic!("expected a nested array"),
            }
        }
        _ => panic!("expected an array value"),
    }
}

#[test]
fn nullable_builder_appends_null_defaults() {
    let mut builder = MutableColumn::Nullable(Box::new(
        datavalues::mutable::MutableNullableColumn {
            values: Box::new(MutableColumn::Int8(Vec::new())),
            validity: Vec::new(),
        },
    ));
    builder.append_default();
    builder.append_default();
    assert_eq!(builder.len(), 2);
    assert!(matches!(*builder.data_type(), DataType::Nullable(_)));
    let column = builder.as_column();
    assert_eq!(column.len(), 2);
    assert!(column.is_nullable());
    assert!(column.null_at(0));
    assert!(column.null_at(1));
    assert!(column.only_null());
    assert!(matches!(column.get_unchecked(1), DataValue::Int64(0)));
    assert_eq!(builder.len(), 0);
}

#[test]
fn struct_builder_appends_defaults_to_every_child() {
    let data_type = Arc::new(DataType::Struct(
        vec!["num".to_owned(), "text".to_owned()],
        vec![Arc::new(DataType::Int8), Arc::new(DataType::String)],
    ));
    let mut builder = MutableColumn::Struct(Box::new(datavalues::mutable::MutableStructColumn {
        values: vec![MutableColumn::Int8(Vec::new()), MutableColumn::String(Vec::new())],
        data_type,
    }));
    builder.append_default();
    assert_eq!(builder.len(), 1);
    let column = builder.as_column();
    assert_eq!(column.len(), 1);
    match column.get_unchecked(0) {
        DataValue::Struct(fields) => {
            assert_eq!(fields.len(), 2);
            assert!(matches!(fields[0], DataValue::Int64(0)));
            match &fields[1] {
                DataValue::String(s) => assert_eq!(s, ""),
                _ => panic!("expected a string field"),
            }
        }
        _ => panic!("expected a struct value"),
    }
    assert_eq!(builder.len(), 0);
}
