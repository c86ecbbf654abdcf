//! Serialization of single values and whole columns, per data type.

use datavalues::column::Column;
use datavalues::series::Series;
use datavalues::types::DataType;
use datavalues::value::DataValue;
use std::sync::Arc;

#[test]
fn test_serializers() {
    {
        let data_type = DataType::Boolean;
        let serializer = data_type.create_serializer();
        let value = DataValue::Boolean(true);
        assert_eq!(serializer.serialize_value(&value).unwrap(), "1");
        let column = Series::from_bool_data(vec![true, false, true]);
        assert_eq!(
            serializer.serialize_column(&column).unwrap(),
            vec!["1".to_owned(), "0".to_owned(), "1".to_owned()]
        );
    }
    {
        let data_type = DataType::Int8;
        let serializer = data_type.create_serializer();
        let value = DataValue::Int64(1);
        assert_eq!(serializer.serialize_value(&value).unwrap(), "1");
        let column = Series::from_i8_data(vec![1i8, 2i8, 1]);
        assert_eq!(
            serializer.serialize_column(&column).unwrap(),
            vec!["1".to_owned(), "2".to_owned(), "1".to_owned()]
        );
    }
    {
        let data_type = DataType::DateTime32;
        let serializer = data_type.create_serializer();
        let value = DataValue::UInt64(1630320462);
        assert_eq!(serializer.serialize_value(&value).unwrap(), "2021-08-30 10:47:42");
        let column = Series::from_u32_data(vec![1630320462u32, 1637117572u32, 1]);
        assert_eq!(
            serializer.serialize_column(&column).unwrap(),
            vec![
                "2021-08-30 10:47:42".to_owned(),
                "2021-11-17 02:52:52".to_owned(),
                "1970-01-01 00:00:01".to_owned(),
            ]
        );
    }
    {
        let data_type = DataType::Date32;
        let serializer = data_type.create_serializer();
        let value = DataValue::Int64(18869);
        assert_eq!(serializer.serialize_value(&value).unwrap(), "2021-08-30");
        let column = Series::from_i32_data(vec![18869i32, 18948i32, 1]);
        assert_eq!(
            serializer.serialize_column(&column).unwrap(),
            vec!["2021-08-30".to_owned(), "2021-11-17".to_owned(), "1970-01-02".to_owned()]
        );
    }
    {
        let data_type = DataType::String;
        let serializer = data_type.create_serializer();
        let value = DataValue::String("hello".to_owned());
        assert_eq!(serializer.serialize_value(&value).unwrap(), "hello");
        let column = Series::from_string_data(vec![
            "hello".to_owned(),
            "world".to_owned(),
            "NULL".to_owned(),
        ]);
        assert_eq!(
            serializer.serialize_column(&column).unwrap(),
            vec!["hello".to_owned(), "world".to_owned(), "NULL".to_owned()]
        );
    }
}

#[test]
fn struct_serializer_quotes_strings_and_dates() {
    let data_type = DataType::Struct(
        vec!["item_1".to_owned(), "item_2".to_owned(), "item_3".to_owned()],
        vec![
            Arc::new(DataType::String),
            Arc::new(DataType::Boolean),
            Arc::new(DataType::Date),
        ],
    );
    let serializer = data_type.create_serializer();
    let value = DataValue::Struct(vec![
        DataValue::String("hello".to_owned()),
        DataValue::Boolean(true),
        DataValue::UInt64(18869),
    ]);
    let result = serializer.serialize_value(&value).unwrap();
    assert_eq!(result, "('hello', 1, '2021-08-30')");
}

#[test]
fn struct_serializer_keeps_field_order_over_a_column() {
    let data_type = Arc::new(DataType::Struct(
        vec!["a".to_owned(), "b".to_owned()],
        vec![Arc::new(DataType::Int8), Arc::new(DataType::String)],
    ));
    let children = vec![
        Series::from_i8_data(vec![1i8, 2i8]),
        Series::from_string_data(vec!["x".to_owned(), "y".to_owned()]),
    ];
    let column = Arc::new(Column::Struct(datavalues::column::StructColumn::from_data(
        children,
        data_type.clone(),
    )));
    let serializer = data_type.create_serializer();
    assert_eq!(
        serializer.serialize_column(&column).unwrap(),
        vec!["(1, 'x')".to_owned(), "(2, 'y')".to_owned()]
    );
}

#[test]
fn serializer_rejects_mismatched_values_and_columns() {
    let serializer_type = DataType::Int8;
    let serializer = serializer_type.create_serializer();
    let err = serializer.serialize_value(&DataValue::String("x".to_owned())).unwrap_err();
    assert_eq!(err.code(), 1010);
    let err = serializer.serialize_value(&DataValue::Int64(300)).unwrap_err();
    assert_eq!(err.code(), 1010);
    let column = Series::from_u32_data(vec![5u32]);
    let err = serializer.serialize_column(&column).unwrap_err();
    assert_eq!(err.code(), 1010);
}

#[test]
fn date_serializer_rejects_years_out_of_range() {
    let data_type = DataType::Date32;
    let serializer = data_type.create_serializer();
    let err = serializer.serialize_value(&DataValue::Int64(3_000_000)).unwrap_err();
    assert_eq!(err.code(), 1010);
    assert_eq!(serializer.serialize_value(&DataValue::Int64(-1)).unwrap(), "1969-12-31");
    assert_eq!(serializer.serialize_value(&DataValue::Int64(0)).unwrap(), "1970-01-01");
}

#[test]
fn datetime_serializer_covers_the_whole_second_range() {
    let data_type = DataType::DateTime32;
    let serializer = data_type.create_serializer();
    assert_eq!(serializer.serialize_value(&DataValue::UInt64(0)).unwrap(), "1970-01-01 00:00:00");
    assert_eq!(
        serializer.serialize_value(&DataValue::UInt64(4294967295)).unwrap(),
        "2106-02-07 06:28:15"
    );
    assert_eq!(
        serializer.serialize_value(&DataValue::UInt64(951782400)).unwrap(),
        "2000-02-29 00:00:00"
    );
}

#[test]
fn signed_serializers_render_negative_numbers() {
    let serializer_type = DataType::Int64;
    let serializer = serializer_type.create_serializer();
    assert_eq!(serializer.serialize_value(&DataValue::Int64(-42)).unwrap(), "-42");
    assert_eq!(
        serializer.serialize_value(&DataValue::Int64(i64::MIN)).unwrap(),
        "-9223372036854775808"
    );
    assert_eq!(
        serializer.serialize_value(&DataValue::UInt64(7)).unwrap(),
        "7"
    );
}

#[test]
fn column_serialization_agrees_with_value_serialization_row_by_row() {
    let cases: Vec<(DataType, datavalues::column::ColumnRef)> = vec![
        (DataType::Int8, Series::from_i8_data(vec![5i8, -3i8, 0])),
        (
            DataType::String,
            Series::from_string_data(vec!["one".to_owned(), "two".to_owned()]),
        ),
        (DataType::Date32, Series::from_i32_data(vec![0, 18869, -1])),
    ];
    for (data_type, column) in cases {
        let serializer = data_type.create_serializer();
        let texts = serializer.serialize_column(&column).unwrap();
        assert_eq!(texts.len(), column.len());
        for i in 0..column.len() {
            let value = column.get_unchecked(i);
            assert_eq!(texts[i], serializer.serialize_value(&value).unwrap());
        }
    }
}
