use row_decoder::columns::ColumnType;
use row_decoder::columns::DecodeError;
use row_decoder::columns::FieldType;
use row_decoder::columns::SqlValue;
use row_decoder::columns::derive_check;
use row_decoder::records::RecordDirect;
use row_decoder::records::RecordManual;
use row_decoder::records::decode_direct;
use row_decoder::records::decode_nested;
use row_decoder::records::encode_direct;
use row_decoder::records::encode_manual;
use row_decoder::records::lookup_direct;
use row_decoder::records::lookup_manual;
use row_decoder::records::lookup_nested;
use row_decoder::records::record_direct_shape;
use row_decoder::records::record_nested_shape;
use row_decoder::records::select_declared;

fn sample_row() -> Vec<SqlValue> {
    vec![
        SqlValue::Integer(1),
        SqlValue::BigInt(42),
        SqlValue::BigInt(7),
        SqlValue::Text("x".to_string()),
    ]
}

#[test]
fn direct_decodes_all_columns() {
    let rec = decode_direct(sample_row()).expect("the sample row matches the flattened shape");
    assert_eq!(rec.iid, 1);
    assert_eq!(rec.id_0, 42);
    assert_eq!(rec.id_1, 7);
    assert_eq!(rec.data, "x");
}

#[test]
fn manual_build_reads_all_columns() {
    let rec = RecordManual::build((1, 42, 7, "x".to_string()));
    assert_eq!(rec.iid, 1);
    assert_eq!(rec.id.id_0, 42);
    assert_eq!(rec.id.id_1, 7);
    assert_eq!(rec.data, "x");
}

#[test]
fn nested_decode_fails_observably() {
    assert_eq!(decode_nested(sample_row()), Err(DecodeError::SchemaMismatch));
}

#[test]
fn nested_shape_is_refused_by_derivation() {
    assert_eq!(
        derive_check(&record_nested_shape(), &sample_row()),
        Err(DecodeError::SchemaMismatch)
    );
}

#[test]
fn direct_shape_is_accepted_by_derivation() {
    assert_eq!(derive_check(&record_direct_shape(), &sample_row()), Ok(()));
}

#[test]
fn direct_decode_twice_is_identical() {
    let first = decode_direct(sample_row());
    let second = decode_direct(sample_row());
    assert_eq!(first, second);
}

#[test]
fn manual_build_twice_is_identical() {
    let first = RecordManual::build((1, 42, 7, "x".to_string()));
    let second = RecordManual::build((1, 42, 7, "x".to_string()));
    assert_eq!(first, second);
}

#[test]
fn nested_decode_twice_is_identical() {
    assert_eq!(decode_nested(sample_row()), decode_nested(sample_row()));
}

#[test]
fn absent_row_is_row_not_found_for_every_strategy() {
    assert_eq!(lookup_nested(None), Err(DecodeError::RowNotFound));
    assert_eq!(lookup_manual(None), Err(DecodeError::RowNotFound));
    assert_eq!(lookup_direct(None), Err(DecodeError::RowNotFound));
}

#[test]
fn found_row_decodes_through_lookup() {
    let rec = lookup_direct(Some(sample_row())).expect("a found row of the declared shape decodes");
    assert_eq!(rec.iid, 1);
    assert_eq!(rec.id_0, 42);
    assert_eq!(rec.id_1, 7);
    assert_eq!(rec.data, "x");

    let rec = lookup_manual(Some((1, 42, 7, "x".to_string())))
        .expect("the manual strategy decodes every row of the declared shape");
    assert_eq!(rec.iid, 1);
    assert_eq!(rec.id.id_0, 42);
    assert_eq!(rec.id.id_1, 7);
    assert_eq!(rec.data, "x");

    assert_eq!(lookup_nested(Some(sample_row())), Err(DecodeError::SchemaMismatch));
}

#[test]
fn direct_round_trip_reproduces_record() {
    let rec = RecordDirect { iid: 1, id_0: 42, id_1: 7, data: "x".to_string() };
    assert_eq!(decode_direct(encode_direct(rec.clone())), Ok(rec));
}

#[test]
fn manual_round_trip_reproduces_record() {
    let rec = RecordManual::build((1, 42, 7, "x".to_string()));
    assert_eq!(RecordManual::build(encode_manual(rec.clone())), rec);
}

#[test]
fn added_column_leaves_decoded_values_unchanged() {
    let mut grown = sample_row();
    grown.push(SqlValue::Integer(99));
    assert_eq!(decode_direct(select_declared(grown)), decode_direct(sample_row()));
}

#[test]
fn wrong_column_type_is_schema_mismatch() {
    let row = vec![
        SqlValue::BigInt(1),
        SqlValue::BigInt(42),
        SqlValue::BigInt(7),
        SqlValue::Text("x".to_string()),
    ];
    assert_eq!(decode_direct(row), Err(DecodeError::SchemaMismatch));
}

#[test]
fn wrong_column_count_is_schema_mismatch() {
    let row = vec![SqlValue::Integer(1), SqlValue::BigInt(42), SqlValue::BigInt(7)];
    assert_eq!(decode_direct(row), Err(DecodeError::SchemaMismatch));
}

#[test]
fn empty_row_is_schema_mismatch() {
    assert_eq!(decode_direct(Vec::new()), Err(DecodeError::SchemaMismatch));
    assert_eq!(decode_nested(Vec::new()), Err(DecodeError::SchemaMismatch));
}

#[test]
fn direct_encode_emits_columns_in_declared_order() {
    let rec = RecordDirect { iid: 1, id_0: 42, id_1: 7, data: "x".to_string() };
    let row = encode_direct(rec);
    assert_eq!(row.len(), 4);
    assert_eq!(row[0], SqlValue::Integer(1));
    assert_eq!(row[1], SqlValue::BigInt(42));
    assert_eq!(row[2], SqlValue::BigInt(7));
    assert_eq!(row[3], SqlValue::Text("x".to_string()));
}

#[test]
fn manual_encode_emits_fields_positionally() {
    let rec = RecordManual::build((1, 42, 7, "x".to_string()));
    assert_eq!(encode_manual(rec), (1, 42, 7, "x".to_string()));
}

#[test]
fn shapes_declare_the_expected_fields() {
    let nested = record_nested_shape();
    assert_eq!(
        nested,
        vec![
            FieldType::Column(ColumnType::Integer),
            FieldType::Composite,
            FieldType::Column(ColumnType::Text),
        ]
    );
    let direct = record_direct_shape();
    assert_eq!(
        direct,
        vec![
            FieldType::Column(ColumnType::Integer),
            FieldType::Column(ColumnType::BigInt),
            FieldType::Column(ColumnType::BigInt),
            FieldType::Column(ColumnType::Text),
        ]
    );
}

#[test]
fn negative_and_extreme_components_survive_decoding() {
    let row = vec![
        SqlValue::Integer(i32::MIN),
        SqlValue::BigInt(i64::MIN),
        SqlValue::BigInt(i64::MAX),
        SqlValue::Text(String::new()),
    ];
    let rec = decode_direct(row).expect("extreme scalars still match the flattened shape");
    assert_eq!(rec.iid, i32::MIN);
    assert_eq!(rec.id_0, i64::MIN);
    assert_eq!(rec.id_1, i64::MAX);
    assert_eq!(rec.data, "");
}
