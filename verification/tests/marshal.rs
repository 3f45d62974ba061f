//! The value marshaler: typed getters, kind codes, column metadata,
//! UTF-8 validation, and the string/blob round trips.

use libsql_bindings::boundary::complete_next_row;
use libsql_bindings::errors::ErrorOut;
use libsql_bindings::params::PositionalParams;
use libsql_bindings::handles::HandleTable;
use libsql_bindings::rows::{Cursor, Row};
use libsql_bindings::text::validate_utf8;
use libsql_bindings::values::{
    Value, KIND_BLOB, KIND_INTEGER, KIND_NULL, KIND_REAL, KIND_TEXT,
};

fn sample_row() -> Row {
    Row::from_values(vec![
        Value::Integer(-7),
        Value::Real(2.5f64.to_bits()),
        Value::Text(b"hello".to_vec()),
        Value::Blob(vec![0, 159, 146, 150]),
        Value::Null,
    ])
}

#[test]
fn kind_codes_match_the_wire_contract() {
    assert_eq!(Value::Integer(1).type_code(), 1);
    assert_eq!(Value::Real(0).type_code(), 2);
    assert_eq!(Value::Text(Vec::new()).type_code(), 3);
    assert_eq!(Value::Blob(Vec::new()).type_code(), 4);
    assert_eq!(Value::Null.type_code(), 5);
    assert_eq!(
        (KIND_INTEGER, KIND_REAL, KIND_TEXT, KIND_BLOB, KIND_NULL),
        (1, 2, 3, 4, 5)
    );
}

#[test]
fn getters_return_the_stored_values() {
    let row = sample_row();
    let mut err = ErrorOut::wanted();
    assert_eq!(row.get_int(0, &mut err), (0, Some(-7)));
    let (st, bits) = row.get_float_bits(1, &mut err);
    assert_eq!(st, 0);
    assert_eq!(f64::from_bits(bits.unwrap()), 2.5);
    assert_eq!(row.get_text(2, &mut err), (0, Some(b"hello".to_vec())));
    assert_eq!(row.get_blob(3, &mut err), (0, Some(vec![0, 159, 146, 150])));
    assert!(err.take_message().is_none());
}

#[test]
fn kind_mismatch_always_fails_and_never_coerces() {
    let row = sample_row();
    let mut err = ErrorOut::wanted();
    // an integer asked from a text cell
    let (st, v) = row.get_int(2, &mut err);
    assert_eq!((st, v), (1, None));
    assert_eq!(err.take_message().unwrap(), b"Value not an integer".to_vec());
    // a string asked from an integer cell
    let (st, v) = row.get_text(0, &mut err);
    assert_eq!((st, v), (1, None));
    assert_eq!(err.take_message().unwrap(), b"Value not a string".to_vec());
    // a float asked from a null cell
    let (st, v) = row.get_float_bits(4, &mut err);
    assert_eq!((st, v), (1, None));
    assert_eq!(err.take_message().unwrap(), b"Value not a float".to_vec());
    // a blob asked from a real cell
    let (st, v) = row.get_blob(1, &mut err);
    assert_eq!((st, v), (1, None));
    assert_eq!(err.take_message().unwrap(), b"Value not a blob".to_vec());
}

#[test]
fn out_of_range_cell_is_a_fetch_failure() {
    let row = sample_row();
    let mut err = ErrorOut::wanted();
    let (st, v) = row.get_int(5, &mut err);
    assert_eq!((st, v), (2, None));
    assert_eq!(
        err.take_message().unwrap(),
        b"Error fetching value: no such column".to_vec()
    );
    let (st, v) = row.get_int(-1, &mut err);
    assert_eq!((st, v), (2, None));
}

#[test]
fn text_round_trip_is_byte_for_byte() {
    let original = "grüße 漢字".as_bytes().to_vec();
    let row = Row::from_values(vec![Value::Text(original.clone())]);
    let mut err = ErrorOut::wanted();
    let (st, got) = row.get_text(0, &mut err);
    assert_eq!(st, 0);
    let got = got.unwrap();
    assert_eq!(got, original);
    // the returned buffer is independent of the row
    drop(row);
    assert_eq!(got, original);
}

#[test]
fn blob_round_trip_keeps_length_and_content() {
    let original: Vec<u8> = (0..=255).collect();
    let row = Row::from_values(vec![Value::Blob(original.clone())]);
    let mut err = ErrorOut::wanted();
    let (st, got) = row.get_blob(0, &mut err);
    assert_eq!(st, 0);
    let got = got.unwrap();
    assert_eq!(got.len(), 256);
    assert_eq!(got, original);
}

#[test]
fn column_metadata_is_bounds_checked() {
    let cursor = Cursor::from_names(vec![b"id".to_vec(), b"name".to_vec()]);
    assert_eq!(cursor.column_count(), 2);
    let mut err = ErrorOut::wanted();
    let (st, name) = cursor.column_name(1, &mut err);
    assert_eq!(st, 0);
    assert_eq!(name.unwrap(), b"name".to_vec());
    assert!(err.take_message().is_none());

    let (st, name) = cursor.column_name(5, &mut err);
    assert_eq!((st, name), (1, None));
    assert_eq!(
        err.take_message().unwrap(),
        b"Column index too big - got index 5 with 2 columns".to_vec()
    );

    let (st, name) = cursor.column_name(-1, &mut err);
    assert_eq!((st, name), (1, None));
    assert_eq!(
        err.take_message().unwrap(),
        b"Column should have valid index".to_vec()
    );
}

#[test]
fn column_name_with_interior_nul_is_rejected() {
    let cursor = Cursor::from_names(vec![b"a\0b".to_vec()]);
    let mut err = ErrorOut::wanted();
    let (st, name) = cursor.column_name(0, &mut err);
    assert_eq!((st, name), (1, None));
    assert_eq!(
        err.take_message().unwrap(),
        b"Invalid name: interior nul byte".to_vec()
    );
}

#[test]
fn column_type_reports_the_stored_kind() {
    let cursor = Cursor::from_names(vec![b"a".to_vec(), b"b".to_vec(), b"c".to_vec()]);
    let row = Row::from_values(vec![Value::Null, Value::Text(b"x".to_vec())]);
    let mut err = ErrorOut::wanted();
    assert_eq!(cursor.column_type(&row, 0, &mut err), (0, Some(KIND_NULL)));
    assert_eq!(cursor.column_type(&row, 1, &mut err), (0, Some(KIND_TEXT)));
    // within the cursor's count but past the row's cells: fetch failure
    assert_eq!(cursor.column_type(&row, 2, &mut err), (2, None));
    let _ = err.take_message();
    // past the cursor's count: bounds failure with the count named
    assert_eq!(cursor.column_type(&row, 3, &mut err), (1, None));
    assert_eq!(
        err.take_message().unwrap(),
        b"Column index too big - got index 3 with 3 columns".to_vec()
    );
}

#[test]
fn utf8_validation_agrees_with_the_standard_library() {
    let samples: Vec<Vec<u8>> = vec![
        b"".to_vec(),
        b"plain ascii".to_vec(),
        "grüße 漢字 🦀".as_bytes().to_vec(),
        vec![0xc3, 0xa9],             // é
        vec![0xc0, 0x80],             // overlong two-byte nul
        vec![0xe0, 0x80, 0x80],       // overlong three-byte
        vec![0xf0, 0x80, 0x80, 0x80], // overlong four-byte
        vec![0xed, 0xa0, 0x80],       // surrogate
        vec![0xed, 0x9f, 0xbf],       // just below the surrogates
        vec![0xee, 0x80, 0x80],       // just above the surrogates
        vec![0xf4, 0x8f, 0xbf, 0xbf], // the last scalar
        vec![0xf4, 0x90, 0x80, 0x80], // one past the last scalar
        vec![0xf5, 0x80, 0x80, 0x80], // leader no encoding uses
        vec![0x80],                   // stray continuation
        vec![0xc3],                   // truncated two-byte
        vec![0xe2, 0x82],             // truncated three-byte
        vec![0xf0, 0x9f, 0x92],       // truncated four-byte
        vec![0x41, 0xc3, 0xa9, 0x42], // mixed
        vec![0xff],
    ];
    for s in samples {
        assert_eq!(
            validate_utf8(&s),
            std::str::from_utf8(&s).is_ok(),
            "validator disagrees on {:?}",
            s
        );
    }
}

#[test]
fn next_row_completion_allocates_exhausts_and_fails() {
    let mut rows: HandleTable<Row> = HandleTable::new();
    let mut err = ErrorOut::wanted();

    let (st, h) = complete_next_row(&mut rows, Ok(Some(vec![Value::Integer(3)])), &mut err);
    assert_eq!(st, 0);
    let h = h.unwrap();
    let row = rows.get(h).unwrap();
    assert_eq!(row.get_int(0, &mut err), (0, Some(3)));

    let (st, h) = complete_next_row(&mut rows, Ok(None), &mut err);
    assert_eq!((st, h), (0, None));
    assert!(err.take_message().is_none());

    let (st, h) = complete_next_row(&mut rows, Err(b"cursor gone".to_vec()), &mut err);
    assert_eq!((st, h), (1, None));
    assert_eq!(
        err.take_message().unwrap(),
        b"Error fetching next row: cursor gone".to_vec()
    );
}

#[test]
fn bound_parameters_echo_back_through_the_getters() {
    // bind a string and a blob, echo the accumulator's values into a
    // result row as an echoing query would, and read both back
    let mut acc = PositionalParams::new();
    let mut err = ErrorOut::wanted();
    assert_eq!(acc.bind_text(0, "héllo".as_bytes().to_vec(), &mut err), 0);
    acc.bind(1, Value::Blob(vec![1, 2, 3, 4, 5]));
    let echoed: Vec<Value> = acc.values().clone();
    let row = Row::from_values(echoed);
    assert_eq!(row.get_text(0, &mut err), (0, Some("héllo".as_bytes().to_vec())));
    let (st, blob) = row.get_blob(1, &mut err);
    assert_eq!(st, 0);
    let blob = blob.unwrap();
    assert_eq!(blob.len(), 5);
    assert_eq!(blob, vec![1, 2, 3, 4, 5]);
}

#[test]
fn text_with_interior_nul_is_rejected_not_a_bare_success() {
    let row = Row::from_values(vec![Value::Text(b"a\0b".to_vec())]);
    let mut err = ErrorOut::wanted();
    let (st, got) = row.get_text(0, &mut err);
    assert_eq!((st, got), (3, None));
    assert_eq!(
        err.take_message().unwrap(),
        b"Invalid string: interior nul byte".to_vec()
    );
    // the cell is still a text cell for the kind query
    let cursor = Cursor::from_names(vec![b"a".to_vec()]);
    assert_eq!(cursor.column_type(&row, 0, &mut err), (0, Some(KIND_TEXT)));
}
