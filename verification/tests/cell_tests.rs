use sqliters::cell::Cell;
use sqliters::cell::CellKind;
use sqliters::error::DataError;

#[test]
fn type_names_of_the_five_kinds() {
    assert_eq!(CellKind::from_type_name("NULL"), Ok(CellKind::Null));
    assert_eq!(CellKind::from_type_name("INTEGER"), Ok(CellKind::Integer));
    assert_eq!(CellKind::from_type_name("REAL"), Ok(CellKind::Real));
    assert_eq!(CellKind::from_type_name("TEXT"), Ok(CellKind::Text));
    assert_eq!(CellKind::from_type_name("DATETIME"), Ok(CellKind::Text));
    assert_eq!(CellKind::from_type_name("BLOB"), Ok(CellKind::Blob));
}

#[test]
fn other_type_names_are_unsupported() {
    assert_eq!(CellKind::from_type_name("BOOLEAN"), Err(DataError::UnsupportedColumnType));
    assert_eq!(CellKind::from_type_name("integer"), Err(DataError::UnsupportedColumnType));
    assert_eq!(CellKind::from_type_name(""), Err(DataError::UnsupportedColumnType));
    assert_eq!(CellKind::from_type_name("TEXT "), Err(DataError::UnsupportedColumnType));
}

#[test]
fn cells_are_shown_as_text() {
    assert_eq!(Cell::from_null().as_str(), "null");
    assert_eq!(Cell::from_null().kind(), CellKind::Null);
    assert_eq!(Cell::from_integer(-42).as_str(), "-42");
    assert_eq!(Cell::from_integer(0).kind(), CellKind::Integer);
    assert_eq!(Cell::from_real(1.5f64.to_string()).as_str(), "1.5");
    assert_eq!(Cell::from_real("2".to_string()).kind(), CellKind::Real);
    assert_eq!(Cell::from_text("héllo".to_string()).as_str(), "héllo");
    assert_eq!(Cell::from_text(String::new()).kind(), CellKind::Text);
    assert_eq!(Cell::from_blob(&vec![1, 2, 3, 15, 16]).as_str(), "0102030f10");
    assert_eq!(Cell::from_blob(&vec![1]).kind(), CellKind::Blob);
}

#[test]
fn blobs_are_lowercase_hex() {
    assert_eq!(Cell::from_blob(&Vec::new()).as_str(), "");
    assert_eq!(Cell::from_blob(&vec![0x00, 0xff, 0xab, 0x7f]).as_str(), "00ffab7f");
    assert_eq!(
        Cell::from_blob(&"Hello world!".as_bytes().to_vec()).as_str(),
        "48656c6c6f20776f726c6421"
    );
}
