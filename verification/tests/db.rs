use api::db::{row_or_none, Fetched};

#[test]
fn a_found_row_is_returned() {
    assert_eq!(row_or_none(Fetched::<u8, String>::Row(5u8)), Ok(Some(5u8)));
}

#[test]
fn a_missing_row_is_no_error() {
    assert_eq!(row_or_none::<u8, String>(Fetched::RowNotFound), Ok(None));
}

#[test]
fn a_store_failure_is_an_error() {
    assert_eq!(
        row_or_none::<u8, String>(Fetched::Failed("connection reset".to_string())),
        Err("connection reset".to_string())
    );
}
