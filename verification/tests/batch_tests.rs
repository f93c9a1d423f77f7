use sqliters::batch::collect_batch;
use sqliters::error::DataError;

#[test]
fn a_batch_is_joined_in_order() {
    let batch: Vec<Result<u8, DataError>> = vec![Ok(3), Ok(1), Ok(2)];
    assert_eq!(collect_batch(batch), Ok(vec![3, 1, 2]));
    let empty: Vec<Result<u8, DataError>> = Vec::new();
    assert_eq!(collect_batch(empty), Ok(Vec::new()));
}

#[test]
fn a_batch_fails_with_its_first_failure() {
    let batch: Vec<Result<u8, DataError>> = vec![
        Ok(3),
        Err(DataError::QueryFailed),
        Ok(2),
        Err(DataError::DataSourceUnavailable),
    ];
    assert_eq!(collect_batch(batch), Err(DataError::QueryFailed));
    let batch: Vec<Result<u8, DataError>> = vec![Err(DataError::UnsupportedColumnType)];
    assert_eq!(collect_batch(batch), Err(DataError::UnsupportedColumnType));
    let batch: Vec<Result<u8, DataError>> =
        vec![Err(DataError::DataSourceUnavailable), Err(DataError::QueryFailed)];
    assert_eq!(collect_batch(batch), Err(DataError::DataSourceUnavailable));
}
