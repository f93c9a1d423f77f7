use sqliters::error::DataError;
use sqliters::error::Phase;

#[test]
fn failures_at_startup_end_the_program() {
    assert!(DataError::DataSourceUnavailable.is_fatal(Phase::Startup));
    assert!(DataError::QueryFailed.is_fatal(Phase::Startup));
    assert!(DataError::UnsupportedColumnType.is_fatal(Phase::Startup));
}

#[test]
fn failures_of_a_running_browser_abort_the_switch_only() {
    assert!(!DataError::DataSourceUnavailable.is_fatal(Phase::Running));
    assert!(!DataError::QueryFailed.is_fatal(Phase::Running));
    assert!(DataError::UnsupportedColumnType.is_fatal(Phase::Running));
}

#[test]
fn failures_have_words() {
    assert_eq!(DataError::DataSourceUnavailable.message(), "the database is not available");
    assert_eq!(DataError::QueryFailed.message(), "a query failed");
    assert_eq!(
        DataError::UnsupportedColumnType.message(),
        "a column has a type that is not supported"
    );
}
