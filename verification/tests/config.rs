use hyper_timeout_connector::HttpTimeoutConnector;
use std::time::Duration;

#[test]
fn new_connector_has_no_timeout() {
    let connector = HttpTimeoutConnector::new();
    assert_eq!(connector.connect_timeout(), None);
}

#[test]
fn set_timeout_is_read_back() {
    let mut connector = HttpTimeoutConnector::new();
    connector.set_connect_timeout(Some(Duration::from_millis(250)));
    assert_eq!(connector.connect_timeout(), Some(Duration::from_millis(250)));
    connector.set_connect_timeout(Some(Duration::from_secs(30)));
    assert_eq!(connector.connect_timeout(), Some(Duration::from_secs(30)));
}

#[test]
fn set_none_removes_the_timeout() {
    let mut connector = HttpTimeoutConnector::new();
    connector.set_connect_timeout(Some(Duration::from_millis(250)));
    connector.set_connect_timeout(None);
    assert_eq!(connector.connect_timeout(), None);
}

#[test]
fn zero_timeout_is_taken_as_it_is() {
    let mut connector = HttpTimeoutConnector::new();
    connector.set_connect_timeout(Some(Duration::from_secs(0)));
    assert_eq!(connector.connect_timeout(), Some(Duration::new(0, 0)));
}

#[test]
fn reading_the_timeout_changes_nothing() {
    let mut connector = HttpTimeoutConnector::new();
    connector.set_connect_timeout(Some(Duration::from_millis(1)));
    let first = connector.connect_timeout();
    let second = connector.connect_timeout();
    assert_eq!(first, second);
    assert_eq!(second, Some(Duration::from_millis(1)));
}
