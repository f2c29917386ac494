use hyper_timeout_connector::scheme::{is_http, same_text};
use hyper_timeout_connector::{Address, ConnectError, Family};
use std::io::ErrorKind;

#[test]
fn http_is_the_served_scheme() {
    assert!(is_http("http"));
}

#[test]
fn other_schemes_are_not_served() {
    assert!(!is_http("https"));
    assert!(!is_http("wrongscheme"));
    assert!(!is_http(""));
    assert!(!is_http("htt"));
    assert!(!is_http("httq"));
    assert!(!is_http("ftp"));
}

#[test]
fn scheme_comparison_is_exact() {
    assert!(!is_http("HTTP"));
    assert!(!is_http("Http"));
    assert!(!is_http(" http"));
    assert!(!is_http("http "));
    assert!(!is_http("http:"));
    assert!(!is_http("http\0"));
}

#[test]
fn same_text_compares_whole_strings() {
    assert!(same_text("", ""));
    assert!(same_text("a", "a"));
    assert!(!same_text("a", ""));
    assert!(!same_text("", "a"));
    assert!(!same_text("ab", "ba"));
    assert!(!same_text("abc", "abd"));
    assert!(same_text("example.org", "example.org"));
}

#[test]
fn same_text_tells_characters_of_several_bytes_apart() {
    assert!(same_text("h\u{e9}llo", "h\u{e9}llo"));
    assert!(!same_text("h\u{e9}llo", "h\u{e8}llo"));
    assert!(!same_text("\u{e9}", "e\u{301}"));
    assert!(same_text("\u{1f310}", "\u{1f310}"));
    assert!(!same_text("\u{1f310}", "\u{1f311}"));
}

#[test]
fn family_follows_the_kind_of_address() {
    let four = Address::V4 { octets: [10, 255, 255, 1], port: 80 };
    let six = Address::V6 {
        segments: [0x2001, 0xdb8, 0, 0, 0, 0, 0, 1],
        port: 443,
        flowinfo: 0,
        scope_id: 0,
    };
    assert_eq!(four.family(), Family::V4);
    assert_eq!(six.family(), Family::V6);
}

#[test]
fn family_does_not_depend_on_the_digits() {
    let mapped = Address::V6 {
        segments: [0, 0, 0, 0, 0, 0xffff, 0x0aff, 0xff01],
        port: 80,
        flowinfo: 7,
        scope_id: 3,
    };
    assert_eq!(mapped.family(), Family::V6);
    assert_eq!(Address::V4 { octets: [0, 0, 0, 0], port: 0 }.family(), Family::V4);
}

#[test]
fn misuse_is_told_from_network_failure() {
    assert!(ConnectError::<ErrorKind>::InvalidScheme.is_invalid_input());
    assert!(ConnectError::<ErrorKind>::NoAddresses.is_invalid_input());
    assert!(!ConnectError::Resolution(ErrorKind::Other).is_invalid_input());
    assert!(!ConnectError::Connection(ErrorKind::TimedOut).is_invalid_input());
    assert!(!ConnectError::Connection(ErrorKind::InvalidInput).is_invalid_input());
}

#[test]
fn misuse_has_its_message() {
    assert_eq!(ConnectError::<ErrorKind>::InvalidScheme.message(), Some("invalid scheme for http"));
    assert_eq!(
        ConnectError::<ErrorKind>::NoAddresses.message(),
        Some("could not resolve to any addresses")
    );
}

#[test]
fn network_failure_has_no_message_of_the_library() {
    assert_eq!(ConnectError::Resolution(ErrorKind::NotFound).message(), None);
    assert_eq!(ConnectError::Connection(ErrorKind::ConnectionRefused).message(), None);
}

#[test]
fn the_four_failures_differ() {
    let refused = ErrorKind::ConnectionRefused;
    assert_ne!(ConnectError::<ErrorKind>::InvalidScheme, ConnectError::NoAddresses);
    assert_ne!(ConnectError::NoAddresses, ConnectError::Resolution(refused));
    assert_ne!(ConnectError::NoAddresses, ConnectError::Connection(refused));
    assert_ne!(ConnectError::Resolution(refused), ConnectError::Connection(refused));
    assert_ne!(
        ConnectError::Connection(ErrorKind::TimedOut),
        ConnectError::Connection(ErrorKind::ConnectionRefused)
    );
}
