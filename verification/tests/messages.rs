use librespot_connect::error::{Error, ErrorCause, ErrorKind};
use librespot_connect::message::Message;
use librespot_connect::observer::{self, ObserverError};
use librespot_connect::spirc::task::extract_connection_id;
use librespot_connect::spirc::SpircError;

fn message(headers: &[(&str, &str)], uri: &str) -> Message {
    Message {
        headers: headers
            .iter()
            .map(|(k, v)| (k.to_string(), v.to_string()))
            .collect(),
        payload: vec![],
        uri: uri.to_string(),
    }
}

#[test]
fn header_finds_value_by_name() {
    let msg = message(&[("A", "1"), ("B", "2")], "hm://x");
    assert_eq!(msg.header("B"), Some("2".to_string()));
    assert_eq!(msg.header("A"), Some("1".to_string()));
    assert_eq!(msg.header("C"), None);
}

#[test]
fn header_names_are_case_sensitive() {
    let msg = message(&[("Spotify-Connection-Id", "abc")], "hm://x");
    assert_eq!(msg.header("spotify-connection-id"), None);
}

#[test]
fn header_takes_the_first_of_a_repeated_name() {
    let msg = message(&[("A", "1"), ("A", "2")], "hm://x");
    assert_eq!(msg.header("A"), Some("1".to_string()));
}

#[test]
fn connection_id_is_read_from_its_header() {
    let msg = message(
        &[("Content-Type", "text"), ("Spotify-Connection-Id", "NjJlYzQ3")],
        "hm://pusher/v1/connections/NjJlYzQ3",
    );
    assert_eq!(extract_connection_id(msg), Ok("NjJlYzQ3".to_string()));
}

#[test]
fn missing_connection_id_is_an_invalid_uri() {
    let msg = message(&[("Content-Type", "text")], "hm://pusher/v1/connections/x");
    assert_eq!(
        extract_connection_id(msg),
        Err(Error {
            kind: ErrorKind::Aborted,
            cause: ErrorCause::Spirc(SpircError::InvalidUri(
                "hm://pusher/v1/connections/x".to_string()
            )),
        })
    );
}

#[test]
fn observer_reads_connection_id_too() {
    let msg = message(&[("Spotify-Connection-Id", "id-1")], "hm://p");
    assert_eq!(observer::extract_connection_id(msg), Ok("id-1".to_string()));
    let msg = message(&[], "hm://p");
    assert_eq!(
        observer::extract_connection_id(msg),
        Err(Error {
            kind: ErrorKind::Aborted,
            cause: ErrorCause::Observer(ObserverError::InvalidUri("hm://p".to_string())),
        })
    );
}
