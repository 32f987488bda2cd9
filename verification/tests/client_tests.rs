use nodal::client::{
    check_reply_status, generate_request_id, request_headers, stream_lookup_error, ClientError,
};
use nodal::error::Error;
use nodal::header::REQUEST_ID;

fn make_serde_error() -> serde_json::Error {
    serde_json::from_str::<serde_json::Value>("invalid json {{{").unwrap_err()
}

#[test]
fn client_error_display_serialize() {
    let err = ClientError::Serialize(make_serde_error().to_string());
    assert!(err.to_string().starts_with("serialization error:"));
}

#[test]
fn client_error_display_deserialize() {
    let err = ClientError::Deserialize(make_serde_error().to_string());
    assert!(err.to_string().starts_with("deserialization error:"));
}

#[test]
fn client_error_display_request() {
    let inner: Box<dyn std::error::Error + Send + Sync> =
        Box::new(std::io::Error::new(std::io::ErrorKind::Other, "timeout"));
    let err = ClientError::Request(inner.to_string());
    assert_eq!(err.to_string(), "request error: timeout");
}

#[test]
fn client_error_display_service_error() {
    let err = ClientError::ServiceError("something went wrong".to_string());
    assert_eq!(err.to_string(), "service error: something went wrong");
}

#[test]
fn client_error_debug_impl() {
    let err = ClientError::ServiceError("oops".to_string());
    let debug = format!("{:?}", err);
    assert!(debug.contains("ServiceError"));
}

#[test]
fn client_error_display_exact_texts() {
    assert_eq!(
        ClientError::Serialize("bad".to_string()).to_string(),
        "serialization error: bad"
    );
    assert_eq!(
        ClientError::Deserialize("bad".to_string()).to_string(),
        "deserialization error: bad"
    );
}

#[test]
fn test_generate_request_id_length() {
    assert_eq!(generate_request_id().len(), 26);
}

#[test]
fn test_generate_request_id_unique() {
    let a = generate_request_id();
    let b = generate_request_id();
    assert_ne!(a, b);
}

#[test]
fn generate_request_id_uses_crockford_alphabet() {
    let alphabet = "0123456789ABCDEFGHJKMNPQRSTVWXYZ";
    let id = generate_request_id();
    assert_eq!(id.chars().count(), 26);
    assert!(id.chars().all(|c| alphabet.contains(c)));
}

#[test]
fn request_headers_carry_request_id() {
    let headers = request_headers("01ABC");
    assert_eq!(headers, vec![(REQUEST_ID.to_string(), "01ABC".to_string())]);
}

#[test]
fn reply_status_ok_or_absent_is_no_error() {
    assert!(check_reply_status(None, None, b"{}").is_ok());
    assert!(check_reply_status(Some(200), Some("fine".to_string()), b"{}").is_ok());
}

#[test]
fn reply_status_error_uses_description() {
    match check_reply_status(Some(503), Some("no responders".to_string()), b"payload") {
        Err(ClientError::ServiceError(m)) => assert_eq!(m, "no responders"),
        other => panic!("unexpected {:?}", other),
    }
}

#[test]
fn reply_status_error_falls_back_to_payload_text() {
    match check_reply_status(Some(500), None, b"handler failed") {
        Err(ClientError::ServiceError(m)) => assert_eq!(m, "handler failed"),
        other => panic!("unexpected {:?}", other),
    }
}

#[test]
fn reply_status_error_replaces_invalid_utf8() {
    match check_reply_status(Some(500), None, &[b'x', 0xff]) {
        Err(ClientError::ServiceError(m)) => assert_eq!(m, "x\u{FFFD}"),
        other => panic!("unexpected {:?}", other),
    }
}

#[test]
fn error_displays_its_message() {
    let e = Error::new("motor stalled");
    assert_eq!(e.to_string(), "motor stalled");
    assert_eq!(Error::new("").to_string(), "");
}

#[test]
fn missing_stream_is_a_request_error() {
    let err = stream_lookup_error("stream not found".to_string());
    assert!(matches!(&err, ClientError::Request(m) if m == "stream not found"));
    assert_eq!(err.to_string(), "request error: stream not found");
}
