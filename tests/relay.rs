use mail_relay::envelope::{decimal_text, decode_envelope, encode_request, CodecError, MsgType};
use mail_relay::frame::{decode_frame, encode_frame};
use mail_relay::keys::{select_private_key, KeyError, PemItem, PemKind};
use mail_relay::reply::{health_reply, mail_reply};
use mail_relay::server::{ends_process, replay, ConnEvent, ConnState, ServerError};
use mail_relay::vault::{finish_exchange, prepare_request, ChannelFault, VaultError};

const VERSION: &str = "1.0.0";

fn framed(json: &str) -> Vec<u8> {
    encode_frame(&json.as_bytes().to_vec()).unwrap()
}

fn reply_json(version: &str, msg_type: &str, payload: &str, error: &str) -> String {
    format!(
        "{{\"version\":\"{}\",\"msg_type\":\"{}\",\"payload\":{},\"error\":{}}}",
        version, msg_type, payload, error
    )
}

#[test]
fn frame_header_is_big_endian_length() {
    let f = encode_frame(&vec![7u8; 258]).unwrap();
    assert_eq!(&f[..4], &[0, 0, 1, 2]);
    assert_eq!(f.len(), 262);
}

#[test]
fn frame_round_trip_with_trailing_bytes() {
    let body = b"hello".to_vec();
    let mut f = encode_frame(&body).unwrap();
    f.extend_from_slice(b"next");
    assert_eq!(decode_frame(&f), Some(body));
}

#[test]
fn empty_frame_round_trip() {
    let f = encode_frame(&Vec::new()).unwrap();
    assert_eq!(f, vec![0, 0, 0, 0]);
    assert_eq!(decode_frame(&f), Some(Vec::new()));
}

#[test]
fn incomplete_frame_is_not_decoded() {
    assert_eq!(decode_frame(&vec![0, 0]), None);
    assert_eq!(decode_frame(&vec![0, 0, 0, 5, 1, 2]), None);
}

#[test]
fn decimal_text_values() {
    assert_eq!(decimal_text(0), "0");
    assert_eq!(decimal_text(1000), "1000");
    assert_eq!(decimal_text(u32::MAX), "4294967295");
}

#[test]
fn request_text_is_exact() {
    let bytes = encode_request(VERSION, "hi", 1000);
    assert_eq!(
        String::from_utf8(bytes).unwrap(),
        "{\"version\":\"1.0.0\",\"msg_type\":\"Request\",\"payload\":{\"PlainText\":{\"command\":\"EncryptRawText\",\"data\":\"hi\",\"uid\":1000}},\"error\":null}"
    );
}

#[test]
fn request_data_is_escaped() {
    let bytes = encode_request(VERSION, "a\"b\\c", 7);
    let text = String::from_utf8(bytes).unwrap();
    assert!(text.contains("\"data\":\"a\\\"b\\\\c\""));
    let v: serde_json::Value = serde_json::from_str(&text).unwrap();
    assert_eq!(v["payload"]["PlainText"]["data"], "a\"b\\c");
}

#[test]
fn prepared_request_is_framed() {
    let f = prepare_request(VERSION, "functional", 1000).unwrap();
    let body = decode_frame(&f).unwrap();
    assert_eq!(body, encode_request(VERSION, "functional", 1000));
}

#[test]
fn decode_response_envelope() {
    let json = reply_json(VERSION, "Response", "{\"value\":\"abc123\"}", "null");
    let env = decode_envelope(&json.into_bytes()).unwrap();
    assert_eq!(env.version, VERSION);
    assert_eq!(env.msg_type, MsgType::Response);
    assert_eq!(env.value, Some("abc123".to_string()));
    assert_eq!(env.error, None);
}

#[test]
fn decode_rejects_bad_documents() {
    assert_eq!(decode_envelope(&b"not json".to_vec()), Err(CodecError::MalformedEnvelope));
    let no_version = "{\"msg_type\":\"Response\",\"payload\":{}}";
    assert_eq!(decode_envelope(&no_version.as_bytes().to_vec()), Err(CodecError::MalformedEnvelope));
    let bad_type = reply_json(VERSION, "Gossip", "{}", "null");
    assert_eq!(decode_envelope(&bad_type.into_bytes()), Err(CodecError::MalformedEnvelope));
}

#[test]
fn msg_type_names() {
    assert_eq!(MsgType::ErrorResponse.as_str(), "ErrorResponse");
    assert_eq!(MsgType::parse(&"Response".to_string()), Some(MsgType::Response));
    assert_eq!(MsgType::parse(&"response".to_string()), None);
}

#[test]
fn value_of_live_daemon_is_returned() {
    let json = reply_json(VERSION, "Response", "{\"value\":\"s3cr3t-cipher\"}", "null");
    let r = finish_exchange(Ok(framed(&json)), VERSION);
    assert_eq!(r, Ok("s3cr3t-cipher".to_string()));
}

#[test]
fn error_response_is_daemon_reported_error() {
    let json = reply_json(VERSION, "ErrorResponse", "{\"value\":\"x\"}", "{\"code\":3}");
    let r = finish_exchange(Ok(framed(&json)), VERSION);
    assert_eq!(r, Err(VaultError::DaemonReportedError(Some("{\"code\":3}".to_string()))));
}

#[test]
fn other_version_is_mismatch() {
    let json = reply_json("0.9.0", "Response", "{\"value\":\"abc123\"}", "null");
    let r = finish_exchange(Ok(framed(&json)), VERSION);
    assert_eq!(r, Err(VaultError::VersionMismatch));
}

#[test]
fn channel_faults_are_classified() {
    assert_eq!(finish_exchange(Err(ChannelFault::Refused), VERSION), Err(VaultError::ConnectionRefused));
    assert_eq!(finish_exchange(Err(ChannelFault::Io), VERSION), Err(VaultError::IoError));
    assert_eq!(finish_exchange(Err(ChannelFault::Timeout), VERSION), Err(VaultError::Timeout));
}

#[test]
fn missing_value_and_truncated_reply() {
    let json = reply_json(VERSION, "Response", "{\"other\":1}", "null");
    assert_eq!(finish_exchange(Ok(framed(&json)), VERSION), Err(VaultError::MissingValue));
    let mut f = framed(&json);
    f.truncate(10);
    assert_eq!(finish_exchange(Ok(f), VERSION), Err(VaultError::MalformedEnvelope));
    let f = framed("{{{");
    assert_eq!(finish_exchange(Ok(f), VERSION), Err(VaultError::MalformedEnvelope));
}

#[test]
fn health_check_success_scenario() {
    let json = reply_json(VERSION, "Response", "{\"value\":\"abc123\"}", "null");
    let r = health_reply(&finish_exchange(Ok(framed(&json)), VERSION));
    assert_eq!(r.status, "success");
    assert_eq!(r.message, "abc123");
}

#[test]
fn health_check_daemon_unreachable_scenario() {
    let r = health_reply(&finish_exchange(Err(ChannelFault::Refused), VERSION));
    assert_eq!(r.status, "failed");
    assert_eq!(r.message, "Dusa not running");
}

#[test]
fn health_check_daemon_error_scenario() {
    let json = reply_json(VERSION, "ErrorResponse", "{}", "null");
    let r = health_reply(&finish_exchange(Ok(framed(&json)), VERSION));
    assert_eq!(r.status, "failed");
    assert_eq!(r.message, "Dusa encountered an error");
}

#[test]
fn health_message_keeps_six_chars() {
    let r = health_reply(&Ok("abcdefghij".to_string()));
    assert_eq!(r.message, "abcdef");
    let r = health_reply(&Ok("héllo wörld".to_string()));
    assert_eq!(r.message, "héllo ");
    let r = health_reply(&Ok("ab".to_string()));
    assert_eq!(r.message, "ab");
}

#[test]
fn mail_replies() {
    let ok = mail_reply(Ok(()));
    assert_eq!((ok.status.as_str(), ok.message.as_str()), ("success", "Email relayed!"));
    let bad = mail_reply(Err("smtp down".to_string()));
    assert_eq!((bad.status.as_str(), bad.message.as_str()), ("failed", "smtp down"));
}

#[test]
fn handshake_failure_closes_only_that_connection() {
    let failed = replay(&vec![ConnEvent::Started, ConnEvent::HandshakeFailed, ConnEvent::ExchangeServed]);
    assert_eq!(failed, ConnState::Closed);
    assert!(!ends_process(ServerError::Handshake));
    let next = replay(&vec![ConnEvent::Started, ConnEvent::HandshakeSucceeded, ConnEvent::ExchangeServed]);
    assert_eq!(next, ConnState::Serving);
}

#[test]
fn connection_lifecycle() {
    assert_eq!(replay(&vec![]), ConnState::Accepted);
    assert_eq!(replay(&vec![ConnEvent::Started]), ConnState::Handshaking);
    let served = vec![
        ConnEvent::Started,
        ConnEvent::HandshakeSucceeded,
        ConnEvent::ExchangeServed,
        ConnEvent::ExchangeServed,
        ConnEvent::TransportClosed,
    ];
    assert_eq!(replay(&served), ConnState::Closed);
    assert!(ends_process(ServerError::Bind));
    assert!(ends_process(ServerError::Credentials));
    assert!(!ends_process(ServerError::Accept));
    assert!(!ends_process(ServerError::Serve));
}

#[test]
fn first_private_key_is_chosen() {
    let items = vec![
        PemItem { kind: PemKind::Other, der: vec![1] },
        PemItem { kind: PemKind::RsaKey, der: vec![2] },
        PemItem { kind: PemKind::Pkcs8Key, der: vec![3] },
    ];
    assert_eq!(select_private_key(&items), Ok(vec![2]));
    let none = vec![PemItem { kind: PemKind::Other, der: vec![1] }];
    assert_eq!(select_private_key(&none), Err(KeyError::NoPrivateKey));
    assert_eq!(select_private_key(&vec![]), Err(KeyError::NoPrivateKey));
}

#[test]
fn error_response_of_other_version_is_mismatch() {
    let json = reply_json("0.9.0", "ErrorResponse", "{}", "{\"code\":3}");
    let r = finish_exchange(Ok(framed(&json)), VERSION);
    assert_eq!(r, Err(VaultError::VersionMismatch));
}

#[test]
fn control_characters_are_escaped() {
    let bytes = encode_request(VERSION, "a\u{1}\tb\n\u{8}\u{c}\r\u{1f}é", 1);
    let text = String::from_utf8(bytes).unwrap();
    assert!(text.contains("\"data\":\"a\\u0001\\tb\\n\\b\\f\\r\\u001fé\""));
}

#[test]
fn reported_error_is_compact_json() {
    let json = reply_json(VERSION, "ErrorResponse", "{}", "{ \"code\" : 3 }");
    let env = decode_envelope(&json.into_bytes()).unwrap();
    assert_eq!(env.msg_type, MsgType::ErrorResponse);
    assert_eq!(env.error, Some("{\"code\":3}".to_string()));
    assert_eq!(env.value, None);
    let no_error = "{\"version\":\"1.0.0\",\"msg_type\":\"Response\",\"payload\":{\"value\":\"v\"}}";
    let env = decode_envelope(&no_error.as_bytes().to_vec()).unwrap();
    assert_eq!(env.error, None);
    let text_error = reply_json(VERSION, "ErrorResponse", "{}", "\"denied\"");
    let env = decode_envelope(&text_error.into_bytes()).unwrap();
    assert_eq!(env.error, Some("\"denied\"".to_string()));
}

#[test]
fn non_string_value_is_missing() {
    let json = reply_json(VERSION, "Response", "{\"value\":42}", "null");
    assert_eq!(finish_exchange(Ok(framed(&json)), VERSION), Err(VaultError::MissingValue));
}
