//! The message envelope exchanged with the vault daemon, and its JSON form.
//!
//! A request carries `{version, msg_type, payload, error}` where the payload
//! of a plain-text request is `{"PlainText": {command, data, uid}}`. Of a
//! reply the client reads the version, the message type, the payload's
//! `value` member and the `error` member.
use vstd::prelude::*;
use vstd::string::StringExecFns;
use vstd::string::StrSliceExecFns;
use vstd::utf8::encode_utf8;
use crate::json::{
    is_json, is_json_document, json_member_compact, json_member_text, json_nested_text, json_quoted,
    member_compact, member_text, nested_text, quote, text_view,
};

verus! {

/// The kind of an envelope.
#[derive(Clone, Copy, Debug, PartialEq, Eq, Structural)]
pub enum MsgType {
    Request,
    Response,
    ErrorResponse,
}

/// A failure to write or read one envelope on the channel.
#[derive(Clone, Copy, Debug, PartialEq, Eq, Structural)]
pub enum CodecError {
    /// Writing or reading the channel failed.
    IoError,
    /// The envelope could not be put into bytes.
    SerializationError,
    /// The bytes do not form an envelope.
    MalformedEnvelope,
    /// No whole envelope arrived within the allowed wait.
    Timeout,
}

/// A received envelope, as the client reads it.
#[derive(Clone, Debug, PartialEq, Eq)]
pub struct Envelope {
    pub version: String,
    pub msg_type: MsgType,
    /// The payload's `value` member, where it is a string.
    pub value: Option<String>,
    /// The `error` member as serde_json writes it compactly (no whitespace,
    /// object keys in serde_json's order), where it is present and not null.
    pub error: Option<String>,
}

/// An envelope as characters: version, kind, value and error.
pub type EnvelopeView = (Seq<char>, MsgType, Option<Seq<char>>, Option<Seq<char>>);

impl View for Envelope {
    type V = EnvelopeView;

    open spec fn view(&self) -> EnvelopeView {
        (self.version@, self.msg_type, text_view(self.value), text_view(self.error))
    }
}

impl MsgType {
    /// The name of the kind on the wire.
    pub open spec fn wire_name(self) -> Seq<char> {
        match self {
            MsgType::Request => "Request"@,
            MsgType::Response => "Response"@,
            MsgType::ErrorResponse => "ErrorResponse"@,
        }
    }

    /// The kind whose wire name is `s`, if any.
    pub open spec fn from_wire_name(s: Seq<char>) -> Option<MsgType> {
        if s == "Request"@ {
            Some(MsgType::Request)
        } else if s == "Response"@ {
            Some(MsgType::Response)
        } else if s == "ErrorResponse"@ {
            Some(MsgType::ErrorResponse)
        } else {
            None
        }
    }

    pub fn as_str(&self) -> (r: &'static str)
        ensures
            r@ == self.wire_name(),
    {
        match self {
            MsgType::Request => "Request",
            MsgType::Response => "Response",
            MsgType::ErrorResponse => "ErrorResponse",
        }
    }

    pub fn parse(s: &String) -> (r: Option<MsgType>)
        ensures
            r == MsgType::from_wire_name(s@),
    {
        if *s == "Request".to_owned() {
            Some(MsgType::Request)
        } else if *s == "Response".to_owned() {
            Some(MsgType::Response)
        } else if *s == "ErrorResponse".to_owned() {
            Some(MsgType::ErrorResponse)
        } else {
            None
        }
    }
}

/// Naming a kind and reading the name back gives the same kind.
pub proof fn law_msg_type_name_round_trip(t: MsgType)
    ensures
        MsgType::from_wire_name(t.wire_name()) == Some(t),
{
    reveal_strlit("Request");
    reveal_strlit("Response");
    reveal_strlit("ErrorResponse");
    assert("Request"@[2] != "Response"@[2]);
    assert("ErrorResponse"@[0] != "Request"@[0]);
    assert("ErrorResponse"@[0] != "Response"@[0]);
}

/// The character of the decimal digit `d`.
pub open spec fn digit_char(d: nat) -> char {
    if d == 0 { '0' } else if d == 1 { '1' } else if d == 2 { '2' } else if d == 3 { '3' }
    else if d == 4 { '4' } else if d == 5 { '5' } else if d == 6 { '6' } else if d == 7 { '7' }
    else if d == 8 { '8' } else { '9' }
}

/// `n` in decimal, without leading zeros.
pub open spec fn decimal(n: nat) -> Seq<char>
    decreases n,
{
    if n < 10 {
        seq![digit_char(n)]
    } else {
        decimal(n / 10).push(digit_char(n % 10))
    }
}

fn digit_str(d: u32) -> (r: &'static str)
    requires
        d < 10,
    ensures
        r@ == seq![digit_char(d as nat)],
{
    proof {
        reveal_strlit("0"); reveal_strlit("1"); reveal_strlit("2"); reveal_strlit("3");
        reveal_strlit("4"); reveal_strlit("5"); reveal_strlit("6"); reveal_strlit("7");
        reveal_strlit("8"); reveal_strlit("9");
    }
    if d == 0 { "0" } else if d == 1 { "1" } else if d == 2 { "2" } else if d == 3 { "3" }
    else if d == 4 { "4" } else if d == 5 { "5" } else if d == 6 { "6" } else if d == 7 { "7" }
    else if d == 8 { "8" } else { "9" }
}

/// `n` written in decimal.
pub fn decimal_text(n: u32) -> (r: String)
    ensures
        r@ == decimal(n as nat),
    decreases n,
{
    if n < 10 {
        String::from_str(digit_str(n))
    } else {
        let mut s = decimal_text(n / 10);
        s.append(digit_str(n % 10));
        s
    }
}

/// The JSON text of a plain-text encryption request for principal `uid`.
pub open spec fn request_text(version: Seq<char>, data: Seq<char>, uid: nat) -> Seq<char> {
    "{\"version\":"@ + json_quoted(version)
        + ",\"msg_type\":\"Request\",\"payload\":{\"PlainText\":{\"command\":\"EncryptRawText\",\"data\":"@
        + json_quoted(data) + ",\"uid\":"@ + decimal(uid) + "}},\"error\":null}"@
}

/// The bytes of a plain-text encryption request, before framing.
pub fn encode_request(version: &str, data: &str, uid: u32) -> (r: Vec<u8>)
    ensures
        r@ == encode_utf8(request_text(version@, data@, uid as nat)),
{
    let mut t = String::from_str("{\"version\":");
    t.append(quote(version).as_str());
    t.append(",\"msg_type\":\"Request\",\"payload\":{\"PlainText\":{\"command\":\"EncryptRawText\",\"data\":");
    t.append(quote(data).as_str());
    t.append(",\"uid\":");
    t.append(decimal_text(uid).as_str());
    t.append("}},\"error\":null}");
    t.as_str().as_bytes_vec()
}

/// The envelope made of the members read out of a reply, or
/// `MalformedEnvelope` where the version or a known message type is missing.
pub open spec fn envelope_of(
    version: Option<String>,
    msg_type: Option<String>,
    value: Option<String>,
    error: Option<String>,
) -> Result<Envelope, CodecError> {
    match (version, msg_type) {
        (Some(v), Some(t)) => match MsgType::from_wire_name(t@) {
            Some(k) => Ok(Envelope { version: v, msg_type: k, value, error }),
            None => Err(CodecError::MalformedEnvelope),
        },
        _ => Err(CodecError::MalformedEnvelope),
    }
}

/// Builds an envelope from the members read out of a reply.
pub fn envelope_from_members(
    version: Option<String>,
    msg_type: Option<String>,
    value: Option<String>,
    error: Option<String>,
) -> (r: Result<Envelope, CodecError>)
    ensures
        r == envelope_of(version, msg_type, value, error),
{
    match (version, msg_type) {
        (Some(v), Some(t)) => match MsgType::parse(&t) {
            Some(k) => Ok(Envelope { version: v, msg_type: k, value, error }),
            None => Err(CodecError::MalformedEnvelope),
        },
        _ => Err(CodecError::MalformedEnvelope),
    }
}

/// The `error` member of `doc` as reported: its compact text, or `None`
/// where it is absent or null.
pub open spec fn reported_error(doc: Seq<u8>) -> Option<Seq<char>> {
    match json_member_compact(doc, "error"@) {
        Some(t) => if t == "null"@ {
            None
        } else {
            Some(t)
        },
        None => None,
    }
}

/// The envelope that the JSON document `doc` holds: its `version` and
/// `msg_type` strings, the string at `payload.value` and the reported
/// error; `MalformedEnvelope` where `doc` is no JSON document or lacks a
/// version or a known message type.
pub open spec fn doc_envelope(doc: Seq<u8>) -> Result<EnvelopeView, CodecError> {
    if !is_json_document(doc) {
        Err(CodecError::MalformedEnvelope)
    } else {
        match (json_member_text(doc, "version"@), json_member_text(doc, "msg_type"@)) {
            (Some(v), Some(t)) => match MsgType::from_wire_name(t) {
                Some(k) => Ok((v, k, json_nested_text(doc, "payload"@, "value"@), reported_error(doc))),
                None => Err(CodecError::MalformedEnvelope),
            },
            _ => Err(CodecError::MalformedEnvelope),
        }
    }
}

/// `r` is the decoding `d`: the same envelope, or the same error.
pub open spec fn decodes_to(r: Result<Envelope, CodecError>, d: Result<EnvelopeView, CodecError>) -> bool {
    match (r, d) {
        (Ok(e), Ok(v)) => e@ == v,
        (Err(a), Err(b)) => a == b,
        _ => false,
    }
}

/// Reads an envelope out of the body of a frame.
pub fn decode_envelope(body: &Vec<u8>) -> (r: Result<Envelope, CodecError>)
    ensures
        decodes_to(r, doc_envelope(body@)),
{
    if !is_json(body) {
        return Err(CodecError::MalformedEnvelope);
    }
    let version = member_text(body, "version");
    let msg_type = member_text(body, "msg_type");
    let value = nested_text(body, "payload", "value");
    let error = match member_compact(body, "error") {
        Some(t) => if t == "null".to_owned() {
            None
        } else {
            Some(t)
        },
        None => None,
    };
    envelope_from_members(version, msg_type, value, error)
}

} // verus!
