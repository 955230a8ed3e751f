//! The client side of one exchange with the vault daemon: the request it
//! sends, and how it judges what comes back.
//!
//! Each call opens its own connection, sends one framed request and reads one
//! framed reply. The channel work itself is done by the caller; this module
//! decides what to send and what the outcome is.
use vstd::prelude::*;
use crate::envelope::{
    decode_envelope, doc_envelope, encode_request, request_text, CodecError, Envelope, EnvelopeView, MsgType,
};
use crate::frame::{decode_frame, encode_frame, first_body, frame_of, holds_frame, MAX_BODY_LEN};
use crate::json::text_view;
use vstd::utf8::encode_utf8;

verus! {

/// Why a call to the vault daemon gave no encrypted text.
#[derive(Clone, Debug, PartialEq, Eq)]
pub enum VaultError {
    /// Nothing listens on the daemon's endpoint.
    ConnectionRefused,
    /// Writing or reading the channel failed.
    IoError,
    /// The request could not be put into a frame.
    SerializationError,
    /// The reply is not a well-formed envelope.
    MalformedEnvelope,
    /// No whole reply arrived within the allowed wait.
    Timeout,
    /// The reply speaks another protocol version.
    VersionMismatch,
    /// The reply's payload has no `value` string.
    MissingValue,
    /// The daemon answered with an error; its `error` member as it came.
    DaemonReportedError(Option<String>),
}

/// How the channel failed, as the code that drives it observed.
#[derive(Clone, Copy, Debug, PartialEq, Eq, Structural)]
pub enum ChannelFault {
    /// The endpoint refused the connection.
    Refused,
    /// A write or a read failed.
    Io,
    /// The wait for the reply ran out.
    Timeout,
}

/// The error that a codec failure becomes.
pub open spec fn codec_error_of(e: CodecError) -> VaultError {
    match e {
        CodecError::IoError => VaultError::IoError,
        CodecError::SerializationError => VaultError::SerializationError,
        CodecError::MalformedEnvelope => VaultError::MalformedEnvelope,
        CodecError::Timeout => VaultError::Timeout,
    }
}

/// The error that a channel failure becomes.
pub open spec fn fault_error_of(f: ChannelFault) -> VaultError {
    match f {
        ChannelFault::Refused => VaultError::ConnectionRefused,
        ChannelFault::Io => VaultError::IoError,
        ChannelFault::Timeout => VaultError::Timeout,
    }
}

/// What a reply envelope means to a client that speaks `expected`: the
/// version is checked first, then the message type, then the value.
pub open spec fn reply_outcome(env: Envelope, expected: Seq<char>) -> Result<String, VaultError> {
    if env.version@ != expected {
        Err(VaultError::VersionMismatch)
    } else {
        match env.msg_type {
            MsgType::ErrorResponse => Err(VaultError::DaemonReportedError(env.error)),
            MsgType::Request => Err(VaultError::MalformedEnvelope),
            MsgType::Response => match env.value {
                Some(v) => Ok(v),
                None => Err(VaultError::MissingValue),
            },
        }
    }
}

/// `r` is what a reply whose envelope reads as `v` means to a client that
/// speaks `expected`, in the order of `reply_outcome`.
pub open spec fn judged_reply(r: Result<String, VaultError>, v: EnvelopeView, expected: Seq<char>) -> bool {
    if v.0 != expected {
        r == Err::<String, VaultError>(VaultError::VersionMismatch)
    } else {
        match v.1 {
            MsgType::ErrorResponse => r matches Err(VaultError::DaemonReportedError(e)) && text_view(e)
                == v.3,
            MsgType::Request => r == Err::<String, VaultError>(VaultError::MalformedEnvelope),
            MsgType::Response => match v.2 {
                Some(t) => r matches Ok(s) && s@ == t,
                None => r == Err::<String, VaultError>(VaultError::MissingValue),
            },
        }
    }
}

/// `r` is the outcome of an exchange whose reply body decodes to `d`.
pub open spec fn judged_body(r: Result<String, VaultError>, d: Result<EnvelopeView, CodecError>, expected: Seq<
    char,
>) -> bool {
    match d {
        Err(e) => r == Err::<String, VaultError>(codec_error_of(e)),
        Ok(v) => judged_reply(r, v, expected),
    }
}

pub fn codec_error(e: CodecError) -> (r: VaultError)
    ensures
        r == codec_error_of(e),
{
    match e {
        CodecError::IoError => VaultError::IoError,
        CodecError::SerializationError => VaultError::SerializationError,
        CodecError::MalformedEnvelope => VaultError::MalformedEnvelope,
        CodecError::Timeout => VaultError::Timeout,
    }
}

pub fn fault_error(f: ChannelFault) -> (r: VaultError)
    ensures
        r == fault_error_of(f),
{
    match f {
        ChannelFault::Refused => VaultError::ConnectionRefused,
        ChannelFault::Io => VaultError::IoError,
        ChannelFault::Timeout => VaultError::Timeout,
    }
}

/// Judges a reply envelope against the protocol version the client speaks.
pub fn check_reply(env: Envelope, expected_version: &str) -> (r: Result<String, VaultError>)
    ensures
        r == reply_outcome(env, expected_version@),
{
    if env.version != expected_version.to_owned() {
        return Err(VaultError::VersionMismatch);
    }
    match env.msg_type {
        MsgType::ErrorResponse => Err(VaultError::DaemonReportedError(env.error)),
        MsgType::Request => Err(VaultError::MalformedEnvelope),
        MsgType::Response => match env.value {
            Some(v) => Ok(v),
            None => Err(VaultError::MissingValue),
        },
    }
}

/// The frame to send for encrypting `data` on behalf of principal `uid`,
/// speaking protocol `version`.
pub fn prepare_request(version: &str, data: &str, uid: u32) -> (r: Result<Vec<u8>, VaultError>)
    ensures
        ({
            let body = encode_utf8(request_text(version@, data@, uid as nat));
            &&& body.len() <= MAX_BODY_LEN ==> (r matches Ok(f) && f@ == frame_of(body))
            &&& body.len() > MAX_BODY_LEN ==> r == Err::<Vec<u8>, VaultError>(VaultError::SerializationError)
        }),
{
    let body = encode_request(version, data, uid);
    match encode_frame(&body) {
        Some(f) => Ok(f),
        None => Err(VaultError::SerializationError),
    }
}

/// The outcome of an exchange whose reply was decoded to `decoded`.
pub fn finish_with_envelope(decoded: Result<Envelope, CodecError>, expected_version: &str) -> (r:
    Result<String, VaultError>)
    ensures
        decoded matches Err(e) ==> r == Err::<String, VaultError>(codec_error_of(e)),
        decoded matches Ok(env) ==> r == reply_outcome(env, expected_version@),
{
    match decoded {
        Err(e) => Err(codec_error(e)),
        Ok(env) => check_reply(env, expected_version),
    }
}

/// The outcome of an exchange, from what the channel gave: a fault, or the
/// bytes read once the reply was whole or the channel closed.
pub fn finish_exchange(received: Result<Vec<u8>, ChannelFault>, expected_version: &str) -> (r:
    Result<String, VaultError>)
    ensures
        received matches Err(f) ==> r == Err::<String, VaultError>(fault_error_of(f)),
        received matches Ok(buf) && !holds_frame(buf@) ==> r == Err::<String, VaultError>(
            VaultError::MalformedEnvelope,
        ),
        received is Ok && holds_frame(received->Ok_0@) ==> judged_body(
            r,
            doc_envelope(first_body(received->Ok_0@)),
            expected_version@,
        ),
{
    match received {
        Err(f) => Err(fault_error(f)),
        Ok(buf) => match decode_frame(&buf) {
            None => Err(VaultError::MalformedEnvelope),
            Some(body) => finish_with_envelope(decode_envelope(&body), expected_version),
        },
    }
}

/// A reply of the expected version that carries a value yields exactly that
/// value.
pub proof fn law_value_returned(env: Envelope, expected: Seq<char>)
    requires
        env.version@ == expected,
        env.msg_type == MsgType::Response,
        env.value is Some,
    ensures
        reply_outcome(env, expected) == Ok::<String, VaultError>(env.value->0),
{
}

/// A reply that reports an error never yields a value; when its version is
/// the expected one, the error it reports is handed on as it came.
pub proof fn law_error_reply_fails(env: Envelope, expected: Seq<char>)
    requires
        env.msg_type == MsgType::ErrorResponse,
    ensures
        reply_outcome(env, expected) is Err,
        env.version@ == expected ==> reply_outcome(env, expected) == Err::<String, VaultError>(
            VaultError::DaemonReportedError(env.error),
        ),
{
}

/// A reply of another protocol version fails with `VersionMismatch`,
/// whatever it carries.
pub proof fn law_version_mismatch(env: Envelope, expected: Seq<char>)
    requires
        env.version@ != expected,
    ensures
        reply_outcome(env, expected) == Err::<String, VaultError>(VaultError::VersionMismatch),
{
}

} // verus!
