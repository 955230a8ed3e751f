//! The bodies that the HTTP handlers answer with. Every answer is sent with
//! status 200; success or failure is told by the body's `status` member.
use vstd::prelude::*;
use vstd::string::StringExecFns;
use crate::vault::VaultError;

verus! {

/// A body-level status and a message.
#[derive(Clone, Debug, PartialEq, Eq)]
pub struct GenericResponse {
    pub status: String,
    pub message: String,
}

/// A body-level status alone.
#[derive(Clone, Debug, PartialEq, Eq)]
pub struct SimpleResponse {
    pub status: String,
}

pub const SUCCESS: &'static str = "success";

pub const FAILURE: &'static str = "failed";

/// The plain text that the health check asks the daemon to encrypt.
pub const HEALTH_PROBE: &'static str = "functional";

/// How many characters of the daemon's answer the health check shows.
pub const HEALTH_SHOWN_CHARS: usize = 6;

pub open spec fn success_status() -> Seq<char> {
    "success"@
}

pub open spec fn failure_status() -> Seq<char> {
    "failed"@
}

pub open spec fn not_running_message() -> Seq<char> {
    "Dusa not running"@
}

pub open spec fn daemon_error_message() -> Seq<char> {
    "Dusa encountered an error"@
}

pub open spec fn relayed_message() -> Seq<char> {
    "Email relayed!"@
}

/// The first `n` characters of `s`, or all of it where it is shorter.
pub open spec fn first_chars(s: Seq<char>, n: nat) -> Seq<char> {
    if n < s.len() {
        s.take(n as int)
    } else {
        s
    }
}

/// Relies on dusa_collection_utils' `truncate`: it keeps the first `max`
/// characters of the text, all of it where it is shorter.
#[verifier::external_body]
fn truncate_chars(s: &String, max: usize) -> (r: String)
    ensures
        r@ == first_chars(s@, max as nat),
{
    dusa_collection_utils::platform::functions::truncate(s.clone(), max).as_str().to_string()
}

/// What the health check answers, given the outcome of its probe.
pub open spec fn health_body(outcome: Result<String, VaultError>) -> (Seq<char>, Seq<char>) {
    match outcome {
        Ok(v) => (success_status(), first_chars(v@, HEALTH_SHOWN_CHARS as nat)),
        Err(VaultError::ConnectionRefused) => (failure_status(), not_running_message()),
        Err(_) => (failure_status(), daemon_error_message()),
    }
}

/// What the send-mail handler answers, given the outcome of the relay and
/// the text of its error.
pub open spec fn mail_body(outcome: Result<(), String>) -> (Seq<char>, Seq<char>) {
    match outcome {
        Ok(_) => (success_status(), relayed_message()),
        Err(e) => (failure_status(), e@),
    }
}

/// The health check's answer: the first characters of the encrypted probe,
/// or why the daemon could not be used.
pub fn health_reply(outcome: &Result<String, VaultError>) -> (r: GenericResponse)
    ensures
        (r.status@, r.message@) == health_body(*outcome),
{
    match outcome {
        Ok(v) => GenericResponse {
            status: String::from_str(SUCCESS),
            message: truncate_chars(v, HEALTH_SHOWN_CHARS),
        },
        Err(VaultError::ConnectionRefused) => GenericResponse {
            status: String::from_str(FAILURE),
            message: String::from_str("Dusa not running"),
        },
        Err(_) => GenericResponse {
            status: String::from_str(FAILURE),
            message: String::from_str("Dusa encountered an error"),
        },
    }
}

/// The send-mail handler's answer.
pub fn mail_reply(outcome: Result<(), String>) -> (r: GenericResponse)
    ensures
        (r.status@, r.message@) == mail_body(outcome),
{
    match outcome {
        Ok(_) => GenericResponse {
            status: String::from_str(SUCCESS),
            message: String::from_str("Email relayed!"),
        },
        Err(e) => GenericResponse { status: String::from_str(FAILURE), message: e },
    }
}

/// A failed call to the daemon never reads as a success: unreachable, the
/// check says the daemon is not running; any other failure says that it
/// met an error.
pub proof fn law_failed_probe_reports_failure(e: VaultError)
    ensures
        health_body(Err(e)).0 == failure_status(),
        e == VaultError::ConnectionRefused ==> health_body(Err(e)).1 == not_running_message(),
        e != VaultError::ConnectionRefused ==> health_body(Err(e)).1 == daemon_error_message(),
{
}

} // verus!
