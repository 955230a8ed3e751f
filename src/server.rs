//! The lifecycle of one inbound connection on the TLS front end, and which
//! failures end the whole process.
//!
//! A connection goes `Accepted -> Handshaking -> Serving -> Closed`; a failed
//! handshake closes it at once. Only startup failures end the process: what
//! goes wrong with one connection ends that connection alone.
//!
//! The server's connection tasks report each event through `step`, and ask
//! `ends_process` whether a failure is fatal.
use vstd::prelude::*;

verus! {

/// Where one connection stands.
#[derive(Clone, Copy, Debug, PartialEq, Eq, Structural)]
pub enum ConnState {
    Accepted,
    Handshaking,
    Serving,
    Closed,
}

/// What happened on one connection.
#[derive(Clone, Copy, Debug, PartialEq, Eq, Structural)]
pub enum ConnEvent {
    /// The server took the connection up.
    Started,
    HandshakeSucceeded,
    HandshakeFailed,
    /// One request was answered; the connection may carry more.
    ExchangeServed,
    /// The peer closed the transport.
    TransportClosed,
    /// The peer broke the HTTP protocol.
    ProtocolViolation,
    /// Writing an answer failed.
    WriteFailed,
}

/// A failure somewhere in the server.
#[derive(Clone, Copy, Debug, PartialEq, Eq, Structural)]
pub enum ServerError {
    /// The listening address could not be bound.
    Bind,
    /// The certificate chain or the private key could not be loaded.
    Credentials,
    /// Taking up one inbound connection failed.
    Accept,
    /// The TLS handshake of one connection failed.
    Handshake,
    /// Serving one connection failed.
    Serve,
}

/// The state a connection moves to on `e`; an event that does not fit the
/// state leaves it where it is.
pub open spec fn next_state(s: ConnState, e: ConnEvent) -> ConnState {
    match (s, e) {
        (ConnState::Accepted, ConnEvent::Started) => ConnState::Handshaking,
        (ConnState::Handshaking, ConnEvent::HandshakeSucceeded) => ConnState::Serving,
        (ConnState::Handshaking, ConnEvent::HandshakeFailed) => ConnState::Closed,
        (ConnState::Serving, ConnEvent::ExchangeServed) => ConnState::Serving,
        (ConnState::Serving, ConnEvent::TransportClosed) => ConnState::Closed,
        (ConnState::Serving, ConnEvent::ProtocolViolation) => ConnState::Closed,
        (ConnState::Serving, ConnEvent::WriteFailed) => ConnState::Closed,
        _ => s,
    }
}

/// The state reached from `s` after the events of `es`, in order.
pub open spec fn run_state(s: ConnState, es: Seq<ConnEvent>) -> ConnState
    decreases es.len(),
{
    if es.len() == 0 {
        s
    } else {
        run_state(next_state(s, es[0]), es.drop_first())
    }
}

/// Whether the failure ends the process.
pub open spec fn is_fatal(e: ServerError) -> bool {
    e == ServerError::Bind || e == ServerError::Credentials
}

pub fn step(s: ConnState, e: ConnEvent) -> (r: ConnState)
    ensures
        r == next_state(s, e),
{
    match (s, e) {
        (ConnState::Accepted, ConnEvent::Started) => ConnState::Handshaking,
        (ConnState::Handshaking, ConnEvent::HandshakeSucceeded) => ConnState::Serving,
        (ConnState::Handshaking, ConnEvent::HandshakeFailed) => ConnState::Closed,
        (ConnState::Serving, ConnEvent::ExchangeServed) => ConnState::Serving,
        (ConnState::Serving, ConnEvent::TransportClosed) => ConnState::Closed,
        (ConnState::Serving, ConnEvent::ProtocolViolation) => ConnState::Closed,
        (ConnState::Serving, ConnEvent::WriteFailed) => ConnState::Closed,
        _ => s,
    }
}

proof fn lemma_run_state_push(s: ConnState, es: Seq<ConnEvent>, e: ConnEvent)
    ensures
        run_state(s, es.push(e)) == next_state(run_state(s, es), e),
    decreases es.len(),
{
    if es.len() > 0 {
        assert(es.push(e).drop_first() =~= es.drop_first().push(e));
        assert(es.push(e)[0] == es[0]);
        lemma_run_state_push(next_state(s, es[0]), es.drop_first(), e);
    } else {
        assert(es.push(e).drop_first() =~= Seq::<ConnEvent>::empty());
        assert(es.push(e)[0] == e);
        assert(run_state(next_state(s, e), Seq::<ConnEvent>::empty()) == next_state(s, e));
    }
}

/// The state of a new connection after the events of `events`.
pub fn replay(events: &Vec<ConnEvent>) -> (r: ConnState)
    ensures
        r == run_state(ConnState::Accepted, events@),
{
    let mut s = ConnState::Accepted;
    let mut i: usize = 0;
    while i < events.len()
        invariant
            i <= events@.len(),
            s == run_state(ConnState::Accepted, events@.subrange(0, i as int)),
        decreases events@.len() - i,
    {
        proof {
            lemma_run_state_push(ConnState::Accepted, events@.subrange(0, i as int), events@[i as int]);
            assert(events@.subrange(0, i + 1) =~= events@.subrange(0, i as int).push(events@[i as int]));
        }
        s = step(s, events[i]);
        i += 1;
    }
    assert(events@.subrange(0, events@.len() as int) =~= events@);
    s
}

/// Whether the failure ends the process rather than one connection.
pub fn ends_process(e: ServerError) -> (r: bool)
    ensures
        r == is_fatal(e),
{
    match e {
        ServerError::Bind | ServerError::Credentials => true,
        _ => false,
    }
}

/// A closed connection stays closed, whatever else is reported on it.
pub proof fn law_closed_is_final(es: Seq<ConnEvent>)
    ensures
        run_state(ConnState::Closed, es) == ConnState::Closed,
    decreases es.len(),
{
    if es.len() > 0 {
        law_closed_is_final(es.drop_first());
    }
}

/// A failed handshake closes its connection before it serves anything, and
/// ends neither the accept loop nor the process: only a failure to bind or to
/// load the credentials does.
pub proof fn law_handshake_failure_is_contained(es: Seq<ConnEvent>)
    ensures
        run_state(ConnState::Accepted, seq![ConnEvent::Started, ConnEvent::HandshakeFailed] + es)
            == ConnState::Closed,
        !is_fatal(ServerError::Handshake),
        !is_fatal(ServerError::Serve),
        !is_fatal(ServerError::Accept),
{
    let all = seq![ConnEvent::Started, ConnEvent::HandshakeFailed] + es;
    let rest = all.drop_first();
    assert(all[0] == ConnEvent::Started);
    assert(rest[0] == ConnEvent::HandshakeFailed);
    assert(rest.drop_first() =~= es);
    law_closed_is_final(es);
    assert(run_state(ConnState::Handshaking, rest) == run_state(ConnState::Closed, es));
}

} // verus!
