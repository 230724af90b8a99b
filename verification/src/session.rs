//! The per-connection session state machine.
//!
//! A session moves through `Accepted -> Parsed -> Connected -> Relaying ->
//! Closed`, with a transition to `Closed` on failure from every stage.
//! `step` is the whole decision logic of a connection: it consumes the
//! outcome of the last I/O operation (an [`Event`]) and says which I/O
//! operation to perform next (an [`Action`]). The driver that owns the two
//! transports performs the action and feeds the outcome back; it makes no
//! decision of its own. Negotiation — the acknowledgment write for a tunnel,
//! or the forwarding write for a plain request — happens while the session
//! is `Connected`; its success moves the session to `Relaying`.

use vstd::prelude::*;

use crate::error::ProxyError;
use crate::head::connect_method;
use crate::head::connection_established;
use crate::head::established_response;
use crate::head::http_port_suffix;
use crate::head::is_connect_method;
use crate::head::lemma_connect_method_is_token;
use crate::head::lemma_request_head_tokens;
use crate::head::lemma_request_head_utf8;
use crate::head::no_whitespace;
use crate::head::request_head;
use crate::head::parse_request;
use crate::head::parse_spec;
use crate::head::resolve_target;
use crate::head::target_spec;
use crate::head::tokens;
use crate::text::is_utf8;

verus! {

/// The stage a session is in.
pub enum SessionState {
    /// The connection was accepted; nothing has been read yet.
    Accepted,
    /// The request head was read and parsed. `connect` says whether the
    /// method was CONNECT; `head` is the snapshot of the bytes read.
    Parsed { connect: bool, head: Vec<u8> },
    /// The origin connection is open; the negotiation write is next.
    Connected,
    /// Both directions are being relayed.
    Relaying,
    /// The session is over; `failure` says why, or `None` on success.
    Closed { failure: Option<ProxyError> },
}

/// The outcome of the I/O operation the driver was asked to perform.
pub enum Event {
    /// The first read returned these bytes (at least one).
    HeadArrived(Vec<u8>),
    /// The first read returned zero bytes.
    NoData,
    /// The first read failed.
    ReadFailed,
    /// The origin connection is open.
    ConnectSucceeded,
    /// The origin was unreachable or refused.
    ConnectFailed,
    /// The negotiation write completed.
    WriteSucceeded,
    /// The negotiation write failed.
    WriteFailed,
    /// Both relay directions ended with end-of-stream.
    RelayFinished,
    /// A relay direction failed.
    RelayFailed,
}

/// The I/O operation the driver is to perform next.
pub enum Action {
    /// Read the first chunk of bytes from the client.
    AwaitHead,
    /// Open a TCP connection to this address.
    Connect(Vec<u8>),
    /// Write these bytes to the client.
    WriteClient(Vec<u8>),
    /// Write these bytes to the origin.
    WriteOrigin(Vec<u8>),
    /// Relay bytes in both directions until both ends finish.
    Relay,
    /// Close both transports; the session is over.
    Close(Option<ProxyError>),
}

/// The mathematical model of a [`SessionState`].
pub enum StateModel {
    Accepted,
    Parsed { connect: bool, head: Seq<u8> },
    Connected,
    Relaying,
    Closed { failure: Option<ProxyError> },
}

/// The mathematical model of an [`Event`].
pub enum EventModel {
    HeadArrived(Seq<u8>),
    NoData,
    ReadFailed,
    ConnectSucceeded,
    ConnectFailed,
    WriteSucceeded,
    WriteFailed,
    RelayFinished,
    RelayFailed,
}

/// The mathematical model of an [`Action`].
pub enum ActionModel {
    AwaitHead,
    Connect(Seq<u8>),
    WriteClient(Seq<u8>),
    WriteOrigin(Seq<u8>),
    Relay,
    Close(Option<ProxyError>),
}

impl View for SessionState {
    type V = StateModel;

    open spec fn view(&self) -> StateModel {
        match self {
            SessionState::Accepted => StateModel::Accepted,
            SessionState::Parsed { connect, head } => StateModel::Parsed {
                connect: *connect,
                head: head@,
            },
            SessionState::Connected => StateModel::Connected,
            SessionState::Relaying => StateModel::Relaying,
            SessionState::Closed { failure } => StateModel::Closed { failure: *failure },
        }
    }
}

impl View for Event {
    type V = EventModel;

    open spec fn view(&self) -> EventModel {
        match self {
            Event::HeadArrived(head) => EventModel::HeadArrived(head@),
            Event::NoData => EventModel::NoData,
            Event::ReadFailed => EventModel::ReadFailed,
            Event::ConnectSucceeded => EventModel::ConnectSucceeded,
            Event::ConnectFailed => EventModel::ConnectFailed,
            Event::WriteSucceeded => EventModel::WriteSucceeded,
            Event::WriteFailed => EventModel::WriteFailed,
            Event::RelayFinished => EventModel::RelayFinished,
            Event::RelayFailed => EventModel::RelayFailed,
        }
    }
}

impl View for Action {
    type V = ActionModel;

    open spec fn view(&self) -> ActionModel {
        match self {
            Action::AwaitHead => ActionModel::AwaitHead,
            Action::Connect(target) => ActionModel::Connect(target@),
            Action::WriteClient(bytes) => ActionModel::WriteClient(bytes@),
            Action::WriteOrigin(bytes) => ActionModel::WriteOrigin(bytes@),
            Action::Relay => ActionModel::Relay,
            Action::Close(failure) => ActionModel::Close(*failure),
        }
    }
}

/// The events a session in state `s` can receive: exactly the outcomes of
/// the action the state machine last asked for.
pub open spec fn step_enabled(s: StateModel, e: EventModel) -> bool {
    match s {
        StateModel::Accepted => e is HeadArrived || e is NoData || e is ReadFailed,
        StateModel::Parsed { .. } => e is ConnectSucceeded || e is ConnectFailed,
        StateModel::Connected => e is WriteSucceeded || e is WriteFailed,
        StateModel::Relaying => e is RelayFinished || e is RelayFailed,
        StateModel::Closed { .. } => false,
    }
}

/// A session closed by the given failure, together with the closing action.
pub open spec fn closed_by(e: ProxyError) -> (StateModel, ActionModel) {
    (StateModel::Closed { failure: Some(e) }, ActionModel::Close(Some(e)))
}

/// The transition function of a session: from the current state and the
/// outcome of the last I/O operation to the next state and the next
/// operation.
pub open spec fn step_model(s: StateModel, e: EventModel) -> (StateModel, ActionModel)
    recommends
        step_enabled(s, e),
{
    match (s, e) {
        (StateModel::Accepted, EventModel::HeadArrived(head)) => match parse_spec(head) {
            Some((method, host)) => (
                StateModel::Parsed { connect: method == connect_method(), head },
                ActionModel::Connect(target_spec(method, host)),
            ),
            None => closed_by(ProxyError::ParseFailure),
        },
        (StateModel::Accepted, EventModel::NoData) => closed_by(ProxyError::NoInitialData),
        (StateModel::Accepted, EventModel::ReadFailed) => closed_by(ProxyError::ReadFailure),
        (StateModel::Parsed { connect, head }, EventModel::ConnectSucceeded) => if connect {
            (StateModel::Connected, ActionModel::WriteClient(established_response()))
        } else {
            (StateModel::Connected, ActionModel::WriteOrigin(head))
        },
        (StateModel::Parsed { .. }, EventModel::ConnectFailed) => closed_by(
            ProxyError::ConnectFailure,
        ),
        (StateModel::Connected, EventModel::WriteSucceeded) => (
            StateModel::Relaying,
            ActionModel::Relay,
        ),
        (StateModel::Connected, EventModel::WriteFailed) => closed_by(ProxyError::WriteFailure),
        (StateModel::Relaying, EventModel::RelayFinished) => (
            StateModel::Closed { failure: None },
            ActionModel::Close(None),
        ),
        (StateModel::Relaying, EventModel::RelayFailed) => closed_by(ProxyError::RelayFailure),
        _ => (s, ActionModel::Close(None)),
    }
}

/// A fresh session, together with the first action: read the request head.
pub fn session_start() -> (r: (SessionState, Action))
    ensures
        r.0@ == StateModel::Accepted,
        r.1@ == ActionModel::AwaitHead,
{
    (SessionState::Accepted, Action::AwaitHead)
}

/// Whether the state machine accepts this event in this state. The driver
/// checks this before calling [`step`].
pub fn step_allowed(state: &SessionState, event: &Event) -> (r: bool)
    ensures
        r == step_enabled(state@, event@),
{
    match state {
        SessionState::Accepted => match event {
            Event::HeadArrived(_) | Event::NoData | Event::ReadFailed => true,
            _ => false,
        },
        SessionState::Parsed { .. } => match event {
            Event::ConnectSucceeded | Event::ConnectFailed => true,
            _ => false,
        },
        SessionState::Connected => match event {
            Event::WriteSucceeded | Event::WriteFailed => true,
            _ => false,
        },
        SessionState::Relaying => match event {
            Event::RelayFinished | Event::RelayFailed => true,
            _ => false,
        },
        SessionState::Closed { .. } => false,
    }
}

/// Performs one transition of the session state machine.
pub fn step(state: SessionState, event: Event) -> (r: (SessionState, Action))
    requires
        step_enabled(state@, event@),
    ensures
        (r.0@, r.1@) == step_model(state@, event@),
{
    match (state, event) {
        (SessionState::Accepted, Event::HeadArrived(head)) => match parse_request(head.as_slice()) {
            Ok(parsed) => {
                let connect = is_connect_method(parsed.method.as_slice());
                let target = resolve_target(parsed.method.as_slice(), parsed.host.as_slice());
                (SessionState::Parsed { connect, head }, Action::Connect(target))
            },
            Err(e) => (SessionState::Closed { failure: Some(e) }, Action::Close(Some(e))),
        },
        (SessionState::Accepted, Event::NoData) => (
            SessionState::Closed { failure: Some(ProxyError::NoInitialData) },
            Action::Close(Some(ProxyError::NoInitialData)),
        ),
        (SessionState::Accepted, Event::ReadFailed) => (
            SessionState::Closed { failure: Some(ProxyError::ReadFailure) },
            Action::Close(Some(ProxyError::ReadFailure)),
        ),
        (SessionState::Parsed { connect, head }, Event::ConnectSucceeded) => if connect {
            (SessionState::Connected, Action::WriteClient(connection_established()))
        } else {
            (SessionState::Connected, Action::WriteOrigin(head))
        },
        (SessionState::Parsed { .. }, Event::ConnectFailed) => (
            SessionState::Closed { failure: Some(ProxyError::ConnectFailure) },
            Action::Close(Some(ProxyError::ConnectFailure)),
        ),
        (SessionState::Connected, Event::WriteSucceeded) => (SessionState::Relaying, Action::Relay),
        (SessionState::Connected, Event::WriteFailed) => (
            SessionState::Closed { failure: Some(ProxyError::WriteFailure) },
            Action::Close(Some(ProxyError::WriteFailure)),
        ),
        (SessionState::Relaying, Event::RelayFinished) => (
            SessionState::Closed { failure: None },
            Action::Close(None),
        ),
        (SessionState::Relaying, Event::RelayFailed) => (
            SessionState::Closed { failure: Some(ProxyError::RelayFailure) },
            Action::Close(Some(ProxyError::RelayFailure)),
        ),
        _ => {
            proof {
                assert(false);
            }
            (SessionState::Closed { failure: None }, Action::Close(None))
        },
    }
}

/// A well-formed CONNECT request head: text, at least five
/// whitespace-delimited tokens, and the method token is "CONNECT".
pub open spec fn well_formed_connect(head: Seq<u8>) -> bool {
    is_utf8(head) && tokens(head).len() >= 5 && tokens(head)[0] == connect_method()
}

/// A well-formed plain request head: text, at least five
/// whitespace-delimited tokens, and a method other than "CONNECT".
pub open spec fn well_formed_plain(head: Seq<u8>) -> bool {
    is_utf8(head) && tokens(head).len() >= 5 && tokens(head)[0] != connect_method()
}

/// Law: on a well-formed CONNECT head the session asks for a connection to
/// exactly the host the request names (the fifth token, port included), and
/// once the origin is connected it acknowledges the client with exactly the
/// established-response bytes, forwarding nothing to the origin.
pub proof fn lemma_connect_pipeline(head: Seq<u8>)
    requires
        well_formed_connect(head),
    ensures
        step_model(StateModel::Accepted, EventModel::HeadArrived(head)) == (
            StateModel::Parsed { connect: true, head },
            ActionModel::Connect(tokens(head)[4]),
        ),
        step_model(StateModel::Parsed { connect: true, head }, EventModel::ConnectSucceeded) == (
            StateModel::Connected,
            ActionModel::WriteClient(established_response()),
        ),
{
    assert(parse_spec(head) == Some((tokens(head)[0], tokens(head)[4])));
}

/// Law: on a well-formed plain (non-CONNECT) head the session asks for a
/// connection to the named host on port 80, and once the origin is
/// connected it forwards exactly the original head bytes to the origin
/// before anything is relayed.
pub proof fn lemma_plain_pipeline(head: Seq<u8>)
    requires
        well_formed_plain(head),
    ensures
        step_model(StateModel::Accepted, EventModel::HeadArrived(head)) == (
            StateModel::Parsed { connect: false, head },
            ActionModel::Connect(tokens(head)[4] + http_port_suffix()),
        ),
        step_model(StateModel::Parsed { connect: false, head }, EventModel::ConnectSucceeded) == (
            StateModel::Connected,
            ActionModel::WriteOrigin(head),
        ),
{
    assert(parse_spec(head) == Some((tokens(head)[0], tokens(head)[4])));
}

/// Law: a head that is not text or has fewer than five whitespace-delimited
/// tokens closes the session with a parse failure; nothing is connected,
/// written or relayed.
pub proof fn lemma_malformed_head_closes(head: Seq<u8>)
    requires
        !is_utf8(head) || tokens(head).len() < 5,
    ensures
        step_model(StateModel::Accepted, EventModel::HeadArrived(head)) == closed_by(
            ProxyError::ParseFailure,
        ),
{
}

/// Law: a refused or unreachable origin closes the session with a connect
/// failure; the closing action writes nothing.
pub proof fn lemma_refused_connect_closes(s: StateModel)
    requires
        step_enabled(s, EventModel::ConnectFailed),
    ensures
        step_model(s, EventModel::ConnectFailed) == closed_by(ProxyError::ConnectFailure),
{
}

/// Law: no byte is ever written to the client except the established
/// response, and only right after the origin connection of a CONNECT
/// request succeeded. In particular a session whose origin refused can
/// never have sent a partial response to the client.
pub proof fn lemma_client_write_only_after_connect(s: StateModel, e: EventModel)
    requires
        step_enabled(s, e),
    ensures
        step_model(s, e).1 matches ActionModel::WriteClient(bytes) ==> {
            &&& bytes == established_response()
            &&& e is ConnectSucceeded
            &&& s matches StateModel::Parsed { connect, .. } && connect
        },
{
}

/// Law: the relay starts only once the negotiation write has succeeded; for
/// a plain request the origin therefore holds the forwarded head before any
/// relayed byte.
pub proof fn lemma_relay_only_after_write(s: StateModel, e: EventModel)
    requires
        step_enabled(s, e),
    ensures
        step_model(s, e).1 is Relay ==> s is Connected && e is WriteSucceeded,
{
}

/// Law: for every request `CONNECT hp HTTP/1.1\r\nHost: hp\r\n\r\n` whose
/// `hp` is a non-empty whitespace-free piece of text, the session dials
/// exactly `hp`, acknowledges the client with exactly the
/// established-response bytes once the origin is connected, forwards
/// nothing to the origin, relays once the acknowledgment is written, and
/// closes without failure when both relay directions finish.
pub proof fn lemma_connect_request_session(hp: Seq<u8>)
    requires
        hp.len() > 0,
        no_whitespace(hp),
        is_utf8(hp),
    ensures
        ({
            let head = request_head(connect_method(), hp, hp);
            &&& step_model(StateModel::Accepted, EventModel::HeadArrived(head)) == (
                StateModel::Parsed { connect: true, head },
                ActionModel::Connect(hp),
            )
            &&& step_model(StateModel::Parsed { connect: true, head }, EventModel::ConnectSucceeded)
                == (StateModel::Connected, ActionModel::WriteClient(established_response()))
            &&& step_model(StateModel::Connected, EventModel::WriteSucceeded) == (
                StateModel::Relaying,
                ActionModel::Relay,
            )
            &&& step_model(StateModel::Relaying, EventModel::RelayFinished) == (
                StateModel::Closed { failure: None },
                ActionModel::Close(None),
            )
        }),
{
    lemma_connect_method_is_token();
    lemma_request_head_tokens(connect_method(), hp, hp);
    lemma_request_head_utf8(connect_method(), hp, hp);
    lemma_connect_pipeline(request_head(connect_method(), hp, hp));
}

/// Law: for every request `METHOD target HTTP/1.1\r\nHost: host\r\n\r\n`
/// whose method is not CONNECT and whose pieces are non-empty
/// whitespace-free text, the session dials `host` with ":80" appended, and
/// once the origin is connected it forwards exactly the original head bytes
/// to the origin before anything is relayed.
pub proof fn lemma_plain_request_session(method: Seq<u8>, target: Seq<u8>, host: Seq<u8>)
    requires
        method.len() > 0,
        no_whitespace(method),
        is_utf8(method),
        method != connect_method(),
        target.len() > 0,
        no_whitespace(target),
        is_utf8(target),
        host.len() > 0,
        no_whitespace(host),
        is_utf8(host),
    ensures
        ({
            let head = request_head(method, target, host);
            &&& step_model(StateModel::Accepted, EventModel::HeadArrived(head)) == (
                StateModel::Parsed { connect: false, head },
                ActionModel::Connect(host + http_port_suffix()),
            )
            &&& step_model(
                StateModel::Parsed { connect: false, head },
                EventModel::ConnectSucceeded,
            ) == (StateModel::Connected, ActionModel::WriteOrigin(head))
        }),
{
    lemma_request_head_tokens(method, target, host);
    lemma_request_head_utf8(method, target, host);
    lemma_plain_pipeline(request_head(method, target, host));
}

/// The next diagnostic connection identifier. The dispatcher assigns one to
/// each accepted connection; the counter wraps at the top of its range.
pub fn next_connection_id(id: u64) -> (r: u64)
    ensures
        id < u64::MAX ==> r == id + 1,
        id == u64::MAX ==> r == 0,
{
    if id == u64::MAX {
        0
    } else {
        id + 1
    }
}

} // verus!
