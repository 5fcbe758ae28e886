//! The connection wrapper: its address, its request counter, and what each
//! outcome of the transport does to its state.

use vstd::prelude::*;

use crate::messages::{command_json, ClientMessage, ServerMessage};
use crate::types::AppIdentifiers;

verus! {

/// The address used when the caller gives none: the application's local port.
pub const DEFAULT_ADDRESS: &'static str = "ws://127.0.0.1:8124";

#[verifier::external_type_specification]
#[verifier::external_body]
pub struct ExParseError(url::ParseError);

/// The address that `url::Url::parse_with_params` serializes from a base
/// address and a list of query pairs, or `None` where the base does not parse.
pub uninterp spec fn address_with_query(
    base: Seq<char>,
    pairs: Seq<(Seq<char>, Seq<char>)>,
) -> Option<Seq<char>>;

/// The characters of each key and value of a list of query pairs.
pub open spec fn pair_views(pairs: Seq<(&str, &str)>) -> Seq<(Seq<char>, Seq<char>)> {
    pairs.map_values(|p: (&str, &str)| (p.0@, p.1@))
}

/// Relies on `url::Url::parse_with_params`, which parses `base`, appends the
/// pairs to its query and fails only where `base` does not parse, and on
/// `url::Url::as_str`, its serialization.
#[verifier::external_body]
fn parse_with_params(base: &str, pairs: &Vec<(&str, &str)>) -> (r: Result<String, url::ParseError>)
    ensures
        match r {
            Ok(a) => address_with_query(base@, pair_views(pairs@)) == Some(a@),
            Err(_) => address_with_query(base@, pair_views(pairs@)) is None,
        },
{
    match url::Url::parse_with_params(base, pairs.iter()) {
        Ok(u) => Ok(u.as_str().to_string()),
        Err(e) => Err(e),
    }
}

/// Relies on `url::ParseError`'s `Display`, for the message of an address error.
#[verifier::external_body]
fn describe_parse_error(e: &url::ParseError) -> (r: String) {
    e.to_string()
}

/// What went wrong in an operation of [`TeamsWebsocket`].
#[derive(Clone, Copy, Debug, PartialEq, Eq, Structural)]
pub enum ErrorKind {
    /// The query parameters could not be attached to the base address.
    AddressError,
    /// The handshake failed.
    ConnectError,
    /// No channel is open.
    NotConnectedError,
    /// Writing a frame failed.
    SendError,
    /// A frame was not a text frame holding a valid response.
    DecodeError,
    /// No frame arrived within the wait.
    TimeoutError,
    /// The channel reported the end of the stream.
    ConnectionClosedError,
    /// The channel reported a read failure.
    TransportError,
    /// The graceful shutdown failed.
    CloseError,
}

/// A failed operation: its kind and a message for people.
#[derive(Clone, Debug, PartialEq, Eq)]
pub struct WebsocketError {
    pub kind: ErrorKind,
    pub message: String,
}

impl WebsocketError {
    fn new(kind: ErrorKind, message: String) -> (r: Self)
        ensures
            r.kind == kind,
            r.message == message,
    {
        WebsocketError { kind, message }
    }

    fn not_connected() -> (r: Self)
        ensures
            r.kind == ErrorKind::NotConnectedError,
    {
        WebsocketError { kind: ErrorKind::NotConnectedError, message: String::from_str("socket not connected") }
    }
}

/// What the transport reported when the caller waited for the next frame.
pub enum Inbound {
    /// No frame arrived within the wait.
    Elapsed,
    /// The channel reported the end of the stream.
    EndOfStream,
    /// The channel reported a read failure, with its message.
    ReadFailed(String),
    /// A text frame that decoded as a response.
    Decoded(ServerMessage),
    /// A frame that was not text, or text that is not a valid response, with
    /// a message.
    Undecodable(String),
}

/// The state of a [`TeamsWebsocket`], as its contracts see it.
pub struct ConnectionModel {
    pub identifier: AppIdentifiers,
    pub token: Option<String>,
    pub url: Seq<char>,
    pub request_id: int,
    pub connected: bool,
}

impl ConnectionModel {
    /// The query parameters of the connection address, in order; a missing
    /// token is sent as an empty one.
    pub open spec fn query_pairs(self) -> Seq<(Seq<char>, Seq<char>)> {
        seq![
            ("protocol-version"@, self.identifier.protocol_version@),
            ("manufacturer"@, self.identifier.manufacturer@),
            ("device"@, self.identifier.device@),
            ("app"@, self.identifier.app@),
            ("app-version"@, self.identifier.app_version@),
            ("token"@, match self.token {
                Some(t) => t@,
                None => ""@,
            }),
        ]
    }

    /// The same state with another request counter.
    pub open spec fn with_counter(self, request_id: int) -> ConnectionModel {
        ConnectionModel { request_id, ..self }
    }

    /// The same state, connected or not.
    pub open spec fn with_connected(self, connected: bool) -> ConnectionModel {
        ConnectionModel { connected, ..self }
    }
}

/// A command with its request identifier set to `id`.
pub open spec fn with_request_id(m: ClientMessage, id: int) -> ClientMessage {
    ClientMessage { request_id: Some(id as i32), ..m }
}

/// One successful `send`: from `pre`, the command `m` went out as `frame`,
/// leaving the state `post`.
pub open spec fn send_step(
    pre: ConnectionModel,
    m: ClientMessage,
    post: ConnectionModel,
    frame: Seq<char>,
) -> bool {
    &&& pre.connected
    &&& frame == command_json(with_request_id(m, pre.request_id))
    &&& post == pre.with_counter(pre.request_id + 1)
}

/// One logical connection to the application's automation socket.
///
/// The wrapper decides; the caller moves the bytes. Each operation takes the
/// outcome of the transport work that the caller did for it (the handshake,
/// a write, a read, a shutdown) and returns what the operation returns. While
/// the wrapper is not connected, no transport work is owed: `send`, `receive`
/// and `close` fail at once, and [`TeamsWebsocket::ensure_connected`] tells
/// the caller so before it starts.
pub struct TeamsWebsocket {
    identifier: AppIdentifiers,
    token: Option<String>,
    url: String,
    request_id: i32,
    connected: bool,
}

impl View for TeamsWebsocket {
    type V = ConnectionModel;

    closed spec fn view(&self) -> ConnectionModel {
        ConnectionModel {
            identifier: self.identifier,
            token: self.token,
            url: self.url@,
            request_id: self.request_id as int,
            connected: self.connected,
        }
    }
}

impl TeamsWebsocket {
    /// A disconnected wrapper with a request counter of 0. Without `url` it
    /// addresses [`DEFAULT_ADDRESS`].
    pub fn new(identifier: AppIdentifiers, token: Option<String>, url: Option<String>) -> (r: Self)
        ensures
            r@.identifier == identifier,
            r@.token == token,
            r@.url == match url {
                Some(u) => u@,
                None => DEFAULT_ADDRESS@,
            },
            r@.request_id == 0,
            !r@.connected,
    {
        let url = match url {
            Some(u) => u,
            None => String::from_str(DEFAULT_ADDRESS),
        };
        TeamsWebsocket { identifier, token, url, request_id: 0, connected: false }
    }

    pub fn identifier(&self) -> (r: &AppIdentifiers)
        ensures
            *r == self@.identifier,
    {
        &self.identifier
    }

    pub fn token(&self) -> (r: &Option<String>)
        ensures
            *r == self@.token,
    {
        &self.token
    }

    pub fn url(&self) -> (r: &str)
        ensures
            r@ == self@.url,
    {
        self.url.as_str()
    }

    /// The identifier that the next command will carry.
    pub fn request_id(&self) -> (r: i32)
        ensures
            r as int == self@.request_id,
    {
        self.request_id
    }

    /// Whether a channel is open.
    pub fn is_connected(&self) -> (r: bool)
        ensures
            r == self@.connected,
    {
        self.connected
    }

    /// Fails with `NotConnectedError` unless a channel is open.
    pub fn ensure_connected(&self) -> (r: Result<(), WebsocketError>)
        ensures
            r is Ok <==> self@.connected,
            r is Err ==> r->Err_0.kind == ErrorKind::NotConnectedError,
    {
        if self.connected {
            Ok(())
        } else {
            Err(WebsocketError::not_connected())
        }
    }

    /// The address to open: the configured base address with the identity
    /// and the token attached as query parameters.
    pub fn connect_address(&self) -> (r: Result<String, WebsocketError>)
        ensures
            match address_with_query(self@.url, self@.query_pairs()) {
                Some(a) => r is Ok && r->Ok_0@ == a,
                None => r is Err && r->Err_0.kind == ErrorKind::AddressError,
            },
    {
        let token: &str = match &self.token {
            Some(t) => t.as_str(),
            None => "",
        };
        let pairs: Vec<(&str, &str)> = vec![
            ("protocol-version", self.identifier.protocol_version),
            ("manufacturer", self.identifier.manufacturer),
            ("device", self.identifier.device),
            ("app", self.identifier.app),
            ("app-version", self.identifier.app_version),
            ("token", token),
        ];
        assert(pair_views(pairs@) =~= self@.query_pairs());
        match parse_with_params(self.url.as_str(), &pairs) {
            Ok(a) => Ok(a),
            Err(e) => Err(WebsocketError::new(ErrorKind::AddressError, describe_parse_error(&e))),
        }
    }

    /// Records the outcome of the handshake with the address from
    /// [`TeamsWebsocket::connect_address`]. On success the new channel is the
    /// wrapper's only one, whether or not one was open before; a failure
    /// leaves the state as it was.
    pub fn connect(&mut self, handshake: Result<(), String>) -> (r: Result<(), WebsocketError>)
        ensures
            match handshake {
                Ok(()) => r is Ok && final(self)@ == old(self)@.with_connected(true),
                Err(m) => r is Err && r->Err_0.kind == ErrorKind::ConnectError && r->Err_0.message
                    == m && final(self)@ == old(self)@,
            },
    {
        match handshake {
            Ok(()) => {
                self.connected = true;
                Ok(())
            },
            Err(m) => Err(WebsocketError::new(ErrorKind::ConnectError, m)),
        }
    }

    /// Assigns the next request identifier to `message` and returns the text
    /// frame to write. The counter advances as soon as the identifier is
    /// assigned, so a write that fails afterwards still consumes it. Without
    /// an open channel nothing changes.
    pub fn send(&mut self, message: ClientMessage) -> (r: Result<String, WebsocketError>)
        requires
            old(self)@.connected ==> old(self)@.request_id < i32::MAX,
        ensures
            old(self)@.connected ==> r is Ok && send_step(old(self)@, message, final(self)@, r->Ok_0@),
            !old(self)@.connected ==> r is Err && r->Err_0.kind == ErrorKind::NotConnectedError
                && final(self)@ == old(self)@,
    {
        if !self.connected {
            return Err(WebsocketError::not_connected());
        }
        let mut message = message;
        message.request_id = Some(self.request_id);
        self.request_id = self.request_id + 1;
        Ok(message.to_json())
    }

    /// The result of `send` once the caller has written its frame.
    pub fn finish_send(&self, write: Result<(), String>) -> (r: Result<(), WebsocketError>)
        ensures
            match write {
                Ok(()) => r is Ok,
                Err(m) => r is Err && r->Err_0.kind == ErrorKind::SendError && r->Err_0.message
                    == m,
            },
    {
        match write {
            Ok(()) => Ok(()),
            Err(m) => Err(WebsocketError::new(ErrorKind::SendError, m)),
        }
    }

    /// The result of a bounded wait for the next frame. The state is never
    /// changed: after a timeout the channel stays open for the next wait.
    pub fn receive(&self, inbound: Inbound) -> (r: Result<ServerMessage, WebsocketError>)
        ensures
            !self@.connected ==> r is Err && r->Err_0.kind == ErrorKind::NotConnectedError,
            self@.connected ==> match inbound {
                Inbound::Decoded(m) => r == Ok::<ServerMessage, WebsocketError>(m),
                Inbound::Elapsed => r is Err && r->Err_0.kind == ErrorKind::TimeoutError,
                Inbound::EndOfStream => r is Err && r->Err_0.kind
                    == ErrorKind::ConnectionClosedError,
                Inbound::ReadFailed(e) => r is Err && r->Err_0.kind == ErrorKind::TransportError
                    && r->Err_0.message == e,
                Inbound::Undecodable(e) => r is Err && r->Err_0.kind == ErrorKind::DecodeError
                    && r->Err_0.message == e,
            },
    {
        if !self.connected {
            return Err(WebsocketError::not_connected());
        }
        match inbound {
            Inbound::Decoded(m) => Ok(m),
            Inbound::Elapsed => Err(
                WebsocketError::new(
                    ErrorKind::TimeoutError,
                    String::from_str("no frame arrived within the wait"),
                ),
            ),
            Inbound::EndOfStream => Err(
                WebsocketError::new(ErrorKind::ConnectionClosedError, String::from_str("socket closed")),
            ),
            Inbound::ReadFailed(e) => Err(WebsocketError::new(ErrorKind::TransportError, e)),
            Inbound::Undecodable(e) => Err(WebsocketError::new(ErrorKind::DecodeError, e)),
        }
    }

    /// Records the outcome of the graceful shutdown of the open channel. On
    /// success the channel is gone; a failure leaves it in place. Without an
    /// open channel this fails and changes nothing.
    pub fn close(&mut self, shutdown: Result<(), String>) -> (r: Result<(), WebsocketError>)
        ensures
            !old(self)@.connected ==> r is Err && r->Err_0.kind == ErrorKind::NotConnectedError
                && final(self)@ == old(self)@,
            old(self)@.connected ==> match shutdown {
                Ok(()) => r is Ok && final(self)@ == old(self)@.with_connected(false),
                Err(m) => r is Err && r->Err_0.kind == ErrorKind::CloseError && r->Err_0.message
                    == m && final(self)@ == old(self)@,
            },
    {
        if !self.connected {
            return Err(WebsocketError::not_connected());
        }
        match shutdown {
            Ok(()) => {
                self.connected = false;
                Ok(())
            },
            Err(m) => Err(WebsocketError::new(ErrorKind::CloseError, m)),
        }
    }
}

proof fn lemma_counter_counts_sends(
    states: Seq<ConnectionModel>,
    messages: Seq<ClientMessage>,
    frames: Seq<Seq<char>>,
    k: int,
)
    requires
        states.len() == messages.len() + 1,
        frames.len() == messages.len(),
        states[0].request_id == 0,
        forall|i: int|
            0 <= i < messages.len() ==> #[trigger] send_step(
                states[i],
                messages[i],
                states[i + 1],
                frames[i],
            ),
        0 <= k <= messages.len(),
    ensures
        states[k].request_id == k,
    decreases k,
{
    if k > 0 {
        lemma_counter_counts_sends(states, messages, frames, k - 1);
        assert(send_step(states[k - 1], messages[k - 1], states[k], frames[k - 1]));
    }
}

/// Starting from a counter of 0, a run of successful sends assigns the
/// request identifiers 0, 1, 2, ... in call order, whatever the commands.
pub proof fn lemma_request_ids_in_call_order(
    states: Seq<ConnectionModel>,
    messages: Seq<ClientMessage>,
    frames: Seq<Seq<char>>,
)
    requires
        states.len() == messages.len() + 1,
        frames.len() == messages.len(),
        states[0].request_id == 0,
        forall|i: int|
            0 <= i < messages.len() ==> #[trigger] send_step(
                states[i],
                messages[i],
                states[i + 1],
                frames[i],
            ),
    ensures
        forall|i: int|
            0 <= i < messages.len() ==> #[trigger] frames[i] == command_json(
                with_request_id(messages[i], i),
            ),
        states[messages.len() as int].request_id == messages.len(),
{
    assert forall|i: int| 0 <= i < messages.len() implies #[trigger] frames[i] == command_json(
        with_request_id(messages[i], i),
    ) by {
        lemma_counter_counts_sends(states, messages, frames, i);
        assert(send_step(states[i], messages[i], states[i + 1], frames[i]));
    }
    lemma_counter_counts_sends(states, messages, frames, messages.len() as int);
}

} // verus!
