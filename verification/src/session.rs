//! The server's decisions for one client connection: what to do with each
//! chunk read from the client, and with each message relayed from another
//! connection. The caller performs the steps (database, socket, log file).
use vstd::prelude::*;
use crate::protocol::{
    classify_request, frame, frame_text, forward_line, forward_line_text, name_reply,
    name_reply_text, radio_reply, radio_reply_text, received, received_text, request_of, unframe,
    unframe_text, lemma_unframe_frame, ClientRequest, RequestView, BAD_RADIO_REPLY,
};
use crate::sql::{
    delete_user_sql, delete_user_statement, insert_user_sql, insert_user_statement,
    lookup_name_sql, lookup_name_statement, name_from_lookup, name_from_rows, rename_user_sql,
    rename_user_statement, set_radio_sql, set_radio_statement, string_views,
};

verus! {

broadcast use vstd::string::group_string_axioms;

/// What reading from a client produced.
pub enum ReadEvent {
    /// The client closed the connection (a read of zero bytes).
    Closed,
    /// The bytes of one read.
    Data(Vec<u8>),
    /// The connection failed: reading from it, writing to it, or carrying
    /// out a statement for it went wrong.
    Failed,
}

/// The mathematical form of a `ReadEvent`.
pub enum ReadEventView {
    Closed,
    Data(Seq<u8>),
    Failed,
}

impl View for ReadEvent {
    type V = ReadEventView;

    open spec fn view(&self) -> ReadEventView {
        match self {
            ReadEvent::Closed => ReadEventView::Closed,
            ReadEvent::Data(b) => ReadEventView::Data(b@),
            ReadEvent::Failed => ReadEventView::Failed,
        }
    }
}

/// What the server does after a read from a client.
#[derive(Debug)]
pub enum SessionStep {
    /// Look the client's name up with `lookup`, log `note` (where there is
    /// one) under that name, run `remove`, and end the connection.
    Disconnect { lookup: String, note: Option<String>, remove: String },
    /// Run `statement` and answer `reply` to the client.
    Update { statement: String, reply: String },
    /// Answer `reply` to the client.
    Refuse { reply: String },
    /// Look the client's name up with `lookup`, hand `frame` to every
    /// connection, and log `note` (where there is one) under that name.
    Relay { lookup: String, frame: String, note: Option<String> },
    /// Run `remove` and end the connection.
    Abort { remove: String },
}

/// The view of an optional string.
pub open spec fn opt_view(s: &Option<String>) -> Option<Seq<char>> {
    match s {
        Some(t) => Some(t@),
        None => None,
    }
}

/// The mathematical form of a `SessionStep`.
pub enum StepView {
    Disconnect { lookup: Seq<char>, note: Option<Seq<char>>, remove: Seq<char> },
    Update { statement: Seq<char>, reply: Seq<char> },
    Refuse { reply: Seq<char> },
    Relay { lookup: Seq<char>, frame: Seq<char>, note: Option<Seq<char>> },
    Abort { remove: Seq<char> },
}

impl View for SessionStep {
    type V = StepView;

    open spec fn view(&self) -> StepView {
        match self {
            SessionStep::Disconnect { lookup, note, remove } => StepView::Disconnect {
                lookup: lookup@,
                note: opt_view(note),
                remove: remove@,
            },
            SessionStep::Update { statement, reply } => StepView::Update {
                statement: statement@,
                reply: reply@,
            },
            SessionStep::Refuse { reply } => StepView::Refuse { reply: reply@ },
            SessionStep::Relay { lookup, frame, note } => StepView::Relay {
                lookup: lookup@,
                frame: frame@,
                note: opt_view(note),
            },
            SessionStep::Abort { remove } => StepView::Abort { remove: remove@ },
        }
    }
}

/// The log message for a connection that the server accepted.
pub open spec fn accepted_note(peer: Seq<char>) -> Seq<char> {
    "Accepted connection from "@ + peer
}

/// The log message for a completed TLS handshake.
pub open spec fn handshake_note(peer: Seq<char>) -> Seq<char> {
    "Mututal TLS Handshake successful with "@ + peer
}

/// The log message for a failed TLS handshake.
pub open spec fn handshake_failed_note(peer: Seq<char>) -> Seq<char> {
    "TLS Accept error from "@ + peer
}

/// The log message for a client that closed its connection.
pub open spec fn disconnected_note(peer: Seq<char>) -> Seq<char> {
    "Client "@ + peer + " disconnected"@
}

/// The log message for a connection that the server accepted.
pub fn accepted_note_text(peer: &str) -> (r: String)
    ensures
        r@ == accepted_note(peer@),
{
    let mut r = String::from_str("Accepted connection from ");
    r.append(peer);
    r
}

/// The log message for a completed TLS handshake.
pub fn handshake_note_text(peer: &str) -> (r: String)
    ensures
        r@ == handshake_note(peer@),
{
    let mut r = String::from_str("Mututal TLS Handshake successful with ");
    r.append(peer);
    r
}

/// The log message for a failed TLS handshake.
pub fn handshake_failed_note_text(peer: &str) -> (r: String)
    ensures
        r@ == handshake_failed_note(peer@),
{
    let mut r = String::from_str("TLS Accept error from ");
    r.append(peer);
    r
}

/// The log message for a client that closed its connection.
pub fn disconnected_note_text(peer: &str) -> (r: String)
    ensures
        r@ == disconnected_note(peer@),
{
    let mut r = String::from_str("Client ");
    r.append(peer);
    r.append(" disconnected");
    r
}

/// What the log file holds once a server has been created with logging on.
pub const SERVER_CREATED_LOG: &'static str = "MinilinkServer created\n";

/// What the log file holds once a server has started.
pub const SERVER_STARTED_LOG: &'static str = "MinilinkServer started\n";

/// What the server writes to its log file when it is created, where
/// logging is on.
pub fn on_create(should_log: bool) -> (r: Option<String>)
    ensures
        opt_view(&r) == logged(should_log, SERVER_CREATED_LOG@),
{
    if should_log {
        Some(String::from_str(SERVER_CREATED_LOG))
    } else {
        None
    }
}

/// What the server writes to its log file when it starts, where logging is
/// on.
pub fn on_start(should_log: bool) -> (r: Option<String>)
    ensures
        opt_view(&r) == logged(should_log, SERVER_STARTED_LOG@),
{
    if should_log {
        Some(String::from_str(SERVER_STARTED_LOG))
    } else {
        None
    }
}

/// The log message for a newly accepted connection from `peer`, where
/// logging is on.
pub fn on_accept(peer: &str, should_log: bool) -> (r: Option<String>)
    ensures
        opt_view(&r) == logged(should_log, accepted_note(peer@)),
{
    if should_log {
        Some(accepted_note_text(peer))
    } else {
        None
    }
}

/// What the server does once the TLS handshake with `peer` has ended.
#[derive(Debug)]
pub enum HandshakeStep {
    /// Run `register` and log `note` where there is one.
    Admit { register: String, note: Option<String> },
    /// Log `failure` where there is one, and end the connection.
    Reject { failure: Option<String> },
}

/// The mathematical form of a `HandshakeStep`.
pub enum HandshakeView {
    Admit { register: Seq<char>, note: Option<Seq<char>> },
    Reject { failure: Option<Seq<char>> },
}

impl View for HandshakeStep {
    type V = HandshakeView;

    open spec fn view(&self) -> HandshakeView {
        match self {
            HandshakeStep::Admit { register, note } => HandshakeView::Admit {
                register: register@,
                note: opt_view(note),
            },
            HandshakeStep::Reject { failure } => HandshakeView::Reject { failure: opt_view(failure) },
        }
    }
}

/// What the server does once the TLS handshake with `peer` has ended,
/// successfully or not: a client that completed it is registered under its
/// address as its name; either outcome is logged only where logging is on.
pub open spec fn handshake_of(peer: Seq<char>, should_log: bool, succeeded: bool) -> HandshakeView {
    if succeeded {
        HandshakeView::Admit {
            register: insert_user_sql(peer, peer),
            note: logged(should_log, handshake_note(peer)),
        }
    } else {
        HandshakeView::Reject { failure: logged(should_log, handshake_failed_note(peer)) }
    }
}

/// What the server does once the TLS handshake with `peer` has ended.
pub fn on_handshake(peer: &str, should_log: bool, succeeded: bool) -> (r: HandshakeStep)
    ensures
        r@ == handshake_of(peer@, should_log, succeeded),
{
    if succeeded {
        HandshakeStep::Admit {
            register: insert_user_statement(peer, peer),
            note: if should_log {
                Some(handshake_note_text(peer))
            } else {
                None
            },
        }
    } else {
        HandshakeStep::Reject {
            failure: if should_log {
                Some(handshake_failed_note_text(peer))
            } else {
                None
            },
        }
    }
}

/// `note` where logging is on.
pub open spec fn logged(should_log: bool, note: Seq<char>) -> Option<Seq<char>> {
    if should_log {
        Some(note)
    } else {
        None
    }
}

/// What the server does after reading `event` from the client at `peer`,
/// with logging on or off as `should_log` says.
pub open spec fn step_of(peer: Seq<char>, should_log: bool, event: ReadEventView) -> StepView {
    match event {
        ReadEventView::Closed => StepView::Disconnect {
            lookup: lookup_name_sql(peer),
            note: logged(should_log, disconnected_note(peer)),
            remove: delete_user_sql(peer),
        },
        ReadEventView::Failed => StepView::Abort { remove: delete_user_sql(peer) },
        ReadEventView::Data(bytes) => {
            let text = received(bytes);
            match request_of(text) {
                RequestView::SetName(name) => StepView::Update {
                    statement: rename_user_sql(name, peer),
                    reply: name_reply(name),
                },
                RequestView::SetRadio(flag) => StepView::Update {
                    statement: set_radio_sql(flag, peer),
                    reply: radio_reply(flag),
                },
                RequestView::BadRadio => StepView::Refuse { reply: BAD_RADIO_REPLY@ },
                RequestView::Chat(t) => StepView::Relay {
                    lookup: lookup_name_sql(peer),
                    frame: frame(peer, t),
                    note: logged(should_log, t),
                },
            }
        },
    }
}

/// What the server does after reading `event` from the client at `peer`,
/// with logging on or off as `should_log` says.
pub fn on_client_read(peer: &str, should_log: bool, event: &ReadEvent) -> (r: SessionStep)
    ensures
        r@ == step_of(peer@, should_log, event@),
{
    match event {
        ReadEvent::Closed => SessionStep::Disconnect {
            lookup: lookup_name_statement(peer),
            note: if should_log {
                Some(disconnected_note_text(peer))
            } else {
                None
            },
            remove: delete_user_statement(peer),
        },
        ReadEvent::Failed => SessionStep::Abort { remove: delete_user_statement(peer) },
        ReadEvent::Data(bytes) => {
            let text = received_text(bytes.as_slice());
            match classify_request(text.as_str()) {
                ClientRequest::SetName(name) => SessionStep::Update {
                    statement: rename_user_statement(name.as_str(), peer),
                    reply: name_reply_text(name.as_str()),
                },
                ClientRequest::SetRadio(flag) => SessionStep::Update {
                    statement: set_radio_statement(flag, peer),
                    reply: radio_reply_text(flag),
                },
                ClientRequest::BadRadio => SessionStep::Refuse {
                    reply: String::from_str(BAD_RADIO_REPLY),
                },
                ClientRequest::Chat(t) => SessionStep::Relay {
                    lookup: lookup_name_statement(peer),
                    frame: frame_text(peer, t.as_str()),
                    note: if should_log {
                        Some(t)
                    } else {
                        None
                    },
                },
            }
        },
    }
}

/// The statement that removes the client at `peer` once its connection is
/// lost: writing to it failed, or the table refused a statement for it.
pub fn on_connection_lost(peer: &str) -> (r: String)
    ensures
        r@ == delete_user_sql(peer@),
{
    delete_user_statement(peer)
}

/// What the server does once the statement of an `Update` step has run.
#[derive(Debug)]
pub enum UpdateOutcome {
    /// The table took the statement: answer the client.
    Answer(String),
    /// The table refused the statement: run this statement, which removes
    /// the client, and end the connection.
    Drop(String),
}

/// What the server does once the statement of an `Update` step for `peer`
/// has run, `accepted` by the table or refused: answer `reply`, or drop the
/// client.
pub fn after_update(peer: &str, accepted: bool, reply: String) -> (r: UpdateOutcome)
    ensures
        accepted ==> (r matches UpdateOutcome::Answer(a) && a@ == reply@),
        !accepted ==> (r matches UpdateOutcome::Drop(d) && d@ == delete_user_sql(peer@)),
{
    if accepted {
        UpdateOutcome::Answer(reply)
    } else {
        UpdateOutcome::Drop(on_connection_lost(peer))
    }
}

/// What a connection does with a relayed message.
#[derive(Debug)]
pub enum RelayStep {
    /// Nothing: the message is the connection's own, or is not framed.
    Skip,
    /// Look the sender's name up with `lookup` (falling back on `sender`)
    /// and show the client `payload` under that name.
    Forward { lookup: String, sender: String, payload: String },
}

/// The mathematical form of a `RelayStep`.
pub enum RelayView {
    Skip,
    Forward { lookup: Seq<char>, sender: Seq<char>, payload: Seq<char> },
}

impl View for RelayStep {
    type V = RelayView;

    open spec fn view(&self) -> RelayView {
        match self {
            RelayStep::Skip => RelayView::Skip,
            RelayStep::Forward { lookup, sender, payload } => RelayView::Forward {
                lookup: lookup@,
                sender: sender@,
                payload: payload@,
            },
        }
    }
}

/// What the connection of the client at `peer` does with the relayed
/// `message`.
pub open spec fn relay_of(peer: Seq<char>, message: Seq<char>) -> RelayView {
    match unframe(message) {
        None => RelayView::Skip,
        Some((sender, payload)) => if sender == peer {
            RelayView::Skip
        } else {
            RelayView::Forward { lookup: lookup_name_sql(sender), sender, payload }
        },
    }
}

/// What the connection of the client at `peer` does with the relayed
/// `message`.
pub fn on_broadcast(peer: &str, message: &str) -> (r: RelayStep)
    ensures
        r@ == relay_of(peer@, message@),
{
    match unframe_text(message) {
        None => RelayStep::Skip,
        Some((sender, payload)) => {
            let own = String::from_str(peer);
            if sender == own {
                RelayStep::Skip
            } else {
                RelayStep::Forward {
                    lookup: lookup_name_statement(sender.as_str()),
                    sender,
                    payload,
                }
            }
        },
    }
}

/// The name under which a client's own activity is logged, given the rows
/// that the name lookup for it returned: the last row, or nothing.
pub fn logged_name(rows: &Vec<String>) -> (r: String)
    ensures
        r@ == name_from_rows(string_views(rows@), Seq::empty()),
        rows@.len() > 0 ==> r@ == rows@.last()@,
        rows@.len() == 0 ==> r@ == Seq::<char>::empty(),
{
    proof {
        reveal_strlit("");
    }
    name_from_lookup(rows, "")
}

/// The line shown for a relayed `payload`, given the rows that the name
/// lookup for `sender` returned.
pub open spec fn delivered(rows: Seq<Seq<char>>, sender: Seq<char>, payload: Seq<char>) -> Seq<char> {
    forward_line(name_from_rows(rows, sender), payload)
}

/// The line shown for a relayed `payload`, given the rows that the name
/// lookup for `sender` returned.
pub fn delivered_line(rows: &Vec<String>, sender: &str, payload: &str) -> (r: String)
    ensures
        r@ == delivered(string_views(rows@), sender@, payload@),
        rows@.len() > 0 ==> r@ == rows@.last()@ + ": "@ + payload@ + "\n"@,
        rows@.len() == 0 ==> r@ == sender@ + ": "@ + payload@ + "\n"@,
{
    let name = name_from_lookup(rows, sender);
    forward_line_text(name.as_str(), payload)
}

/// A connection never shows its own client what that client sent.
pub proof fn lemma_no_echo(peer: Seq<char>, text: Seq<char>)
    requires
        !peer.contains('\t'),
    ensures
        relay_of(peer, frame(peer, text)) == RelayView::Skip,
{
    lemma_unframe_frame(peer, text);
}

/// Every other connection shows its client what a client sent, under the
/// sender's address.
pub proof fn lemma_relay_to_others(peer: Seq<char>, sender: Seq<char>, text: Seq<char>)
    requires
        !sender.contains('\t'),
        peer != sender,
    ensures
        relay_of(peer, frame(sender, text)) == (RelayView::Forward {
            lookup: lookup_name_sql(sender),
            sender,
            payload: text,
        }),
{
    lemma_unframe_frame(sender, text);
}

/// A chunk from the client at `sender` that is neither `setname` nor
/// `setradio` reaches every other connection as exactly the text received,
/// and is not sent back to `sender`.
pub proof fn lemma_chat_relayed(
    sender: Seq<char>,
    should_log: bool,
    peer: Seq<char>,
    bytes: Seq<u8>,
)
    requires
        !sender.contains('\t'),
        peer != sender,
        request_of(received(bytes)) is Chat,
    ensures
        step_of(sender, should_log, ReadEventView::Data(bytes)) matches StepView::Relay {
            frame: f,
            ..
        } && relay_of(sender, f) == RelayView::Skip && relay_of(peer, f) == (RelayView::Forward {
            lookup: lookup_name_sql(sender),
            sender,
            payload: received(bytes),
        }),
{
    let t = received(bytes);
    lemma_no_echo(sender, t);
    lemma_relay_to_others(peer, sender, t);
}

} // verus!
