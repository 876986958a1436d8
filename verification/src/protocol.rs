//! The text protocol between clients and the server: what a client sends,
//! how the server reads a chunk it received, the `setname` and `setradio`
//! requests, the replies to them, and the framing of relayed messages.
use vstd::prelude::*;
use vstd::utf8::{decode_utf8, encode_utf8, valid_utf8};
use crate::text::{
    has_prefix, is_space, split_first, trimmed, lemma_split_first_join, lemma_trim_after_space,
    split_once, strip_prefix, trim,
};

verus! {

broadcast use vstd::string::group_string_axioms;

/// What `String::from_utf8_lossy` makes of `bytes`: their UTF-8 decoding,
/// with each invalid sequence replaced by U+FFFD.
pub uninterp spec fn utf8_lossy(bytes: Seq<u8>) -> Seq<char>;

/// Calls `String::from_utf8_lossy`. Its documentation states that valid
/// UTF-8 is decoded as it stands; what becomes of invalid input is left to
/// the name `utf8_lossy`.
#[verifier::external_body]
fn decode_lossy(bytes: &[u8]) -> (r: String)
    ensures
        r@ == utf8_lossy(bytes@),
        valid_utf8(bytes@) ==> r@ == decode_utf8(bytes@),
{
    String::from_utf8_lossy(bytes).into_owned()
}

/// The text that the server takes from a chunk of bytes it read from a
/// client: the chunk decoded, with surrounding whitespace removed.
pub open spec fn received(bytes: Seq<u8>) -> Seq<char> {
    trimmed(utf8_lossy(bytes))
}

/// The text that the server takes from a chunk of bytes it read from a
/// client.
pub fn received_text(bytes: &[u8]) -> (r: String)
    ensures
        r@ == received(bytes@),
        valid_utf8(bytes@) ==> r@ == trimmed(decode_utf8(bytes@)),
{
    let decoded = decode_lossy(bytes);
    trim(decoded.as_str())
}

/// What a client sends for a line typed at its prompt: the line without
/// surrounding whitespace, ended by a newline.
pub open spec fn outgoing(line: Seq<char>) -> Seq<char> {
    trimmed(line) + "\n"@
}

/// What a client sends for a line typed at its prompt.
pub fn outgoing_text(line: &str) -> (r: String)
    ensures
        r@ == outgoing(line@),
{
    let mut r = trim(line);
    r.append("\n");
    r
}

/// A request that a client's text makes of the server.
#[derive(Debug, PartialEq, Eq)]
pub enum ClientRequest {
    /// `setname <name>`: register under a new name.
    SetName(String),
    /// `setradio true` or `setradio false`: set the radio flag.
    SetRadio(bool),
    /// `setradio` with any other value.
    BadRadio,
    /// Anything else: a message to relay to the other clients.
    Chat(String),
}

/// The mathematical form of a `ClientRequest`.
pub enum RequestView {
    SetName(Seq<char>),
    SetRadio(bool),
    BadRadio,
    Chat(Seq<char>),
}

impl View for ClientRequest {
    type V = RequestView;

    open spec fn view(&self) -> RequestView {
        match self {
            ClientRequest::SetName(n) => RequestView::SetName(n@),
            ClientRequest::SetRadio(b) => RequestView::SetRadio(*b),
            ClientRequest::BadRadio => RequestView::BadRadio,
            ClientRequest::Chat(t) => RequestView::Chat(t@),
        }
    }
}

/// The request that `text` (already trimmed) makes: `setname ` followed by
/// a name, `setradio ` followed by `true` or `false` (or something else),
/// or a message to relay.
pub open spec fn request_of(text: Seq<char>) -> RequestView {
    if has_prefix(text, "setname "@) {
        RequestView::SetName(trimmed(text.skip("setname "@.len() as int)))
    } else if has_prefix(text, "setradio "@) {
        let value = trimmed(text.skip("setradio "@.len() as int));
        if value == "true"@ {
            RequestView::SetRadio(true)
        } else if value == "false"@ {
            RequestView::SetRadio(false)
        } else {
            RequestView::BadRadio
        }
    } else {
        RequestView::Chat(text)
    }
}

/// The request that `text` makes of the server.
pub fn classify_request(text: &str) -> (r: ClientRequest)
    ensures
        r@ == request_of(text@),
{
    match strip_prefix(text, "setname ") {
        Some(rest) => {
            let name = trim(rest.as_str());
            return ClientRequest::SetName(name);
        },
        None => {},
    }
    match strip_prefix(text, "setradio ") {
        Some(rest) => {
            let value = trim(rest.as_str());
            let yes = String::from_str("true");
            let no = String::from_str("false");
            if value == yes {
                ClientRequest::SetRadio(true)
            } else if value == no {
                ClientRequest::SetRadio(false)
            } else {
                ClientRequest::BadRadio
            }
        },
        None => ClientRequest::Chat(String::from_str(text)),
    }
}

/// The server's answer to a successful `setname`.
pub open spec fn name_reply(name: Seq<char>) -> Seq<char> {
    "Name set to "@ + name + "\n"@
}

/// The server's answer to a successful `setradio`.
pub open spec fn radio_reply(flag: bool) -> Seq<char> {
    if flag {
        "is_radio set to true\n"@
    } else {
        "is_radio set to false\n"@
    }
}

/// The server's answer to a `setradio` with a value other than `true` or
/// `false`.
pub const BAD_RADIO_REPLY: &'static str = "Invalid value for setradio. Use 'true' or 'false'.\n";

/// The server's answer to a successful `setname`.
pub fn name_reply_text(name: &str) -> (r: String)
    ensures
        r@ == name_reply(name@),
{
    let mut r = String::from_str("Name set to ");
    r.append(name);
    r.append("\n");
    r
}

/// The server's answer to a successful `setradio`.
pub fn radio_reply_text(flag: bool) -> (r: String)
    ensures
        r@ == radio_reply(flag),
{
    if flag {
        String::from_str("is_radio set to true\n")
    } else {
        String::from_str("is_radio set to false\n")
    }
}

/// A relayed message as it travels between the connections of the server:
/// the sender's address, a tab, and the text.
pub open spec fn frame(sender: Seq<char>, text: Seq<char>) -> Seq<char> {
    sender + seq!['\t'] + text
}

/// A relayed message as it travels between the connections of the server.
pub fn frame_text(sender: &str, text: &str) -> (r: String)
    ensures
        r@ == frame(sender@, text@),
{
    proof {
        reveal_strlit("\t");
    }
    let mut r = String::from_str(sender);
    r.append("\t");
    r.append(text);
    r
}

/// The sender and the text of a relayed message: the parts before and after
/// its first tab.
pub open spec fn unframe(message: Seq<char>) -> Option<(Seq<char>, Seq<char>)> {
    split_first(message, '\t')
}

/// The sender and the text of a relayed message.
pub fn unframe_text(message: &str) -> (r: Option<(String, String)>)
    ensures
        match unframe(message@) {
            Some((s, t)) => (r matches Some((a, b)) && a@ == s && b@ == t),
            None => r is None,
        },
{
    split_once(message, '\t')
}

/// The line that a client is shown for a message that `name` sent.
pub open spec fn forward_line(name: Seq<char>, text: Seq<char>) -> Seq<char> {
    name + ": "@ + text + "\n"@
}

/// The line that a client is shown for a message that `name` sent.
pub fn forward_line_text(name: &str, text: &str) -> (r: String)
    ensures
        r@ == forward_line(name@, text@),
{
    let mut r = String::from_str(name);
    r.append(": ");
    r.append(text);
    r.append("\n");
    r
}

/// What a client prints for a chunk it received from the server: the chunk
/// decoded, followed by the prompt.
pub open spec fn incoming(bytes: Seq<u8>) -> Seq<char> {
    utf8_lossy(bytes) + "msg> "@
}

/// What a client prints for a chunk it received from the server.
pub fn incoming_text(bytes: &[u8]) -> (r: String)
    ensures
        r@ == incoming(bytes@),
        valid_utf8(bytes@) ==> r@ == decode_utf8(bytes@) + "msg> "@,
{
    let mut r = decode_lossy(bytes);
    r.append("msg> ");
    r
}

/// A relayed message is read back as the sender and text it was made of,
/// provided the sender's address holds no tab.
pub proof fn lemma_unframe_frame(sender: Seq<char>, text: Seq<char>)
    requires
        !sender.contains('\t'),
    ensures
        unframe(frame(sender, text)) == Some((sender, text)),
{
    lemma_split_first_join(sender, '\t', text);
}

/// What a client sends for a line is read by the server, when it arrives in
/// one chunk, as the line without surrounding whitespace.
pub proof fn lemma_outgoing_received(line: Seq<char>)
    ensures
        trimmed(decode_utf8(encode_utf8(outgoing(line)))) == trimmed(line),
{
    broadcast use vstd::utf8::encode_utf8_decode_utf8;

    reveal_strlit("\n");
    assert(is_space('\n'));
    assert(outgoing(line) =~= trimmed(line).push('\n'));
    lemma_trim_after_space(line, '\n');
}

/// `setname ` followed by a name asks to register under that name without
/// its surrounding whitespace.
pub proof fn lemma_setname_request(name: Seq<char>)
    ensures
        request_of("setname "@ + name) == RequestView::SetName(trimmed(name)),
{
    let t = "setname "@ + name;
    assert(t.take("setname "@.len() as int) =~= "setname "@);
    assert(t.skip("setname "@.len() as int) =~= name);
}

/// `setradio ` followed by a value asks to set the radio flag where the
/// value, without surrounding whitespace, is `true` or `false`, and is
/// refused otherwise.
pub proof fn lemma_setradio_request(value: Seq<char>)
    ensures
        request_of("setradio "@ + value) == (if trimmed(value) == "true"@ {
            RequestView::SetRadio(true)
        } else if trimmed(value) == "false"@ {
            RequestView::SetRadio(false)
        } else {
            RequestView::BadRadio
        }),
{
    let t = "setradio "@ + value;
    reveal_strlit("setradio ");
    reveal_strlit("setname ");
    assert(t[3] == 'r');
    assert(t.take("setname "@.len() as int)[3] != "setname "@[3]);
    assert(t.take("setradio "@.len() as int) =~= "setradio "@);
    assert(t.skip("setradio "@.len() as int) =~= value);
}

} // verus!
