use vstd::prelude::*;

verus! {

/// `s` starts with `p`.
pub open spec fn has_prefix(s: Seq<char>, p: Seq<char>) -> bool {
    p.len() <= s.len() && s.subrange(0, p.len() as int) == p
}

/// What follows the prefix `p` in `s`.
pub open spec fn after_prefix(s: Seq<char>, p: Seq<char>) -> Seq<char> {
    s.subrange(p.len() as int, s.len() as int)
}

pub open spec fn connect_prefix() -> Seq<char> {
    "CMD:CONNECT:"@
}

pub open spec fn get_peers_prefix() -> Seq<char> {
    "CMD:GET_PEERS"@
}

pub open spec fn get_info_prefix() -> Seq<char> {
    "CMD:GET_INFO"@
}

pub open spec fn add_topic_prefix() -> Seq<char> {
    "CMD:ADD_TOPIC:"@
}

pub open spec fn send_message_prefix() -> Seq<char> {
    "CMD:SEND_MESSAGE:"@
}

/// A command sent by the user interface to the overlay engine.
#[derive(Debug)]
pub enum Command {
    /// Dial the given address.
    Connect(String),
    /// Report the peers currently connected.
    GetPeers,
    /// Report the local identifier and listening addresses.
    GetInfo,
    /// Subscribe to the named topic.
    AddTopic(String),
    /// Publish a chat message, given as its JSON text.
    SendMessage(String),
    /// Publish raw text on the default topic.
    Publish(String),
}

/// The mathematical form of a [`Command`].
pub enum CommandView {
    Connect(Seq<char>),
    GetPeers,
    GetInfo,
    AddTopic(Seq<char>),
    SendMessage(Seq<char>),
    Publish(Seq<char>),
}

impl View for Command {
    type V = CommandView;

    open spec fn view(&self) -> CommandView {
        match self {
            Command::Connect(a) => CommandView::Connect(a@),
            Command::GetPeers => CommandView::GetPeers,
            Command::GetInfo => CommandView::GetInfo,
            Command::AddTopic(t) => CommandView::AddTopic(t@),
            Command::SendMessage(j) => CommandView::SendMessage(j@),
            Command::Publish(t) => CommandView::Publish(t@),
        }
    }
}

/// The command that the text `s` denotes: the first prefix that matches wins,
/// and text with no known prefix is raw text for the default topic.
pub open spec fn command_of(s: Seq<char>) -> CommandView {
    if has_prefix(s, connect_prefix()) {
        CommandView::Connect(after_prefix(s, connect_prefix()))
    } else if has_prefix(s, get_peers_prefix()) {
        CommandView::GetPeers
    } else if has_prefix(s, get_info_prefix()) {
        CommandView::GetInfo
    } else if has_prefix(s, add_topic_prefix()) {
        CommandView::AddTopic(after_prefix(s, add_topic_prefix()))
    } else if has_prefix(s, send_message_prefix()) {
        CommandView::SendMessage(after_prefix(s, send_message_prefix()))
    } else {
        CommandView::Publish(s)
    }
}

/// Whether `s` starts with `p`.
fn starts_with(s: &str, p: &str) -> (r: bool)
    ensures
        r == has_prefix(s@, p@),
{
    let plen = p.unicode_len();
    let slen = s.unicode_len();
    if plen > slen {
        return false;
    }
    let mut i: usize = 0;
    while i < plen
        invariant
            plen == p@.len(),
            slen == s@.len(),
            plen <= slen,
            i <= plen,
            forall|j: int| 0 <= j < i ==> s@[j] == p@[j],
        decreases plen - i,
    {
        if s.get_char(i) != p.get_char(i) {
            assert(s@.subrange(0, plen as int)[i as int] != p@[i as int]);
            return false;
        }
        i = i + 1;
    }
    assert(s@.subrange(0, plen as int) =~= p@);
    true
}

/// What follows `p` in `s`, when `s` starts with `p`.
fn strip_prefix(s: &str, p: &str) -> (r: Option<String>)
    ensures
        r is Some <==> has_prefix(s@, p@),
        r matches Some(x) ==> x@ == after_prefix(s@, p@),
{
    if starts_with(s, p) {
        let rest = s.substring_char(p.unicode_len(), s.unicode_len());
        Some(rest.to_owned())
    } else {
        None
    }
}

/// Reads a command text: `CMD:CONNECT:<address>`, `CMD:GET_PEERS`,
/// `CMD:GET_INFO`, `CMD:ADD_TOPIC:<name>`, `CMD:SEND_MESSAGE:<json>`; any other
/// text is raw text to publish on the default topic.
pub fn parse_command(msg: &str) -> (r: Command)
    ensures
        r@ == command_of(msg@),
{
    if let Some(address) = strip_prefix(msg, "CMD:CONNECT:") {
        Command::Connect(address)
    } else if starts_with(msg, "CMD:GET_PEERS") {
        Command::GetPeers
    } else if starts_with(msg, "CMD:GET_INFO") {
        Command::GetInfo
    } else if let Some(topic) = strip_prefix(msg, "CMD:ADD_TOPIC:") {
        Command::AddTopic(topic)
    } else if let Some(json) = strip_prefix(msg, "CMD:SEND_MESSAGE:") {
        Command::SendMessage(json)
    } else {
        Command::Publish(msg.to_owned())
    }
}

} // verus!
