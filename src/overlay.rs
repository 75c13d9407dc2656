use vstd::prelude::*;
use vstd::string::StringExecFns;

use crate::command::Command;
use crate::types::{ChannelInfoToSave, Message, MyAddressInfo, PeerDiscovered, PeerInfoToSave};

verus! {

/// The error text with which `Multiaddr` refuses `s`, or `None` when `s` is a
/// valid multiaddress.
pub uninterp spec fn multiaddr_error(s: Seq<char>) -> Option<Seq<char>>;

/// The text held by `o`, if any.
pub open spec fn text_of(o: Option<String>) -> Option<Seq<char>> {
    match o {
        Some(t) => Some(t@),
        None => None,
    }
}

/// Relies on the `FromStr` impl of `libp2p::Multiaddr` (crate multiaddr): whether
/// a text parses depends on the text alone, and so does the `Display` text of the
/// error. Its source refuses any text whose part before the first `/` is not
/// empty, with `Error::InvalidMultiaddr`, shown as "invalid multiaddr".
#[verifier::external_body]
fn multiaddr_parse_error(s: &str) -> (r: Option<String>)
    ensures
        text_of(r) == multiaddr_error(s@),
        s@.len() > 0 && s@[0] != '/' ==> text_of(r) == Some("invalid multiaddr"@),
{
    match s.parse::<libp2p::Multiaddr>() {
        Ok(_) => None,
        Err(e) => Some(e.to_string()),
    }
}

/// Relies on chrono's `Utc::now` and `DateTime::to_rfc3339`: the current UTC time
/// as RFC 3339 text. It depends on the clock, so nothing is stated of it.
#[verifier::external_body]
fn utc_now_rfc3339() -> String {
    chrono::Utc::now().to_rfc3339()
}

pub open spec fn default_topic() -> Seq<char> {
    "test-net"@
}

pub open spec fn listen_ip6() -> Seq<char> {
    "/ip6/::/tcp/0"@
}

pub open spec fn listen_ip4() -> Seq<char> {
    "/ip4/0.0.0.0/tcp/0"@
}

pub open spec fn unknown_topic() -> Seq<char> {
    "unknown"@
}

/// One protocol segment of a transport address, in its text form.
#[derive(Debug)]
pub struct AddressPart {
    /// The segment names a peer identity (`/p2p/...`).
    pub is_peer_id: bool,
    pub text: String,
}

/// A chat message as reported to the user interface.
#[derive(Debug)]
pub struct P2pMessage {
    pub from: String,
    pub content: String,
    pub topic: String,
    pub uuid: String,
    pub timestamp: String,
}

/// A notification for the user interface.
#[derive(Debug)]
pub enum Event {
    MyAddress(MyAddressInfo),
    MyInfo(MyAddressInfo),
    PeerDiscovered(PeerDiscovered),
    PeerConnected(PeerDiscovered),
    PeerDisconnected(String),
    PeerExpired(String),
    PeersList(Vec<String>),
    Message(P2pMessage),
    PeerSubscribed { peer_id: String, topic: String },
    ConnectionStatus(String),
    ConnectionError(String),
}

/// Work that the engine asks of the transport, the registries or the interface.
#[derive(Debug)]
pub enum Action {
    /// Send a notification to the user interface.
    Emit(Event),
    /// Listen on the given local address.
    Listen(String),
    /// Dial an address given by the user.
    Dial(String),
    /// Dial a discovered peer; the outcome comes back to `on_discovery_dial`.
    DialDiscovered(PeerDiscovered),
    /// Add a discovered peer to the peer registry unless it is known.
    RememberPeer(PeerDiscovered),
    /// Subscribe to a topic.
    Subscribe(String),
    /// Publish text on a topic.
    Publish { topic: String, data: String },
    /// Decode the JSON text as a chat message and hand it to `publish_decoded`.
    DecodeMessage(String),
    /// Report the connected peers with `Event::PeersList`.
    ListPeers,
    /// Forward gossip to and from the peer.
    AllowPeer(String),
    /// Stop forwarding gossip to and from the peer.
    ForbidPeer(String),
    /// Clear the peer's failure counter in the peer registry.
    PeerSucceeded(String),
    /// Count a failed connection attempt in the peer registry.
    PeerFailed(String),
    /// Mark the message as the last one of every channel on the topic.
    MarkChannels { topic: String, message_uuid: String },
}

/// A command that cannot be carried out.
#[derive(Debug)]
pub enum CommandError {
    /// The payload of a send command is not a chat message.
    MalformedMessage,
}

/// The state that the overlay engine's loop owns.
pub struct Overlay {
    pub local_peer_id: String,
    /// Local addresses, in the order the transport reported them.
    pub local_addresses: Vec<String>,
    /// Subscribed topics.
    pub topics: Vec<String>,
}

/// The address formed by the segments of `parts` that do not name a peer.
pub open spec fn joined_address(parts: Seq<AddressPart>) -> Seq<char>
    decreases parts.len(),
{
    if parts.len() == 0 {
        Seq::empty()
    } else {
        let rest = joined_address(parts.drop_last());
        if parts.last().is_peer_id {
            rest
        } else {
            rest + parts.last().text@
        }
    }
}

/// Some string of `s` reads `t`.
pub open spec fn has_topic(s: Seq<String>, t: Seq<char>) -> bool {
    exists|i: int| 0 <= i < s.len() && s[i]@ == t
}

/// `a` emits a connection error that reads `text`.
pub open spec fn is_error_event(a: Action, text: Seq<char>) -> bool {
    a matches Action::Emit(Event::ConnectionError(t)) && t@ == text
}

/// `a` emits the local identifier and the addresses `addresses`, as the given kind
/// of report.
pub open spec fn is_info_event(a: Action, peer_id: String, addresses: Seq<String>, on_listen: bool) -> bool {
    if on_listen {
        a matches Action::Emit(Event::MyAddress(i)) && i.peer_id == peer_id && i.addresses@ == addresses
    } else {
        a matches Action::Emit(Event::MyInfo(i)) && i.peer_id == peer_id && i.addresses@ == addresses
    }
}

/// `n` reports the gossip message `text` from `from`: its own fields when it
/// decoded as a chat message, else the raw text on the topic "unknown".
pub open spec fn reports_message(n: P2pMessage, from: String, text: String, decoded: Option<Message>) -> bool {
    &&& n.from == from
    &&& match decoded {
        Some(m) => n.content == m.msg && n.topic == m.topic && n.uuid == m.uuid,
        None => n.content == text && n.topic@ == unknown_topic() && n.uuid@.len() == 0,
    }
}

fn copy_strings(v: &Vec<String>) -> (r: Vec<String>)
    ensures
        r@ == v@,
{
    let mut r: Vec<String> = Vec::new();
    let mut i: usize = 0;
    while i < v.len()
        invariant
            i <= v.len(),
            r@ == v@.subrange(0, i as int),
        decreases v.len() - i,
    {
        r.push(v[i].clone());
        i = i + 1;
    }
    assert(r@ =~= v@);
    r
}

fn copy_discovered(p: &PeerDiscovered) -> (r: PeerDiscovered)
    ensures
        r == *p,
{
    PeerDiscovered { peer_id: p.peer_id.clone(), address: p.address.clone() }
}

/// `prefix` followed by `detail`.
fn prefixed(prefix: &str, detail: &String) -> (r: String)
    ensures
        r@ == prefix@ + detail@,
{
    let mut r = String::from_str(prefix);
    r.append(detail.as_str());
    r
}

/// Joins the segments of a remote address, leaving out those that name a peer
/// identity.
pub fn normalize_address(parts: &Vec<AddressPart>) -> (r: String)
    ensures
        r@ == joined_address(parts@),
{
    let mut r = String::new();
    let mut i: usize = 0;
    while i < parts.len()
        invariant
            i <= parts.len(),
            r@ == joined_address(parts@.subrange(0, i as int)),
        decreases parts.len() - i,
    {
        assert(parts@.subrange(0, i as int + 1).drop_last() == parts@.subrange(0, i as int));
        if !parts[i].is_peer_id {
            r.append(parts[i].text.as_str());
        }
        i = i + 1;
    }
    assert(parts@.subrange(0, parts@.len() as int) == parts@);
    r
}

/// What to do with a manual dial of `address`, given how parsing it went:
/// dial it when it parsed, else report the parse error.
pub fn connect_action(address: String, parse_error: Option<String>) -> (r: Action)
    ensures
        match parse_error {
            None => r == Action::Dial(address),
            Some(e) => is_error_event(r, "Invalid address: "@ + e@),
        },
{
    match parse_error {
        None => Action::Dial(address),
        Some(e) => Action::Emit(Event::ConnectionError(prefixed("Invalid address: ", &e))),
    }
}

/// The notification for a gossip message `text` received from `from` at
/// `timestamp`, where `decoded` is `text` read as a chat message, if it is one.
pub fn message_notification(
    from: String,
    text: String,
    decoded: Option<Message>,
    timestamp: String,
) -> (r: P2pMessage)
    ensures
        reports_message(r, from, text, decoded),
        r.timestamp == timestamp,
{
    match decoded {
        Some(m) => P2pMessage { from, content: m.msg, topic: m.topic, uuid: m.uuid, timestamp },
        None => P2pMessage {
            from,
            content: text,
            topic: String::from_str("unknown"),
            uuid: String::new(),
            timestamp,
        },
    }
}

/// The publication asked for by a send command whose JSON payload is `payload`,
/// where `decoded` is the payload read as a chat message, if it is one: the
/// payload goes out unchanged on the message's own topic.
pub fn publish_decoded(payload: String, decoded: Option<Message>) -> (r: Result<Action, CommandError>)
    ensures
        match decoded {
            Some(m) => r == Ok::<Action, CommandError>(Action::Publish { topic: m.topic, data: payload }),
            None => r == Err::<Action, CommandError>(CommandError::MalformedMessage),
        },
{
    match decoded {
        Some(m) => Ok(Action::Publish { topic: m.topic, data: payload }),
        None => Err(CommandError::MalformedMessage),
    }
}

/// The notification for a failed publication.
pub fn publish_failed(error: String) -> (r: Action)
    ensures
        is_error_event(r, "Failed to publish: "@ + error@),
{
    Action::Emit(Event::ConnectionError(prefixed("Failed to publish: ", &error)))
}

/// The notification for the outcome of a manual dial: the dial is under way, or
/// it failed with the given error.
pub fn on_manual_dial(result: Result<(), String>) -> (r: Action)
    ensures
        match result {
            Ok(()) => r matches Action::Emit(Event::ConnectionStatus(t)) && t@ == "Connecting..."@,
            Err(e) => is_error_event(r, "Failed to dial: "@ + e@),
        },
{
    match result {
        Ok(()) => Action::Emit(Event::ConnectionStatus(String::from_str("Connecting..."))),
        Err(e) => Action::Emit(Event::ConnectionError(prefixed("Failed to dial: ", &e))),
    }
}

impl Overlay {
    /// A fresh engine state for the node `local_peer_id`, subscribed to the
    /// default topic and with no local address yet.
    pub fn new(local_peer_id: String) -> (r: Overlay)
        ensures
            r.local_peer_id == local_peer_id,
            r.local_addresses@.len() == 0,
            r.topics@.len() == 1,
            r.topics@[0]@ == default_topic(),
    {
        let mut topics: Vec<String> = Vec::new();
        topics.push(String::from_str("test-net"));
        Overlay { local_peer_id, local_addresses: Vec::new(), topics }
    }

    /// What bootstrap asks of the transport: subscribe to the topics of the state
    /// and listen on every interface, IPv6 and IPv4, on ports the system picks.
    pub fn bootstrap(&self) -> (r: Vec<Action>)
        ensures
            r@.len() == self.topics@.len() + 2,
            forall|i: int| 0 <= i < self.topics@.len() ==> r@[i] == Action::Subscribe(self.topics@[i]),
            r@[self.topics@.len() as int] matches Action::Listen(a) && a@ == listen_ip6(),
            r@[self.topics@.len() as int + 1] matches Action::Listen(a) && a@ == listen_ip4(),
    {
        let mut r: Vec<Action> = Vec::new();
        let mut i: usize = 0;
        while i < self.topics.len()
            invariant
                i <= self.topics@.len(),
                r@.len() == i,
                forall|j: int| 0 <= j < i ==> r@[j] == Action::Subscribe(self.topics@[j]),
            decreases self.topics.len() - i,
        {
            r.push(Action::Subscribe(self.topics[i].clone()));
            i = i + 1;
        }
        r.push(Action::Listen(String::from_str("/ip6/::/tcp/0")));
        r.push(Action::Listen(String::from_str("/ip4/0.0.0.0/tcp/0")));
        r
    }

    fn info(&self) -> (r: MyAddressInfo)
        ensures
            r.peer_id == self.local_peer_id,
            r.addresses@ == self.local_addresses@,
    {
        MyAddressInfo {
            peer_id: self.local_peer_id.clone(),
            addresses: copy_strings(&self.local_addresses),
        }
    }

    fn is_subscribed(&self, topic: &String) -> (r: bool)
        ensures
            r == has_topic(self.topics@, topic@),
    {
        let mut i: usize = 0;
        while i < self.topics.len()
            invariant
                i <= self.topics@.len(),
                forall|j: int| 0 <= j < i ==> self.topics@[j]@ != topic@,
            decreases self.topics.len() - i,
        {
            if self.topics[i] == *topic {
                return true;
            }
            i = i + 1;
        }
        false
    }

    /// Carries out a command of the user interface. Only a topic not yet
    /// subscribed changes the state.
    pub fn on_command(&mut self, cmd: Command) -> (r: Vec<Action>)
        ensures
            final(self).local_peer_id == old(self).local_peer_id,
            final(self).local_addresses == old(self).local_addresses,
            match cmd {
                Command::Connect(a) => r@.len() == 1 && match multiaddr_error(a@) {
                    None => r@[0] == Action::Dial(a),
                    Some(e) => is_error_event(r@[0], "Invalid address: "@ + e),
                },
                Command::GetPeers => r@ == seq![Action::ListPeers],
                Command::GetInfo => r@.len() == 1 && is_info_event(
                    r@[0],
                    old(self).local_peer_id,
                    old(self).local_addresses@,
                    false,
                ),
                Command::AddTopic(t) => if has_topic(old(self).topics@, t@) {
                    r@.len() == 0 && final(self).topics == old(self).topics
                } else {
                    r@ == seq![Action::Subscribe(t)] && final(self).topics@ == old(self).topics@.push(t)
                },
                Command::SendMessage(j) => r@ == seq![Action::DecodeMessage(j)],
                Command::Publish(text) => r@.len() == 1 && (r@[0] matches Action::Publish { topic, data }
                    && topic@ == default_topic() && data == text),
            },
            !(cmd is AddTopic) ==> final(self).topics == old(self).topics,
    {
        let mut r: Vec<Action> = Vec::new();
        match cmd {
            Command::Connect(a) => {
                let check = multiaddr_parse_error(a.as_str());
                r.push(connect_action(a, check));
            },
            Command::GetPeers => r.push(Action::ListPeers),
            Command::GetInfo => r.push(Action::Emit(Event::MyInfo(self.info()))),
            Command::AddTopic(t) => {
                if !self.is_subscribed(&t) {
                    self.topics.push(t.clone());
                    r.push(Action::Subscribe(t));
                }
            },
            Command::SendMessage(j) => r.push(Action::DecodeMessage(j)),
            Command::Publish(text) => {
                r.push(Action::Publish { topic: String::from_str("test-net"), data: text });
            },
        }
        r
    }

    /// Records a new local listening address and reports the whole list.
    pub fn on_listen_addr(&mut self, address: String) -> (r: Action)
        ensures
            final(self).local_peer_id == old(self).local_peer_id,
            final(self).topics == old(self).topics,
            final(self).local_addresses@ == old(self).local_addresses@.push(address),
            is_info_event(r, old(self).local_peer_id, final(self).local_addresses@, true),
    {
        self.local_addresses.push(address);
        Action::Emit(Event::MyAddress(self.info()))
    }
}

/// Reports an established connection, with the remote address stripped of its
/// peer-identity segments, and clears the peer's failure counter.
pub fn on_connection_established(peer_id: String, address: &Vec<AddressPart>) -> (r: Vec<Action>)
    ensures
        r@.len() == 2,
        r@[0] matches Action::Emit(Event::PeerConnected(p)) && p.peer_id == peer_id
            && p.address@ == joined_address(address@),
        r@[1] == Action::PeerSucceeded(peer_id),
{
    let mut r: Vec<Action> = Vec::new();
    let p = PeerDiscovered { peer_id: peer_id.clone(), address: normalize_address(address) };
    r.push(Action::Emit(Event::PeerConnected(p)));
    r.push(Action::PeerSucceeded(peer_id));
    r
}

/// Reports a closed connection.
pub fn on_connection_closed(peer_id: String) -> (r: Action)
    ensures
        r == Action::Emit(Event::PeerDisconnected(peer_id)),
{
    Action::Emit(Event::PeerDisconnected(peer_id))
}

/// For each discovered peer, in order: report it, remember it, dial it.
pub fn on_discovered(peers: Vec<PeerDiscovered>) -> (r: Vec<Action>)
    ensures
        r@.len() == 3 * peers@.len(),
        forall|k: int|
            0 <= k < peers@.len() ==> {
                &&& #[trigger] r@[3 * k] == Action::Emit(Event::PeerDiscovered(peers@[k]))
                &&& r@[3 * k + 1] == Action::RememberPeer(peers@[k])
                &&& r@[3 * k + 2] == Action::DialDiscovered(peers@[k])
            },
{
    let mut r: Vec<Action> = Vec::new();
    let mut i: usize = 0;
    while i < peers.len()
        invariant
            i <= peers@.len(),
            r@.len() == 3 * i,
            forall|k: int|
                0 <= k < i ==> {
                    &&& #[trigger] r@[3 * k] == Action::Emit(Event::PeerDiscovered(peers@[k]))
                    &&& r@[3 * k + 1] == Action::RememberPeer(peers@[k])
                    &&& r@[3 * k + 2] == Action::DialDiscovered(peers@[k])
                },
        decreases peers.len() - i,
    {
        let p = &peers[i];
        r.push(Action::Emit(Event::PeerDiscovered(copy_discovered(p))));
        r.push(Action::RememberPeer(copy_discovered(p)));
        r.push(Action::DialDiscovered(copy_discovered(p)));
        i = i + 1;
    }
    r
}

/// The outcome of dialing a discovered peer: on success gossip flows to it; on
/// failure the error is reported and counted against the peer.
pub fn on_discovery_dial(peer_id: String, result: Result<(), String>) -> (r: Vec<Action>)
    ensures
        match result {
            Ok(()) => r@ == seq![Action::AllowPeer(peer_id)],
            Err(e) => r@.len() == 2 && is_error_event(r@[0], "Failed to dial: "@ + e@)
                && r@[1] == Action::PeerFailed(peer_id),
        },
{
    let mut r: Vec<Action> = Vec::new();
    match result {
        Ok(()) => r.push(Action::AllowPeer(peer_id)),
        Err(e) => {
            r.push(Action::Emit(Event::ConnectionError(prefixed("Failed to dial: ", &e))));
            r.push(Action::PeerFailed(peer_id));
        },
    }
    r
}

/// For each expired peer, in order: stop gossip with it, report it.
pub fn on_expired(peer_ids: Vec<String>) -> (r: Vec<Action>)
    ensures
        r@.len() == 2 * peer_ids@.len(),
        forall|k: int|
            0 <= k < peer_ids@.len() ==> {
                &&& #[trigger] r@[2 * k] == Action::ForbidPeer(peer_ids@[k])
                &&& r@[2 * k + 1] == Action::Emit(Event::PeerExpired(peer_ids@[k]))
            },
{
    let mut r: Vec<Action> = Vec::new();
    let mut i: usize = 0;
    while i < peer_ids.len()
        invariant
            i <= peer_ids@.len(),
            r@.len() == 2 * i,
            forall|k: int|
                0 <= k < i ==> {
                    &&& #[trigger] r@[2 * k] == Action::ForbidPeer(peer_ids@[k])
                    &&& r@[2 * k + 1] == Action::Emit(Event::PeerExpired(peer_ids@[k]))
                },
        decreases peer_ids.len() - i,
    {
        r.push(Action::ForbidPeer(peer_ids[i].clone()));
        r.push(Action::Emit(Event::PeerExpired(peer_ids[i].clone())));
        i = i + 1;
    }
    r
}

/// Reports a gossip message `text` received from `from`, stamped with the
/// current time; a message that decoded also marks the channels of its topic.
pub fn on_message(from: String, text: String, decoded: Option<Message>) -> (r: Vec<Action>)
    ensures
        r@.len() >= 1,
        r@[0] matches Action::Emit(Event::Message(n)) && reports_message(n, from, text, decoded),
        match decoded {
            Some(m) => r@.len() == 2 && r@[1] == Action::MarkChannels {
                topic: m.topic,
                message_uuid: m.uuid,
            },
            None => r@.len() == 1,
        },
{
    let mut r: Vec<Action> = Vec::new();
    let mark = match &decoded {
        Some(m) => Some(Action::MarkChannels { topic: m.topic.clone(), message_uuid: m.uuid.clone() }),
        None => None,
    };
    let timestamp = utc_now_rfc3339();
    r.push(Action::Emit(Event::Message(message_notification(from, text, decoded, timestamp))));
    if let Some(a) = mark {
        r.push(a);
    }
    r
}

/// Reports that a remote peer subscribed to a topic.
pub fn on_subscribed(peer_id: String, topic: String) -> (r: Action)
    ensures
        r == Action::Emit(Event::PeerSubscribed { peer_id, topic }),
{
    Action::Emit(Event::PeerSubscribed { peer_id, topic })
}

/// A dial command for each address of each peer of `s`, in order.
pub open spec fn dial_plan(s: Seq<PeerInfoToSave>) -> Seq<Command>
    decreases s.len(),
{
    if s.len() == 0 {
        Seq::empty()
    } else {
        dial_plan(s.drop_last()) + Seq::new(
            s.last().addresses@.len(),
            |j: int| Command::Connect(s.last().addresses@[j]),
        )
    }
}

/// A subscription command for the topic of each channel of `s`, in order.
pub open spec fn topic_plan(s: Seq<ChannelInfoToSave>) -> Seq<Command> {
    Seq::new(s.len(), |i: int| Command::AddTopic(s[i].topic))
}

/// The commands a node runs as it starts: subscribe again to the topic of each
/// saved channel, then dial every stored address of every known peer.
pub fn startup_commands(channels: &Vec<ChannelInfoToSave>, peers: &Vec<PeerInfoToSave>) -> (r: Vec<
    Command,
>)
    ensures
        r@ == topic_plan(channels@) + dial_plan(peers@),
{
    let mut r: Vec<Command> = Vec::new();
    let mut i: usize = 0;
    while i < channels.len()
        invariant
            i <= channels@.len(),
            r@ == topic_plan(channels@.subrange(0, i as int)),
        decreases channels.len() - i,
    {
        r.push(Command::AddTopic(channels[i].topic.clone()));
        i = i + 1;
        assert(r@ =~= topic_plan(channels@.subrange(0, i as int)));
    }
    assert(channels@.subrange(0, channels@.len() as int) == channels@);
    let ghost topics = r@;
    let mut k: usize = 0;
    while k < peers.len()
        invariant
            k <= peers@.len(),
            topics == topic_plan(channels@),
            r@ == topics + dial_plan(peers@.subrange(0, k as int)),
        decreases peers.len() - k,
    {
        let addresses = &peers[k].addresses;
        let ghost before = r@;
        let mut j: usize = 0;
        while j < addresses.len()
            invariant
                j <= addresses@.len(),
                addresses@ == peers@[k as int].addresses@,
                r@ == before + Seq::new(j as nat, |m: int| Command::Connect(addresses@[m])),
            decreases addresses.len() - j,
        {
            r.push(Command::Connect(addresses[j].clone()));
            j = j + 1;
            assert(r@ =~= before + Seq::new(j as nat, |m: int| Command::Connect(addresses@[m])));
        }
        assert(peers@.subrange(0, k as int + 1).drop_last() =~= peers@.subrange(0, k as int));
        k = k + 1;
        assert(r@ =~= topics + dial_plan(peers@.subrange(0, k as int)));
    }
    assert(peers@.subrange(0, peers@.len() as int) == peers@);
    r
}

} // verus!
