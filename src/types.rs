use vstd::prelude::*;

verus! {

/// Number of failed connection attempts after which a peer is forgotten.
pub const MAX_FAILED_ATTEMPTS: u8 = 5;

/// A remote node remembered between runs.
#[derive(Clone, Debug)]
pub struct PeerInfoToSave {
    pub peer_id: String,
    pub addresses: Vec<String>,
    pub failed_attempts: u8,
}

/// The node's long-term key pair, as stored on disk.
#[derive(Clone, Debug)]
pub struct PeerIdToSave {
    pub peer_id_private: String,
    pub peer_id_public: String,
}

/// A subscribed channel and the last message seen on it.
#[derive(Clone, Debug)]
pub struct ChannelInfoToSave {
    pub topic: String,
    pub uuid: String,
    pub last_message_uuid: Option<String>,
}

/// A chat message as it travels on the wire.
#[derive(Clone, Debug)]
pub struct Message {
    pub peer_id: String,
    pub msg: String,
    pub topic: String,
    pub uuid: String,
}

/// A chat message as the user interface hands it over.
#[derive(Clone, Debug)]
pub struct SendMessagePayload {
    pub peer_id: String,
    pub content: String,
    pub topic: String,
    pub uuid: String,
}

/// A remote peer together with one of its addresses.
#[derive(Clone, Debug)]
pub struct PeerDiscovered {
    pub peer_id: String,
    pub address: String,
}

/// The local node's identifier and listening addresses.
#[derive(Clone, Debug)]
pub struct MyAddressInfo {
    pub peer_id: String,
    pub addresses: Vec<String>,
}

} // verus!
