use p2p_overlay::identity::{decode_key, encode_key};
use p2p_overlay::store::{identity_step, load_or_empty, FileManager, IdentityStep, StoreError};
use p2p_overlay::types::{PeerIdToSave, PeerInfoToSave};

#[test]
fn file_paths_join_the_base_directory() {
    let fm = FileManager::new("/home/u/.local/share/chat-p2p".to_string());
    assert_eq!(fm.get_base_dir(), "/home/u/.local/share/chat-p2p");
    assert_eq!(fm.get_file_path("peers.json"), "/home/u/.local/share/chat-p2p/peers.json");
    let slash = FileManager::new("/data/".to_string());
    assert_eq!(slash.get_file_path("channels.json"), "/data/channels.json");
    let empty = FileManager::new(String::new());
    assert_eq!(empty.get_file_path("identity.json"), "identity.json");
    assert_eq!(fm.get_file_path("/abs/x.json"), "/abs/x.json");
}

#[test]
fn data_files_are_the_three_collections() {
    assert_eq!(
        FileManager::data_files(),
        vec!["peers.json".to_string(), "identity.json".to_string(), "channels.json".to_string()]
    );
}

#[test]
fn missing_file_loads_as_empty() {
    let r: Result<Vec<PeerInfoToSave>, StoreError> = load_or_empty(None);
    assert!(matches!(r, Ok(v) if v.is_empty()));
    let bad: Result<Vec<PeerInfoToSave>, StoreError> =
        load_or_empty(Some(Err(StoreError::DecodeFailure("eof".to_string()))));
    assert!(matches!(bad, Err(StoreError::DecodeFailure(m)) if m == "eof"));
    let one = load_or_empty(Some(Ok(vec![7u8])));
    assert!(matches!(one, Ok(v) if v == vec![7u8]));
}

#[test]
fn identity_is_generated_only_when_absent() {
    let id = PeerIdToSave { peer_id_private: "k".to_string(), peer_id_public: "p".to_string() };
    assert!(matches!(identity_step(Ok(Some(id))), IdentityStep::Use(i) if i.peer_id_public == "p"));
    assert!(matches!(identity_step(Ok(None)), IdentityStep::Generate));
    assert!(matches!(identity_step(Err(StoreError::IoFailure("denied".to_string()))),
        IdentityStep::Abort(StoreError::IoFailure(m)) if m == "denied"));
}


#[test]
fn key_material_round_trips_through_hex() {
    let bytes = vec![0x00u8, 0x0f, 0x10, 0xab, 0xff, 0x7e];
    let text = encode_key(&bytes);
    assert_eq!(text, "000f10abff7e");
    assert_eq!(decode_key(&text), Some(bytes));
    assert_eq!(encode_key(&Vec::new()), "");
    assert_eq!(decode_key(""), Some(Vec::new()));
}

#[test]
fn malformed_key_text_is_refused() {
    assert_eq!(decode_key("abc"), None);
    assert_eq!(decode_key("0g"), None);
    assert_eq!(decode_key("AB"), None);
    assert_eq!(decode_key("zz00"), None);
    assert_eq!(decode_key("08"), Some(vec![8u8]));
}
