use p2p_overlay::channels::{
    add_or_update_channel, record_message_on_topic, remove_channel, update_channel_last_message,
};
use p2p_overlay::peers::{
    add_or_update_peer, increment_peer_failed_attempts, remember_peer, remove_peer,
    reset_peer_failed_attempts,
};
use p2p_overlay::types::{ChannelInfoToSave, PeerInfoToSave};

fn peer(id: &str, addr: &str, failed: u8) -> PeerInfoToSave {
    PeerInfoToSave {
        peer_id: id.to_string(),
        addresses: vec![addr.to_string()],
        failed_attempts: failed,
    }
}

fn channel(topic: &str, uuid: &str, last: Option<&str>) -> ChannelInfoToSave {
    ChannelInfoToSave {
        topic: topic.to_string(),
        uuid: uuid.to_string(),
        last_message_uuid: last.map(|s| s.to_string()),
    }
}

#[test]
fn test_peers_crud() {
    let mut peers: Vec<PeerInfoToSave> = Vec::new();
    let p = PeerInfoToSave {
        peer_id: "test123".to_string(),
        addresses: vec!["/ip4/127.0.0.1/tcp/4001".to_string()],
        failed_attempts: 0,
    };
    add_or_update_peer(&mut peers, p.clone());
    assert_eq!(peers.len(), 1);
    assert_eq!(peers[0].peer_id, "test123");
    remove_peer(&mut peers, "test123");
    assert_eq!(peers.len(), 0);
}

#[test]
fn test_channels_crud() {
    let mut channels: Vec<ChannelInfoToSave> = Vec::new();
    let c = ChannelInfoToSave {
        topic: "general".to_string(),
        uuid: "abc-123".to_string(),
        last_message_uuid: None,
    };
    add_or_update_channel(&mut channels, c.clone());
    assert_eq!(channels.len(), 1);
    assert_eq!(channels[0].topic, "general");
    update_channel_last_message(&mut channels, "abc-123", "msg-456".to_string());
    assert_eq!(channels[0].last_message_uuid, Some("msg-456".to_string()));
    remove_channel(&mut channels, "abc-123");
    assert_eq!(channels.len(), 0);
}

#[test]
fn upsert_peer_replaces_known_and_appends_new() {
    let mut peers = vec![peer("a", "/ip4/1.1.1.1/tcp/1", 2), peer("b", "/ip4/2.2.2.2/tcp/2", 0)];
    add_or_update_peer(&mut peers, peer("a", "/ip4/9.9.9.9/tcp/9", 0));
    assert_eq!(peers.len(), 2);
    assert_eq!(peers[0].addresses, vec!["/ip4/9.9.9.9/tcp/9".to_string()]);
    assert_eq!(peers[0].failed_attempts, 0);
    add_or_update_peer(&mut peers, peer("c", "/ip4/3.3.3.3/tcp/3", 1));
    assert_eq!(peers.len(), 3);
    assert_eq!(peers[2].peer_id, "c");
}

#[test]
fn remove_unknown_peer_changes_nothing() {
    let mut peers = vec![peer("a", "x", 0)];
    remove_peer(&mut peers, "zzz");
    assert_eq!(peers.len(), 1);
    assert_eq!(peers[0].peer_id, "a");
}

#[test]
fn five_failures_evict_a_peer() {
    let mut peers = vec![peer("other", "y", 0), peer("p", "x", 0)];
    for k in 1..5u8 {
        increment_peer_failed_attempts(&mut peers, "p");
        assert_eq!(peers.len(), 2);
        assert_eq!(peers[1].peer_id, "p");
        assert_eq!(peers[1].failed_attempts, k);
    }
    increment_peer_failed_attempts(&mut peers, "p");
    assert_eq!(peers.len(), 1);
    assert_eq!(peers[0].peer_id, "other");
    assert_eq!(peers[0].failed_attempts, 0);
}

#[test]
fn failures_from_a_raised_count_evict_sooner() {
    let mut peers = vec![peer("p", "x", 3)];
    increment_peer_failed_attempts(&mut peers, "p");
    assert_eq!(peers[0].failed_attempts, 4);
    increment_peer_failed_attempts(&mut peers, "p");
    assert!(peers.is_empty());
}

#[test]
fn failure_of_unknown_peer_changes_nothing() {
    let mut peers = vec![peer("p", "x", 1)];
    increment_peer_failed_attempts(&mut peers, "q");
    assert_eq!(peers.len(), 1);
    assert_eq!(peers[0].failed_attempts, 1);
}

#[test]
fn count_at_the_limit_does_not_overflow() {
    let mut peers = vec![peer("p", "x", 255)];
    increment_peer_failed_attempts(&mut peers, "p");
    assert!(peers.is_empty());
}

#[test]
fn success_resets_the_counter() {
    for start in [0u8, 1, 4, 200] {
        let mut peers = vec![peer("a", "x", 3), peer("p", "y", start)];
        reset_peer_failed_attempts(&mut peers, "p");
        assert_eq!(peers.len(), 2);
        assert_eq!(peers[1].failed_attempts, 0);
        assert_eq!(peers[1].addresses, vec!["y".to_string()]);
        assert_eq!(peers[0].failed_attempts, 3);
    }
}

#[test]
fn scenario_five_failures_empty_registry() {
    let mut peers: Vec<PeerInfoToSave> = Vec::new();
    add_or_update_peer(
        &mut peers,
        PeerInfoToSave {
            peer_id: "p1".to_string(),
            addresses: vec!["/ip4/127.0.0.1/tcp/4001".to_string()],
            failed_attempts: 0,
        },
    );
    for _ in 0..5 {
        increment_peer_failed_attempts(&mut peers, "p1");
    }
    assert_eq!(peers.len(), 0);
}

#[test]
fn remember_adds_only_unknown_peers() {
    let mut peers = vec![peer("a", "x", 2)];
    remember_peer(&mut peers, &"a".to_string(), &"/ip4/5.5.5.5/tcp/5".to_string());
    assert_eq!(peers.len(), 1);
    assert_eq!(peers[0].addresses, vec!["x".to_string()]);
    assert_eq!(peers[0].failed_attempts, 2);
    remember_peer(&mut peers, &"b".to_string(), &"/ip4/5.5.5.5/tcp/5".to_string());
    assert_eq!(peers.len(), 2);
    assert_eq!(peers[1].peer_id, "b");
    assert_eq!(peers[1].addresses, vec!["/ip4/5.5.5.5/tcp/5".to_string()]);
    assert_eq!(peers[1].failed_attempts, 0);
}

#[test]
fn upsert_channel_with_known_uuid_replaces_it() {
    let mut channels = vec![channel("general", "c1", None), channel("dev", "c2", Some("m0"))];
    add_or_update_channel(&mut channels, channel("renamed", "c2", Some("m9")));
    assert_eq!(channels.len(), 2);
    assert_eq!(channels[1].topic, "renamed");
    assert_eq!(channels[1].last_message_uuid, Some("m9".to_string()));
    assert_eq!(channels[0].topic, "general");
}

#[test]
fn scenario_message_marks_channel() {
    let mut channels: Vec<ChannelInfoToSave> = Vec::new();
    add_or_update_channel(&mut channels, channel("general", "c1", None));
    record_message_on_topic(&mut channels, "general", &"m1".to_string());
    assert_eq!(channels[0].last_message_uuid, Some("m1".to_string()));
    update_channel_last_message(&mut channels, "no-such-channel", "m2".to_string());
    assert_eq!(channels.len(), 1);
    assert_eq!(channels[0].uuid, "c1");
    assert_eq!(channels[0].topic, "general");
    assert_eq!(channels[0].last_message_uuid, Some("m1".to_string()));
}

#[test]
fn message_on_other_topic_marks_nothing() {
    let mut channels = vec![channel("general", "c1", Some("m0")), channel("dev", "c2", None)];
    record_message_on_topic(&mut channels, "random", &"m5".to_string());
    assert_eq!(channels[0].last_message_uuid, Some("m0".to_string()));
    assert_eq!(channels[1].last_message_uuid, None);
    record_message_on_topic(&mut channels, "dev", &"m6".to_string());
    assert_eq!(channels[0].last_message_uuid, Some("m0".to_string()));
    assert_eq!(channels[1].last_message_uuid, Some("m6".to_string()));
}
