use vauxl_core::clock::{millis_or_base, BASE_TS};
use vauxl_core::decimal::{prefixed_decimal, push_decimal};
use vauxl_core::model::{clone_message_range, clone_messages};
use vauxl_core::table::RoomTable;
use vauxl_core::{
    build_sample, now_ms, CoreError, DeviceId, EncryptionState, MediaRef, Message, MessageContent,
    MessageId, RoomId, RoomKind, SendState, SenderTrust, SpaceId, UserId,
};

fn message(id: &str, body: &str) -> Message {
    Message {
        id: MessageId::from(id),
        room: RoomId::from("!r:x"),
        sender: UserId::from("@u:x"),
        timestamp: 7,
        content: MessageContent::Text { body: body.to_string(), formatted: None },
        reactions: vec![],
        reply_to: None,
        edited: false,
        send_state: SendState::Sent,
        sender_trust: SenderTrust::Unknown,
    }
}

#[test]
fn decimal_rendering_matches_format() {
    for n in [0u64, 7, 9, 10, 42, 1000, 12345, 1_747_000_000_000, u64::MAX] {
        assert_eq!(prefixed_decimal("m", n), format!("m{n}"));
    }
    let mut s = String::from("media");
    push_decimal(&mut s, 1001);
    assert_eq!(s, "media1001");
    assert_ne!(prefixed_decimal("m", 12), prefixed_decimal("m", 1));
}

#[test]
fn clock_reading_maps_to_timestamp() {
    assert_eq!(millis_or_base(None), BASE_TS);
    assert_eq!(millis_or_base(Some(1_747_000_000_123)), 1_747_000_000_123);
    assert_eq!(millis_or_base(Some((1u128 << 64) + 5)), 5);
    assert!(now_ms() > BASE_TS);
}

#[test]
fn core_error_text() {
    assert_eq!(
        CoreError::Auth { message: "bad password".to_string() }.to_string(),
        "authentication failed: bad password"
    );
    assert_eq!(CoreError::Network.to_string(), "network error");
    assert_eq!(CoreError::NotFound.to_string(), "not found");
    assert_eq!(CoreError::Forbidden.to_string(), "forbidden");
    assert_eq!(CoreError::RateLimited { retry_after_ms: 500 }.to_string(), "rate limited");
    assert_eq!(
        CoreError::Encryption { message: "no key".to_string() }.to_string(),
        "encryption error: no key"
    );
    assert_eq!(CoreError::Internal.to_string(), "internal error");
}

#[test]
fn ids_compare_and_convert_by_text() {
    assert_eq!(UserId::from("@a:x"), UserId::from("@a:x".to_string()));
    assert_ne!(UserId::from("@a:x"), UserId::from("@b:x"));
    assert_eq!(RoomId::new("!r:x").to_string(), "!r:x");
    assert_eq!(SpaceId::from("s").0, "s");
    assert_eq!(DeviceId::from("D").clone(), DeviceId::from("D"));
}

#[test]
fn room_table_get_insert_push() {
    let mut t: RoomTable<u32> = RoomTable::new();
    let a = RoomId::from("!a:x");
    let b = RoomId::from("!b:x");
    assert!(t.get(&a).is_none());
    t.push_item(a.clone(), 1);
    t.push_item(a.clone(), 2);
    t.insert(b.clone(), vec![9]);
    assert_eq!(t.get(&a), Some(&vec![1, 2]));
    assert_eq!(t.get(&b), Some(&vec![9]));
    t.insert(a.clone(), vec![]);
    assert_eq!(t.get(&a), Some(&vec![]));
    t.push_item(b.clone(), 10);
    assert_eq!(t.get(&b), Some(&vec![9, 10]));
}

#[test]
fn message_copies_keep_their_fields() {
    let v = vec![message("m1", "one"), message("m2", "two"), message("m3", "three")];
    let all = clone_messages(&v);
    assert_eq!(all.len(), 3);
    assert_eq!(all[2].id, MessageId::from("m3"));
    let mid = clone_message_range(&v, 1, 2);
    assert_eq!(mid.len(), 1);
    assert_eq!(mid[0].id, MessageId::from("m2"));
    let media = MediaRef { id: "x".to_string(), thumbnail: Some("t".to_string()) };
    let copy = media.clone();
    assert_eq!(copy.id, "x");
    assert_eq!(copy.thumbnail.as_deref(), Some("t"));
}

#[test]
fn sample_state_contents() {
    let s = build_sample();
    assert_eq!(s.me.id, UserId::from("@you:vauxl.local"));
    assert_eq!(s.spaces[0].id, SpaceId::from("!space-hq:vauxl.local"));
    assert_eq!(s.spaces[0].order, 0);
    assert_eq!(s.spaces[1].order, 1);
    assert_eq!(s.rooms[0].topic.as_deref(), Some("Welcome to Vauxl HQ"));
    assert_eq!(s.rooms[2].kind, RoomKind::Voice);
    assert_eq!(s.rooms[2].encryption, EncryptionState::Unencrypted);
    assert_eq!(s.rooms[4].kind, RoomKind::DirectMessage);
    assert_eq!(s.rooms[1].space, Some(SpaceId::from("!space-hq:vauxl.local")));
    let general = s.timelines.get(&RoomId::from("!general:vauxl.local")).unwrap();
    assert_eq!(general.len(), 3);
    assert_eq!(general[1].sender, UserId::from("@bob:vauxl.local"));
    assert_eq!(general[1].timestamp, BASE_TS + 60_000);
    assert_eq!(general[0].sender_trust, SenderTrust::Verified);
    assert!(s.timelines.get(&RoomId::from("!dm-alice:vauxl.local")).unwrap().is_empty());
    assert!(s.members.get(&RoomId::from("!voice:vauxl.local")).is_none());
}

#[test]
fn sample_spaces_and_rooms_agree() {
    let s = build_sample();
    for space in &s.spaces {
        for id in &space.rooms {
            let room = s.rooms.iter().find(|r| &r.id == id).expect("listed room exists");
            assert_eq!(room.space.as_ref(), Some(&space.id));
        }
    }
    for room in &s.rooms {
        if let Some(sid) = &room.space {
            let space = s.spaces.iter().find(|sp| &sp.id == sid).expect("named space exists");
            assert!(space.rooms.contains(&room.id));
        }
    }
}
