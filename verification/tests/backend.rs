use vauxl_core::{
    CoreEvent, DemoStep, MessageContent, MessageId, MockBackend, OutgoingContent, Presence,
    RoomId, TimelineChange, UserId,
};

fn text(body: &str) -> OutgoingContent {
    OutgoingContent::Text { body: body.to_string(), formatted: None, reply_to: None }
}

fn body_of(content: &MessageContent) -> String {
    match content {
        MessageContent::Text { body, .. } => body.clone(),
        other => panic!("unexpected content: {other:?}"),
    }
}

#[test]
fn mock_send_appends_and_emits() {
    let mut b = MockBackend::new();
    let rooms = b.list_rooms().unwrap();
    assert!(!rooms.is_empty());
    let room = rooms[0].id.clone();
    let before = b.load_timeline(room.clone(), 50).unwrap();

    let id = b.send_message(room.clone(), text("hi")).unwrap();

    let events = b.drain_events();
    assert_eq!(events.len(), 1);
    match &events[0] {
        CoreEvent::Timeline { change: TimelineChange::Added { message }, .. } => {
            assert_eq!(message.id, id)
        }
        other => panic!("unexpected event: {other:?}"),
    }

    let after = b.load_timeline(room, 50).unwrap();
    assert_eq!(after.messages.len(), before.messages.len() + 1);
}

#[test]
fn send_message_returns_counter_ids_in_order() {
    let mut b = MockBackend::new();
    let room = RoomId::from("!random:vauxl.local");
    let first = b.send_message(room.clone(), text("one")).unwrap();
    let second = b.send_message(room.clone(), text("two")).unwrap();
    assert_eq!(first.to_string(), "m1000");
    assert_eq!(second.to_string(), "m1001");
    assert_ne!(first, second);
    let chunk = b.load_timeline(room, 10).unwrap();
    assert_eq!(chunk.messages.len(), 2);
    assert!(chunk.reached_start);
    assert_eq!(body_of(&chunk.messages[0].content), "one");
    assert_eq!(body_of(&chunk.messages[1].content), "two");
    assert_eq!(chunk.messages[1].id, second);
    assert_eq!(chunk.messages[1].sender, UserId::from("@you:vauxl.local"));
    assert_eq!(chunk.messages[1].room, RoomId::from("!random:vauxl.local"));
    assert!(!chunk.messages[1].edited);
    assert!(chunk.messages[1].reactions.is_empty());
}

#[test]
fn send_message_media_uses_caption_or_placeholder() {
    let mut b = MockBackend::new();
    let room = RoomId::from("!voice:vauxl.local");
    let upload = b.upload_media("/tmp/cat.png".to_string()).unwrap();
    assert_eq!(upload.id, "media1000");
    assert!(upload.thumbnail.is_none());
    b.send_message(
        room.clone(),
        OutgoingContent::Media { upload: upload.clone(), caption: Some("a cat".to_string()) },
    )
    .unwrap();
    let id = b
        .send_message(room.clone(), OutgoingContent::Media { upload, caption: None })
        .unwrap();
    assert_eq!(id.to_string(), "m1002");
    let chunk = b.load_timeline(room, 5).unwrap();
    assert_eq!(body_of(&chunk.messages[0].content), "a cat");
    assert_eq!(body_of(&chunk.messages[1].content), "[media]");
}

#[test]
fn send_message_to_room_without_timeline_starts_one() {
    let mut b = MockBackend::new();
    let room = RoomId::from("!nowhere:vauxl.local");
    assert!(b.load_timeline(room.clone(), 5).unwrap().messages.is_empty());
    b.send_message(room.clone(), text("hello")).unwrap();
    let chunk = b.load_timeline(room, 5).unwrap();
    assert_eq!(chunk.messages.len(), 1);
    assert_eq!(body_of(&chunk.messages[0].content), "hello");
}

#[test]
fn load_timeline_returns_latest_window() {
    let b = MockBackend::new();
    let general = RoomId::from("!general:vauxl.local");
    let two = b.load_timeline(general.clone(), 2).unwrap();
    assert_eq!(two.messages.len(), 2);
    assert!(!two.reached_start);
    assert_eq!(two.messages[0].id, MessageId::from("m2"));
    assert_eq!(two.messages[1].id, MessageId::from("m3"));
    let all = b.load_timeline(general.clone(), 3).unwrap();
    assert_eq!(all.messages.len(), 3);
    assert!(all.reached_start);
    assert_eq!(all.messages[0].id, MessageId::from("m1"));
    assert_eq!(all.messages[0].timestamp, 1_747_000_000_000);
    assert_eq!(all.messages[2].timestamp, 1_747_000_120_000);
    let none = b.load_timeline(general, 0).unwrap();
    assert!(none.messages.is_empty());
    assert!(!none.reached_start);
    let empty = b.load_timeline(RoomId::from("!random:vauxl.local"), 0).unwrap();
    assert!(empty.messages.is_empty());
    assert!(empty.reached_start);
}

#[test]
fn load_after_send_ends_with_the_sent_message() {
    let mut b = MockBackend::new();
    let general = RoomId::from("!general:vauxl.local");
    let id = b.send_message(general.clone(), text("latest")).unwrap();
    let one = b.load_timeline(general.clone(), 1).unwrap();
    assert_eq!(one.messages.len(), 1);
    assert_eq!(one.messages[0].id, id);
    assert_eq!(body_of(&one.messages[0].content), "latest");
    let three = b.load_timeline(general, 3).unwrap();
    assert_eq!(three.messages[0].id, MessageId::from("m2"));
    assert_eq!(three.messages[2].id, id);
}

#[test]
fn load_older_is_always_empty() {
    let b = MockBackend::new();
    let chunk = b
        .load_older(RoomId::from("!general:vauxl.local"), MessageId::from("m1"), 10)
        .unwrap();
    assert!(chunk.messages.is_empty());
    assert!(chunk.reached_start);
}

#[test]
fn session_is_the_sample_user() {
    let b = MockBackend::new();
    let info = b
        .login(vauxl_core::LoginRequest {
            homeserver: "https://vauxl.local".to_string(),
            username: "you".to_string(),
            password: "SECRET-REDACTED".to_string(),
        })
        .unwrap();
    assert_eq!(info.user.id, UserId::from("@you:vauxl.local"));
    assert_eq!(info.device_id.to_string(), "MOCKDEVICE");
    let restored = b.restore_session().unwrap().unwrap();
    assert_eq!(restored.user.display_name, "you");
    assert_eq!(restored.user.status_message.as_deref(), Some("building Vauxl"));
    assert!(b.logout().is_ok());
}

#[test]
fn spaces_rooms_and_members_are_the_sample() {
    let b = MockBackend::new();
    let spaces = b.list_spaces().unwrap();
    assert_eq!(spaces.len(), 2);
    assert_eq!(spaces[0].name, "Vauxl HQ");
    assert_eq!(spaces[0].rooms.len(), 3);
    assert_eq!(spaces[1].name, "Friends");
    assert_eq!(spaces[1].rooms, vec![RoomId::from("!friends:vauxl.local")]);
    let rooms = b.list_rooms().unwrap();
    let names: Vec<&str> = rooms.iter().map(|r| r.name.as_str()).collect();
    assert_eq!(names, vec!["general", "random", "voice-lounge", "chat", "alice"]);
    assert_eq!(rooms[3].unread.unread, 5);
    assert_eq!(rooms[3].member_count, 4);
    assert!(rooms[4].space.is_none());
    let members = b.get_members(RoomId::from("!general:vauxl.local")).unwrap();
    let levels: Vec<i32> = members.iter().map(|m| m.power_level).collect();
    assert_eq!(levels, vec![100, 50, 0]);
    assert_eq!(members[2].user.presence, Presence::Idle);
    assert!(b.get_members(RoomId::from("!random:vauxl.local")).unwrap().is_empty());
}

#[test]
fn accepted_operations_have_no_effect() {
    let b = MockBackend::new();
    let general = RoomId::from("!general:vauxl.local");
    assert!(b.edit_message(general.clone(), MessageId::from("m1"), text("x")).is_ok());
    assert!(b.redact_message(general.clone(), MessageId::from("m1")).is_ok());
    assert!(b.toggle_reaction(general.clone(), MessageId::from("m1"), "+1".to_string()).is_ok());
    assert!(b.mark_read(general.clone(), MessageId::from("m3")).is_ok());
    assert!(b.set_typing(general.clone(), true).is_ok());
    assert!(b.request_verification(UserId::from("@alice:vauxl.local")).is_ok());
    assert!(b.confirm_sas("flow".to_string()).is_ok());
    assert!(b.cancel_verification("flow".to_string()).is_ok());
    assert_eq!(b.load_timeline(general, 50).unwrap().messages.len(), 3);
}

#[test]
fn drain_events_hands_over_in_order_once() {
    let mut b = MockBackend::new();
    let a = b.send_message(RoomId::from("!random:vauxl.local"), text("a")).unwrap();
    let c = b.send_message(RoomId::from("!voice:vauxl.local"), text("c")).unwrap();
    let events = b.drain_events();
    let ids: Vec<MessageId> = events
        .iter()
        .map(|e| match e {
            CoreEvent::Timeline { change: TimelineChange::Added { message }, .. } => {
                message.id.clone()
            }
            other => panic!("unexpected event: {other:?}"),
        })
        .collect();
    assert_eq!(ids, vec![a, c]);
    assert!(b.drain_events().is_empty());
}

#[test]
fn demo_traffic_alternates_typing_and_message() {
    let mut b = MockBackend::new();
    let room = b.demo_room().unwrap();
    assert_eq!(room, RoomId::from("!general:vauxl.local"));
    assert_eq!(DemoStep::AnnounceTyping.delay_secs(), 8);
    assert_eq!(DemoStep::DeliverMessage.delay_secs(), 2);

    let next = b.demo_step(&room, DemoStep::AnnounceTyping);
    assert_eq!(next, DemoStep::DeliverMessage);
    let events = b.drain_events();
    assert_eq!(events.len(), 1);
    match &events[0] {
        CoreEvent::Typing { room: r, users } => {
            assert_eq!(*r, room);
            assert_eq!(users, &vec![UserId::from("@alice:vauxl.local")]);
        }
        other => panic!("unexpected event: {other:?}"),
    }

    let next = b.demo_step(&room, next);
    assert_eq!(next, DemoStep::AnnounceTyping);
    let events = b.drain_events();
    assert_eq!(events.len(), 2);
    match &events[0] {
        CoreEvent::Typing { users, .. } => assert!(users.is_empty()),
        other => panic!("unexpected event: {other:?}"),
    }
    match &events[1] {
        CoreEvent::Timeline { change: TimelineChange::Added { message }, .. } => {
            assert_eq!(message.id, MessageId::from("m1000"));
            assert_eq!(message.sender, UserId::from("@alice:vauxl.local"));
            assert_eq!(body_of(&message.content), "ping from the mock backend");
        }
        other => panic!("unexpected event: {other:?}"),
    }
    let chunk = b.load_timeline(room, 1).unwrap();
    assert_eq!(chunk.messages[0].id, MessageId::from("m1000"));
}

#[test]
fn default_is_the_sample_backend() {
    let b = MockBackend::default();
    assert_eq!(b.list_rooms().unwrap().len(), 5);
}

#[test]
fn event_copies_keep_their_content() {
    let mut b = MockBackend::new();
    let room = RoomId::from("!general:vauxl.local");
    let id = b.send_message(room.clone(), text("copied")).unwrap();
    let events = b.drain_events();
    let copy = events[0].clone();
    match copy {
        CoreEvent::Timeline { room: r, change: TimelineChange::Added { message } } => {
            assert_eq!(r, room);
            assert_eq!(message.id, id);
            assert_eq!(body_of(&message.content), "copied");
        }
        other => panic!("unexpected event: {other:?}"),
    }
    let typing = CoreEvent::Typing { room: room.clone(), users: vec![UserId::from("@a:x")] };
    match typing.clone() {
        CoreEvent::Typing { users, .. } => assert_eq!(users, vec![UserId::from("@a:x")]),
        other => panic!("unexpected event: {other:?}"),
    }
}

#[test]
fn default_and_new_agree_and_rooms_never_change() {
    let mut a = MockBackend::new();
    let b = MockBackend::default();
    let rooms_a = a.list_rooms().unwrap();
    let rooms_b = b.list_rooms().unwrap();
    let ids_a: Vec<RoomId> = rooms_a.iter().map(|r| r.id.clone()).collect();
    let ids_b: Vec<RoomId> = rooms_b.iter().map(|r| r.id.clone()).collect();
    assert_eq!(ids_a, ids_b);
    a.send_message(RoomId::from("!general:vauxl.local"), text("x")).unwrap();
    a.upload_media("/tmp/f".to_string()).unwrap();
    let room = a.demo_room().unwrap();
    let next = a.demo_step(&room, DemoStep::AnnounceTyping);
    a.demo_step(&room, next);
    a.drain_events();
    let after: Vec<RoomId> = a.list_rooms().unwrap().iter().map(|r| r.id.clone()).collect();
    assert_eq!(after, ids_a);
    assert_eq!(a.list_spaces().unwrap().len(), 2);
    assert_eq!(a.get_members(RoomId::from("!general:vauxl.local")).unwrap().len(), 3);
}
