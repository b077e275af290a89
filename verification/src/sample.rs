//! The canned data that the in-memory backend starts from: one user, two spaces,
//! five rooms, a short timeline in `#general` and its members.

use crate::clock::BASE_TS;
use crate::decimal::{decimal, prefixed_decimal};
use crate::ids::{MessageId, RoomId, SpaceId, UserId};
use crate::model::{
    EncryptionState, MediaRef, Member, Membership, Message, MessageContent, MessagePreview,
    Presence, Reaction, Room, RoomKind, SafeHtml, SendState, SenderTrust, Space, UnreadInfo, User,
};
use crate::table::RoomTable;
use vstd::prelude::*;

verus! {

/// Everything the in-memory backend holds, apart from its counter and its
/// undelivered events.
pub struct MockState {
    pub me: User,
    pub spaces: Vec<Space>,
    pub rooms: Vec<Room>,
    pub timelines: RoomTable<Message>,
    pub members: RoomTable<Member>,
}

impl MockState {
    /// The per-room tables are well formed.
    pub open spec fn wf(self) -> bool {
        self.timelines.wf() && self.members.wf()
    }
}

// ---------- Describing values by their text ----------

pub open spec fn opt_text(o: Option<String>) -> Option<Seq<char>> {
    match o {
        Some(s) => Some(s@),
        None => None,
    }
}

pub open spec fn opt_space(o: Option<SpaceId>) -> Option<Seq<char>> {
    match o {
        Some(s) => Some(s@),
        None => None,
    }
}

pub open spec fn room_ids(s: Seq<RoomId>) -> Seq<Seq<char>> {
    s.map_values(|r: RoomId| r@)
}

/// `u` is a user without avatar with the given identifier, name, presence and
/// status.
pub open spec fn user_is(
    u: User,
    id: Seq<char>,
    name: Seq<char>,
    presence: Presence,
    status: Option<Seq<char>>,
) -> bool {
    &&& u.id@ == id
    &&& u.display_name@ == name
    &&& u.avatar is None
    &&& u.presence == presence
    &&& opt_text(u.status_message) == status
}

/// `s` is a space without avatar with the given identifier, name, rooms and
/// position.
pub open spec fn space_is(
    s: Space,
    id: Seq<char>,
    name: Seq<char>,
    rooms: Seq<Seq<char>>,
    order: i32,
) -> bool {
    &&& s.id@ == id
    &&& s.name@ == name
    &&& s.avatar is None
    &&& room_ids(s.rooms@) == rooms
    &&& s.order == order
}

/// `r` is a room without avatar, highlights, mute or last message, with the
/// given fields.
pub open spec fn room_is(
    r: Room,
    id: Seq<char>,
    space: Option<Seq<char>>,
    kind: RoomKind,
    name: Seq<char>,
    topic: Option<Seq<char>>,
    encryption: EncryptionState,
    member_count: u32,
    unread: u32,
) -> bool {
    &&& r.id@ == id
    &&& opt_space(r.space) == space
    &&& r.kind == kind
    &&& r.name@ == name
    &&& opt_text(r.topic) == topic
    &&& r.avatar is None
    &&& r.unread == UnreadInfo { unread, highlights: 0, muted: false }
    &&& r.encryption == encryption
    &&& r.member_count == member_count
    &&& r.last_message is None
}

/// `m` is a sent plain-text message, without reactions, reply or edit, with the
/// given identifier, room, sender, body, time and trust.
pub open spec fn text_message_is(
    m: Message,
    id: Seq<char>,
    room: Seq<char>,
    sender: Seq<char>,
    body: Seq<char>,
    timestamp: u64,
    trust: SenderTrust,
) -> bool {
    &&& m.id@ == id
    &&& m.room@ == room
    &&& m.sender@ == sender
    &&& m.timestamp == timestamp
    &&& m.content matches MessageContent::Text { body: b, formatted: None } && b@ == body
    &&& m.reactions@.len() == 0
    &&& m.reply_to is None
    &&& !m.edited
    &&& m.send_state is Sent
    &&& m.sender_trust == trust
}

/// `m` is a joined member with no roles, the given user and power level.
pub open spec fn member_is(m: Member, user: User, power_level: i32) -> bool {
    &&& m.user == user
    &&& m.membership == Membership::Joined
    &&& m.power_level == power_level
    &&& m.roles@.len() == 0
}

// ---------- The sample ----------

pub open spec fn general_id() -> Seq<char> {
    "!general:vauxl.local"@
}

pub open spec fn random_id() -> Seq<char> {
    "!random:vauxl.local"@
}

pub open spec fn voice_id() -> Seq<char> {
    "!voice:vauxl.local"@
}

pub open spec fn friends_id() -> Seq<char> {
    "!friends:vauxl.local"@
}

pub open spec fn dm_alice_id() -> Seq<char> {
    "!dm-alice:vauxl.local"@
}

pub open spec fn hq_id() -> Seq<char> {
    "!space-hq:vauxl.local"@
}

pub open spec fn friends_space_id() -> Seq<char> {
    "!space-friends:vauxl.local"@
}

pub open spec fn me_id() -> Seq<char> {
    "@you:vauxl.local"@
}

pub open spec fn alice_id() -> Seq<char> {
    "@alice:vauxl.local"@
}

pub open spec fn bob_id() -> Seq<char> {
    "@bob:vauxl.local"@
}

/// Alice, as the sample knows her.
pub open spec fn is_alice(u: User) -> bool {
    user_is(u, alice_id(), "alice"@, Presence::Online, None)
}

/// Bob, as the sample knows him.
pub open spec fn is_bob(u: User) -> bool {
    user_is(u, bob_id(), "bob"@, Presence::Idle, None)
}

/// The sample spaces.
pub open spec fn sample_spaces(spaces: Seq<Space>) -> bool {
    &&& spaces.len() == 2
    &&& space_is(spaces[0], hq_id(), "Vauxl HQ"@, seq![general_id(), random_id(), voice_id()], 0)
    &&& space_is(spaces[1], friends_space_id(), "Friends"@, seq![friends_id()], 1)
}

/// The sample rooms, in their order.
pub open spec fn sample_rooms(rooms: Seq<Room>) -> bool {
    &&& rooms.len() == 5
    &&& room_is(
        rooms[0],
        general_id(),
        Some(hq_id()),
        RoomKind::Text,
        "general"@,
        Some("Welcome to Vauxl HQ"@),
        EncryptionState::Encrypted,
        3,
        0,
    )
    &&& room_is(
        rooms[1],
        random_id(),
        Some(hq_id()),
        RoomKind::Text,
        "random"@,
        None,
        EncryptionState::Encrypted,
        3,
        2,
    )
    &&& room_is(
        rooms[2],
        voice_id(),
        Some(hq_id()),
        RoomKind::Voice,
        "voice-lounge"@,
        None,
        EncryptionState::Unencrypted,
        3,
        0,
    )
    &&& room_is(
        rooms[3],
        friends_id(),
        Some(friends_space_id()),
        RoomKind::Text,
        "chat"@,
        None,
        EncryptionState::Encrypted,
        4,
        5,
    )
    &&& room_is(
        rooms[4],
        dm_alice_id(),
        None,
        RoomKind::DirectMessage,
        "alice"@,
        None,
        EncryptionState::Encrypted,
        2,
        1,
    )
}

/// The sample timelines: three messages in `#general`, every other room empty.
pub open spec fn sample_timelines(t: Map<Seq<char>, Seq<Message>>) -> bool {
    &&& t.dom() == set![general_id(), random_id(), voice_id(), friends_id(), dm_alice_id()]
    &&& t[general_id()].len() == 3
    &&& text_message_is(
        t[general_id()][0],
        "m"@ + decimal(1),
        general_id(),
        alice_id(),
        "hey, welcome to the Vauxl prototype"@,
        BASE_TS,
        SenderTrust::Verified,
    )
    &&& text_message_is(
        t[general_id()][1],
        "m"@ + decimal(2),
        general_id(),
        bob_id(),
        "this timeline is coming from the mock backend"@,
        (BASE_TS + 60_000) as u64,
        SenderTrust::Verified,
    )
    &&& text_message_is(
        t[general_id()][2],
        "m"@ + decimal(3),
        general_id(),
        me_id(),
        "and the UI never touches a key"@,
        (BASE_TS + 120_000) as u64,
        SenderTrust::Verified,
    )
    &&& t[random_id()].len() == 0
    &&& t[voice_id()].len() == 0
    &&& t[friends_id()].len() == 0
    &&& t[dm_alice_id()].len() == 0
}

/// The sample members: you, alice and bob in `#general`, no other room listed.
pub open spec fn sample_members(m: Map<Seq<char>, Seq<Member>>, me: User) -> bool {
    &&& m.dom() == set![general_id()]
    &&& m[general_id()].len() == 3
    &&& member_is(m[general_id()][0], me, 100)
    &&& is_alice(m[general_id()][1].user)
    &&& member_is(m[general_id()][1], m[general_id()][1].user, 50)
    &&& is_bob(m[general_id()][2].user)
    &&& member_is(m[general_id()][2], m[general_id()][2].user, 0)
}

/// The whole sample state.
#[verifier::opaque]
pub open spec fn is_sample_state(s: MockState) -> bool {
    &&& s.wf()
    &&& user_is(s.me, me_id(), "you"@, Presence::Online, Some("building Vauxl"@))
    &&& sample_spaces(s.spaces@)
    &&& sample_rooms(s.rooms@)
    &&& sample_timelines(s.timelines@)
    &&& sample_members(s.members@, s.me)
}

/// Every room that a space lists exists and names that space as its own, and
/// every room that names a space is listed by it.
pub open spec fn spaces_consistent(spaces: Seq<Space>, rooms: Seq<Room>) -> bool {
    &&& forall|i: int, j: int|
        0 <= i < spaces.len() && 0 <= j < spaces[i].rooms@.len() ==> exists|k: int|
            0 <= k < rooms.len() && #[trigger] rooms[k].id@ == (#[trigger] spaces[i].rooms@[j])@
                && opt_space(rooms[k].space) == Some(spaces[i].id@)
    &&& forall|k: int|
        0 <= k < rooms.len() && (#[trigger] rooms[k]).space is Some ==> exists|i: int, j: int|
            0 <= i < spaces.len() && 0 <= j < spaces[i].rooms@.len() && #[trigger] spaces[i].rooms@[j]@
                == rooms[k].id@ && opt_space(rooms[k].space) == Some(spaces[i].id@)
}

/// In the sample, spaces and rooms agree on which room belongs where.
pub proof fn lemma_sample_spaces_consistent(spaces: Seq<Space>, rooms: Seq<Room>)
    requires
        sample_spaces(spaces),
        sample_rooms(rooms),
    ensures
        spaces_consistent(spaces, rooms),
{
    let hq = spaces[0].rooms@;
    let fr = spaces[1].rooms@;
    assert(hq.len() == room_ids(hq).len() == 3);
    assert(fr.len() == room_ids(fr).len() == 1);
    assert(hq[0]@ == room_ids(hq)[0]);
    assert(hq[1]@ == room_ids(hq)[1]);
    assert(hq[2]@ == room_ids(hq)[2]);
    assert(fr[0]@ == room_ids(fr)[0]);
    assert forall|i: int, j: int|
        0 <= i < spaces.len() && 0 <= j < spaces[i].rooms@.len() implies exists|k: int|
            0 <= k < rooms.len() && #[trigger] rooms[k].id@ == (#[trigger] spaces[i].rooms@[j])@
                && opt_space(rooms[k].space) == Some(spaces[i].id@) by {
        if i == 0 {
            assert(rooms[j].id@ == spaces[i].rooms@[j]@);
        } else {
            assert(rooms[3].id@ == spaces[i].rooms@[j]@);
        }
    }
    assert forall|k: int| 0 <= k < rooms.len() && (#[trigger] rooms[k]).space is Some implies exists|
        i: int,
        j: int,
    |
        0 <= i < spaces.len() && 0 <= j < spaces[i].rooms@.len() && #[trigger] spaces[i].rooms@[j]@
            == rooms[k].id@ && opt_space(rooms[k].space) == Some(spaces[i].id@) by {
        if k < 3 {
            assert(spaces[0].rooms@[k]@ == rooms[k].id@);
        } else {
            assert(spaces[1].rooms@[0]@ == rooms[k].id@);
        }
    }
}

// ---------- Agreement in text ----------
//
// Two values agree when they are alike field by field, strings and identifiers
// compared by their text.

pub open spec fn same_media(a: MediaRef, b: MediaRef) -> bool {
    a.id@ == b.id@ && opt_text(a.thumbnail) == opt_text(b.thumbnail)
}

pub open spec fn same_media_opt(a: Option<MediaRef>, b: Option<MediaRef>) -> bool {
    match (a, b) {
        (Some(x), Some(y)) => same_media(x, y),
        (None, None) => true,
        _ => false,
    }
}

pub open spec fn opt_message_id(o: Option<MessageId>) -> Option<Seq<char>> {
    match o {
        Some(m) => Some(m@),
        None => None,
    }
}

pub open spec fn opt_html(o: Option<SafeHtml>) -> Option<Seq<char>> {
    match o {
        Some(h) => Some(h.0@),
        None => None,
    }
}

pub open spec fn same_user(a: User, b: User) -> bool {
    &&& a.id@ == b.id@
    &&& a.display_name@ == b.display_name@
    &&& same_media_opt(a.avatar, b.avatar)
    &&& a.presence == b.presence
    &&& opt_text(a.status_message) == opt_text(b.status_message)
}

pub open spec fn same_space(a: Space, b: Space) -> bool {
    &&& a.id@ == b.id@
    &&& a.name@ == b.name@
    &&& same_media_opt(a.avatar, b.avatar)
    &&& room_ids(a.rooms@) == room_ids(b.rooms@)
    &&& a.order == b.order
}

pub open spec fn same_preview_opt(a: Option<MessagePreview>, b: Option<MessagePreview>) -> bool {
    match (a, b) {
        (Some(x), Some(y)) => x.sender_name@ == y.sender_name@ && x.snippet@ == y.snippet@
            && x.timestamp == y.timestamp,
        (None, None) => true,
        _ => false,
    }
}

pub open spec fn same_room(a: Room, b: Room) -> bool {
    &&& a.id@ == b.id@
    &&& opt_space(a.space) == opt_space(b.space)
    &&& a.kind == b.kind
    &&& a.name@ == b.name@
    &&& opt_text(a.topic) == opt_text(b.topic)
    &&& same_media_opt(a.avatar, b.avatar)
    &&& a.unread == b.unread
    &&& a.encryption == b.encryption
    &&& a.member_count == b.member_count
    &&& same_preview_opt(a.last_message, b.last_message)
}

pub open spec fn same_content(a: MessageContent, b: MessageContent) -> bool {
    match (a, b) {
        (
            MessageContent::Text { body: b1, formatted: f1 },
            MessageContent::Text { body: b2, formatted: f2 },
        ) => b1@ == b2@ && opt_html(f1) == opt_html(f2),
        (
            MessageContent::Image { media: m1, alt: a1, blurhash: h1, width: w1, height: g1 },
            MessageContent::Image { media: m2, alt: a2, blurhash: h2, width: w2, height: g2 },
        ) => same_media(m1, m2) && opt_text(a1) == opt_text(a2) && opt_text(h1) == opt_text(h2)
            && w1 == w2 && g1 == g2,
        (
            MessageContent::File { media: m1, filename: n1, size: z1, mime: t1 },
            MessageContent::File { media: m2, filename: n2, size: z2, mime: t2 },
        ) => same_media(m1, m2) && n1@ == n2@ && z1 == z2 && t1@ == t2@,
        (
            MessageContent::Audio { media: m1, duration_ms: d1 },
            MessageContent::Audio { media: m2, duration_ms: d2 },
        ) => same_media(m1, m2) && d1 == d2,
        (MessageContent::Redacted, MessageContent::Redacted) => true,
        (MessageContent::Unsupported { kind: k1 }, MessageContent::Unsupported { kind: k2 }) => k1@
            == k2@,
        _ => false,
    }
}

pub open spec fn same_send_state(a: SendState, b: SendState) -> bool {
    match (a, b) {
        (SendState::Local, SendState::Local) => true,
        (SendState::Sending, SendState::Sending) => true,
        (SendState::Sent, SendState::Sent) => true,
        (SendState::Failed { reason: r1 }, SendState::Failed { reason: r2 }) => r1@ == r2@,
        _ => false,
    }
}

pub open spec fn same_reactions(a: Seq<Reaction>, b: Seq<Reaction>) -> bool {
    &&& a.len() == b.len()
    &&& forall|i: int|
        0 <= i < a.len() ==> (#[trigger] a[i]).key@ == b[i].key@ && a[i].count == b[i].count
            && a[i].me == b[i].me
}

pub open spec fn same_message(a: Message, b: Message) -> bool {
    &&& a.id@ == b.id@
    &&& a.room@ == b.room@
    &&& a.sender@ == b.sender@
    &&& a.timestamp == b.timestamp
    &&& same_content(a.content, b.content)
    &&& same_reactions(a.reactions@, b.reactions@)
    &&& opt_message_id(a.reply_to) == opt_message_id(b.reply_to)
    &&& a.edited == b.edited
    &&& same_send_state(a.send_state, b.send_state)
    &&& a.sender_trust == b.sender_trust
}

pub open spec fn same_member(a: Member, b: Member) -> bool {
    &&& same_user(a.user, b.user)
    &&& a.membership == b.membership
    &&& a.power_level == b.power_level
    &&& a.roles@.len() == b.roles@.len()
    &&& forall|i: int| 0 <= i < a.roles@.len() ==> (#[trigger] a.roles@[i])@ == b.roles@[i]@
}

/// Two states agree: the same user, spaces and rooms in the same order, the same
/// rooms with timelines and member lists, and in each the same entries in the
/// same order.
pub open spec fn same_state(a: MockState, b: MockState) -> bool {
    &&& same_user(a.me, b.me)
    &&& a.spaces@.len() == b.spaces@.len()
    &&& forall|i: int| 0 <= i < a.spaces@.len() ==> same_space(#[trigger] a.spaces@[i], b.spaces@[i])
    &&& a.rooms@.len() == b.rooms@.len()
    &&& forall|i: int| 0 <= i < a.rooms@.len() ==> same_room(#[trigger] a.rooms@[i], b.rooms@[i])
    &&& a.timelines@.dom() == b.timelines@.dom()
    &&& forall|r: Seq<char>|
        #[trigger] a.timelines@.contains_key(r) ==> a.timelines@[r].len() == b.timelines@[r].len()
            && forall|i: int|
            0 <= i < a.timelines@[r].len() ==> same_message(
                #[trigger] a.timelines@[r][i],
                b.timelines@[r][i],
            )
    &&& a.members@.dom() == b.members@.dom()
    &&& forall|r: Seq<char>|
        #[trigger] a.members@.contains_key(r) ==> a.members@[r].len() == b.members@[r].len()
            && forall|i: int|
            0 <= i < a.members@[r].len() ==> same_member(#[trigger] a.members@[r][i], b.members@[r][i])
}

/// The sample is one state: any two states that are the sample agree in all
/// they hold. In particular two calls of `build_sample` give states that agree.
pub proof fn lemma_samples_agree(a: MockState, b: MockState)
    requires
        is_sample_state(a),
        is_sample_state(b),
    ensures
        same_state(a, b),
{
    reveal(is_sample_state);
    assert forall|i: int| 0 <= i < a.rooms@.len() implies same_room(
        #[trigger] a.rooms@[i],
        b.rooms@[i],
    ) by {
        assert(0 <= i < 5);
    }
    let g = general_id();
    assert forall|r: Seq<char>| #[trigger] a.timelines@.contains_key(r) implies a.timelines@[r].len()
        == b.timelines@[r].len() && forall|i: int|
        0 <= i < a.timelines@[r].len() ==> same_message(
            #[trigger] a.timelines@[r][i],
            b.timelines@[r][i],
        ) by {
        if r == g {
            assert forall|i: int| 0 <= i < a.timelines@[r].len() implies same_message(
                #[trigger] a.timelines@[r][i],
                b.timelines@[r][i],
            ) by {
                let ma = a.timelines@[r][i];
                let mb = b.timelines@[r][i];
                assert(same_reactions(ma.reactions@, mb.reactions@));
            }
        }
    }
    assert forall|r: Seq<char>| #[trigger] a.members@.contains_key(r) implies a.members@[r].len()
        == b.members@[r].len() && forall|i: int|
        0 <= i < a.members@[r].len() ==> same_member(#[trigger] a.members@[r][i], b.members@[r][i]) by {
        assert(r == g);
        assert forall|i: int| 0 <= i < a.members@[r].len() implies same_member(
            #[trigger] a.members@[r][i],
            b.members@[r][i],
        ) by {
            assert(0 <= i < 3);
        }
    }
}

// ---------- Building it ----------

fn make_user(id: &str, name: &str, presence: Presence, status: Option<&str>) -> (u: User)
    ensures
        user_is(
            u,
            id@,
            name@,
            presence,
            match status {
                Some(s) => Some(s@),
                None => None,
            },
        ),
{
    User {
        id: UserId::new(id),
        display_name: name.to_owned(),
        avatar: None,
        presence,
        status_message: match status {
            Some(s) => Some(s.to_owned()),
            None => None,
        },
    }
}

fn make_room(
    id: &RoomId,
    space: &SpaceId,
    in_space: bool,
    kind: RoomKind,
    name: &str,
    topic: Option<&str>,
    encryption: EncryptionState,
    member_count: u32,
    unread: u32,
) -> (r: Room)
    ensures
        room_is(
            r,
            id@,
            if in_space {
                Some(space@)
            } else {
                None
            },
            kind,
            name@,
            match topic {
                Some(t) => Some(t@),
                None => None,
            },
            encryption,
            member_count,
            unread,
        ),
{
    Room {
        id: id.clone(),
        space: if in_space {
            Some(space.clone())
        } else {
            None
        },
        kind,
        name: name.to_owned(),
        topic: match topic {
            Some(t) => Some(t.to_owned()),
            None => None,
        },
        avatar: None,
        unread: UnreadInfo { unread, highlights: 0, muted: false },
        encryption,
        member_count,
        last_message: None,
    }
}

fn seed_message(room: &RoomId, sender: &User, body: &str, offset: u64, n: u64) -> (m: Message)
    requires
        offset <= 120_000,
    ensures
        text_message_is(
            m,
            "m"@ + decimal(n as nat),
            room@,
            sender.id@,
            body@,
            (BASE_TS + offset) as u64,
            SenderTrust::Verified,
        ),
{
    Message {
        id: MessageId(prefixed_decimal("m", n)),
        room: room.clone(),
        sender: sender.id.clone(),
        timestamp: BASE_TS + offset,
        content: MessageContent::Text { body: body.to_owned(), formatted: None },
        reactions: Vec::new(),
        reply_to: None,
        edited: false,
        send_state: SendState::Sent,
        sender_trust: SenderTrust::Verified,
    }
}

fn make_member(u: &User, power_level: i32) -> (m: Member)
    ensures
        member_is(m, *u, power_level),
{
    Member { user: u.clone(), membership: Membership::Joined, power_level, roles: Vec::new() }
}

/// The canned state: you, alice and bob; the spaces "Vauxl HQ" and "Friends";
/// five rooms; three messages in `#general`; the members of `#general`.
pub fn build_sample() -> (s: MockState)
    ensures
        s.wf(),
        is_sample_state(s),
        spaces_consistent(s.spaces@, s.rooms@),
{
    let me = make_user("@you:vauxl.local", "you", Presence::Online, Some("building Vauxl"));
    let alice = make_user("@alice:vauxl.local", "alice", Presence::Online, None);
    let bob = make_user("@bob:vauxl.local", "bob", Presence::Idle, None);

    let general = RoomId::new("!general:vauxl.local");
    let random = RoomId::new("!random:vauxl.local");
    let voice = RoomId::new("!voice:vauxl.local");
    let friends_chat = RoomId::new("!friends:vauxl.local");
    let dm_alice = RoomId::new("!dm-alice:vauxl.local");

    let space_hq = SpaceId::new("!space-hq:vauxl.local");
    let space_friends = SpaceId::new("!space-friends:vauxl.local");

    let mut hq_rooms: Vec<RoomId> = Vec::new();
    hq_rooms.push(general.clone());
    hq_rooms.push(random.clone());
    hq_rooms.push(voice.clone());
    let mut friends_rooms: Vec<RoomId> = Vec::new();
    friends_rooms.push(friends_chat.clone());
    proof {
        assert(room_ids(hq_rooms@) =~= seq![general_id(), random_id(), voice_id()]);
        assert(room_ids(friends_rooms@) =~= seq![friends_id()]);
    }

    let mut spaces: Vec<Space> = Vec::new();
    spaces.push(
        Space {
            id: space_hq.clone(),
            name: "Vauxl HQ".to_owned(),
            avatar: None,
            rooms: hq_rooms,
            order: 0,
        },
    );
    spaces.push(
        Space {
            id: space_friends.clone(),
            name: "Friends".to_owned(),
            avatar: None,
            rooms: friends_rooms,
            order: 1,
        },
    );

    let mut rooms: Vec<Room> = Vec::new();
    rooms.push(
        make_room(
            &general,
            &space_hq,
            true,
            RoomKind::Text,
            "general",
            Some("Welcome to Vauxl HQ"),
            EncryptionState::Encrypted,
            3,
            0,
        ),
    );
    rooms.push(
        make_room(
            &random,
            &space_hq,
            true,
            RoomKind::Text,
            "random",
            None,
            EncryptionState::Encrypted,
            3,
            2,
        ),
    );
    rooms.push(
        make_room(
            &voice,
            &space_hq,
            true,
            RoomKind::Voice,
            "voice-lounge",
            None,
            EncryptionState::Unencrypted,
            3,
            0,
        ),
    );
    rooms.push(
        make_room(
            &friends_chat,
            &space_friends,
            true,
            RoomKind::Text,
            "chat",
            None,
            EncryptionState::Encrypted,
            4,
            5,
        ),
    );
    rooms.push(
        make_room(
            &dm_alice,
            &space_friends,
            false,
            RoomKind::DirectMessage,
            "alice",
            None,
            EncryptionState::Encrypted,
            2,
            1,
        ),
    );

    let mut general_timeline: Vec<Message> = Vec::new();
    general_timeline.push(seed_message(&general, &alice, "hey, welcome to the Vauxl prototype", 0, 1));
    general_timeline.push(
        seed_message(&general, &bob, "this timeline is coming from the mock backend", 60_000, 2),
    );
    general_timeline.push(seed_message(&general, &me, "and the UI never touches a key", 120_000, 3));

    proof {
        reveal_strlit("!general:vauxl.local");
        reveal_strlit("!random:vauxl.local");
        reveal_strlit("!voice:vauxl.local");
        reveal_strlit("!friends:vauxl.local");
        reveal_strlit("!dm-alice:vauxl.local");
        assert(general_id()[1] != friends_id()[1]);
    }

    let mut timelines: RoomTable<Message> = RoomTable::new();
    timelines.insert(general.clone(), general_timeline);
    timelines.insert(random.clone(), Vec::new());
    timelines.insert(voice.clone(), Vec::new());
    timelines.insert(friends_chat.clone(), Vec::new());
    timelines.insert(dm_alice.clone(), Vec::new());

    let mut general_members: Vec<Member> = Vec::new();
    general_members.push(make_member(&me, 100));
    general_members.push(make_member(&alice, 50));
    general_members.push(make_member(&bob, 0));
    let mut members: RoomTable<Member> = RoomTable::new();
    members.insert(general.clone(), general_members);

    let s = MockState { me, spaces, rooms, timelines, members };
    proof {
        assert(s.timelines@.dom() =~= set![
            general_id(),
            random_id(),
            voice_id(),
            friends_id(),
            dm_alice_id(),
        ]);
        assert(s.members@.dom() =~= set![general_id()]);
        lemma_sample_spaces_consistent(s.spaces@, s.rooms@);
        reveal(is_sample_state);
    }
    s
}

} // verus!
