//! The domain model: sessions, users, spaces, rooms, media and messages.
//! Discord shaped, Matrix underneath.
//!
//! Every type that the backend hands out as a copy has a `clone` whose result is
//! stated: equal to the original, or, for a type that holds a `Vec`, equal in its
//! view, where the vector is seen as the sequence of its items.

use crate::ids::{DeviceId, MessageId, RoomId, SpaceId, UserId};
use vstd::prelude::*;

verus! {

// ---------- Session and identity ----------

#[derive(Debug)]
pub enum SessionState {
    LoggedOut,
    Authenticating,
    Recovering,
    Ready { user: User },
    Error { message: String },
}

impl Clone for SessionState {
    fn clone(&self) -> (res: Self)
        ensures
            res == *self,
    {
        match self {
            SessionState::LoggedOut => SessionState::LoggedOut,
            SessionState::Authenticating => SessionState::Authenticating,
            SessionState::Recovering => SessionState::Recovering,
            SessionState::Ready { user } => SessionState::Ready { user: user.clone() },
            SessionState::Error { message } => SessionState::Error { message: message.clone() },
        }
    }
}

#[derive(Debug)]
pub struct LoginRequest {
    pub homeserver: String,
    pub username: String,
    /// Crosses the boundary once, into the core. The core persists the session,
    /// never the password.
    pub password: String,
}

impl Clone for LoginRequest {
    fn clone(&self) -> (res: Self)
        ensures
            res == *self,
    {
        LoginRequest {
            homeserver: self.homeserver.clone(),
            username: self.username.clone(),
            password: self.password.clone(),
        }
    }
}

#[derive(Debug)]
pub struct SessionInfo {
    pub user: User,
    pub device_id: DeviceId,
}

impl Clone for SessionInfo {
    fn clone(&self) -> (res: Self)
        ensures
            res == *self,
    {
        SessionInfo { user: self.user.clone(), device_id: self.device_id.clone() }
    }
}

#[derive(Debug, Clone, Copy, PartialEq, Eq, Structural)]
pub enum Presence {
    Online,
    Idle,
    DoNotDisturb,
    Offline,
}

#[derive(Debug)]
pub struct User {
    pub id: UserId,
    pub display_name: String,
    pub avatar: Option<MediaRef>,
    pub presence: Presence,
    pub status_message: Option<String>,
}

impl Clone for User {
    fn clone(&self) -> (res: Self)
        ensures
            res == *self,
    {
        User {
            id: self.id.clone(),
            display_name: self.display_name.clone(),
            avatar: clone_media_opt(&self.avatar),
            presence: self.presence,
            status_message: clone_string_opt(&self.status_message),
        }
    }
}

#[derive(Debug, Clone, Copy, PartialEq, Eq, Structural)]
pub enum Membership {
    Joined,
    Invited,
    Left,
    Banned,
}

#[derive(Debug)]
pub struct Member {
    pub user: User,
    pub membership: Membership,
    /// Canonical permission weight (a Matrix power level maps in here).
    pub power_level: i32,
    pub roles: Vec<String>,
}

/// A member as the specifications see it: the roles as a sequence.
pub struct MemberView {
    pub user: User,
    pub membership: Membership,
    pub power_level: i32,
    pub roles: Seq<String>,
}

impl View for Member {
    type V = MemberView;

    open spec fn view(&self) -> MemberView {
        MemberView {
            user: self.user,
            membership: self.membership,
            power_level: self.power_level,
            roles: self.roles@,
        }
    }
}

impl Clone for Member {
    fn clone(&self) -> (res: Self)
        ensures
            res@ == self@,
    {
        Member {
            user: self.user.clone(),
            membership: self.membership,
            power_level: self.power_level,
            roles: clone_strings(&self.roles),
        }
    }
}

// ---------- Spaces and rooms ----------

#[derive(Debug)]
pub struct Space {
    pub id: SpaceId,
    pub name: String,
    pub avatar: Option<MediaRef>,
    pub rooms: Vec<RoomId>,
    pub order: i32,
}

/// A space as the specifications see it: its rooms as a sequence.
pub struct SpaceView {
    pub id: SpaceId,
    pub name: String,
    pub avatar: Option<MediaRef>,
    pub rooms: Seq<RoomId>,
    pub order: i32,
}

impl View for Space {
    type V = SpaceView;

    open spec fn view(&self) -> SpaceView {
        SpaceView {
            id: self.id,
            name: self.name,
            avatar: self.avatar,
            rooms: self.rooms@,
            order: self.order,
        }
    }
}

impl Clone for Space {
    fn clone(&self) -> (res: Self)
        ensures
            res@ == self@,
    {
        Space {
            id: self.id.clone(),
            name: self.name.clone(),
            avatar: clone_media_opt(&self.avatar),
            rooms: clone_room_ids(&self.rooms),
            order: self.order,
        }
    }
}

#[derive(Debug, Clone, Copy, PartialEq, Eq, Structural)]
pub enum RoomKind {
    Text,
    Voice,
    Announcement,
    DirectMessage,
}

#[derive(Debug, Clone, Copy, PartialEq, Eq, Structural)]
pub enum EncryptionState {
    Unencrypted,
    Encrypted,
    /// Encrypted, but unverified devices are present (show a shield warning).
    EncryptedUnverified,
}

#[derive(Debug, Clone, Copy, PartialEq, Eq, Structural)]
pub struct UnreadInfo {
    pub unread: u32,
    pub highlights: u32,
    pub muted: bool,
}

#[derive(Debug)]
pub struct MessagePreview {
    pub sender_name: String,
    pub snippet: String,
    pub timestamp: u64,
}

impl Clone for MessagePreview {
    fn clone(&self) -> (res: Self)
        ensures
            res == *self,
    {
        MessagePreview {
            sender_name: self.sender_name.clone(),
            snippet: self.snippet.clone(),
            timestamp: self.timestamp,
        }
    }
}

#[derive(Debug)]
pub struct Room {
    pub id: RoomId,
    pub space: Option<SpaceId>,
    pub kind: RoomKind,
    pub name: String,
    pub topic: Option<String>,
    pub avatar: Option<MediaRef>,
    pub unread: UnreadInfo,
    pub encryption: EncryptionState,
    pub member_count: u32,
    pub last_message: Option<MessagePreview>,
}

impl Clone for Room {
    fn clone(&self) -> (res: Self)
        ensures
            res == *self,
    {
        Room {
            id: self.id.clone(),
            space: match &self.space {
                Some(s) => Some(s.clone()),
                None => None,
            },
            kind: self.kind,
            name: self.name.clone(),
            topic: clone_string_opt(&self.topic),
            avatar: clone_media_opt(&self.avatar),
            unread: self.unread,
            encryption: self.encryption,
            member_count: self.member_count,
            last_message: match &self.last_message {
                Some(p) => Some(p.clone()),
                None => None,
            },
        }
    }
}

// ---------- Media ----------

/// Opaque handle. The interface never fetches from the homeserver and never holds
/// media keys: it renders through a protocol that the core serves.
#[derive(Debug)]
pub struct MediaRef {
    pub id: String,
    pub thumbnail: Option<String>,
}

impl Clone for MediaRef {
    fn clone(&self) -> (res: Self)
        ensures
            res == *self,
    {
        MediaRef { id: self.id.clone(), thumbnail: clone_string_opt(&self.thumbnail) }
    }
}

// ---------- Messages and content ----------

/// HTML that the core constructs only after sanitizing. Raw HTML never crosses
/// the boundary.
#[derive(Debug)]
pub struct SafeHtml(pub String);

impl Clone for SafeHtml {
    fn clone(&self) -> (res: Self)
        ensures
            res == *self,
    {
        SafeHtml(self.0.clone())
    }
}

#[derive(Debug, Clone, Copy, PartialEq, Eq, Structural)]
pub enum SenderTrust {
    Verified,
    Unverified,
    Unknown,
}

#[derive(Debug)]
pub enum SendState {
    /// Optimistic local echo, not yet acknowledged.
    Local,
    Sending,
    Sent,
    Failed { reason: String },
}

impl Clone for SendState {
    fn clone(&self) -> (res: Self)
        ensures
            res == *self,
    {
        match self {
            SendState::Local => SendState::Local,
            SendState::Sending => SendState::Sending,
            SendState::Sent => SendState::Sent,
            SendState::Failed { reason } => SendState::Failed { reason: reason.clone() },
        }
    }
}

#[derive(Debug)]
pub struct Reaction {
    pub key: String,
    pub count: u32,
    pub me: bool,
}

impl Clone for Reaction {
    fn clone(&self) -> (res: Self)
        ensures
            res == *self,
    {
        Reaction { key: self.key.clone(), count: self.count, me: self.me }
    }
}

#[derive(Debug)]
pub enum MessageContent {
    Text { body: String, formatted: Option<SafeHtml> },
    Image {
        media: MediaRef,
        alt: Option<String>,
        blurhash: Option<String>,
        width: u32,
        height: u32,
    },
    File { media: MediaRef, filename: String, size: u64, mime: String },
    Audio { media: MediaRef, duration_ms: u32 },
    Redacted,
    /// Graceful fallback for unknown or extension content.
    Unsupported { kind: String },
}

impl Clone for MessageContent {
    fn clone(&self) -> (res: Self)
        ensures
            res == *self,
    {
        match self {
            MessageContent::Text { body, formatted } => MessageContent::Text {
                body: body.clone(),
                formatted: match formatted {
                    Some(h) => Some(h.clone()),
                    None => None,
                },
            },
            MessageContent::Image { media, alt, blurhash, width, height } => MessageContent::Image {
                media: media.clone(),
                alt: clone_string_opt(alt),
                blurhash: clone_string_opt(blurhash),
                width: *width,
                height: *height,
            },
            MessageContent::File { media, filename, size, mime } => MessageContent::File {
                media: media.clone(),
                filename: filename.clone(),
                size: *size,
                mime: mime.clone(),
            },
            MessageContent::Audio { media, duration_ms } => MessageContent::Audio {
                media: media.clone(),
                duration_ms: *duration_ms,
            },
            MessageContent::Redacted => MessageContent::Redacted,
            MessageContent::Unsupported { kind } => MessageContent::Unsupported { kind: kind.clone() },
        }
    }
}

#[derive(Debug)]
pub struct Message {
    pub id: MessageId,
    pub room: RoomId,
    pub sender: UserId,
    pub timestamp: u64,
    pub content: MessageContent,
    pub reactions: Vec<Reaction>,
    pub reply_to: Option<MessageId>,
    pub edited: bool,
    pub send_state: SendState,
    pub sender_trust: SenderTrust,
}

/// A message as the specifications see it: its reactions as a sequence.
pub struct MessageView {
    pub id: MessageId,
    pub room: RoomId,
    pub sender: UserId,
    pub timestamp: u64,
    pub content: MessageContent,
    pub reactions: Seq<Reaction>,
    pub reply_to: Option<MessageId>,
    pub edited: bool,
    pub send_state: SendState,
    pub sender_trust: SenderTrust,
}

impl View for Message {
    type V = MessageView;

    open spec fn view(&self) -> MessageView {
        MessageView {
            id: self.id,
            room: self.room,
            sender: self.sender,
            timestamp: self.timestamp,
            content: self.content,
            reactions: self.reactions@,
            reply_to: self.reply_to,
            edited: self.edited,
            send_state: self.send_state,
            sender_trust: self.sender_trust,
        }
    }
}

impl Clone for Message {
    fn clone(&self) -> (res: Self)
        ensures
            res@ == self@,
    {
        Message {
            id: self.id.clone(),
            room: self.room.clone(),
            sender: self.sender.clone(),
            timestamp: self.timestamp,
            content: self.content.clone(),
            reactions: clone_reactions(&self.reactions),
            reply_to: match &self.reply_to {
                Some(m) => Some(m.clone()),
                None => None,
            },
            edited: self.edited,
            send_state: self.send_state.clone(),
            sender_trust: self.sender_trust,
        }
    }
}

#[derive(Debug)]
pub enum OutgoingContent {
    Text { body: String, formatted: Option<String>, reply_to: Option<MessageId> },
    Media { upload: MediaRef, caption: Option<String> },
}

impl Clone for OutgoingContent {
    fn clone(&self) -> (res: Self)
        ensures
            res == *self,
    {
        match self {
            OutgoingContent::Text { body, formatted, reply_to } => OutgoingContent::Text {
                body: body.clone(),
                formatted: clone_string_opt(formatted),
                reply_to: match reply_to {
                    Some(m) => Some(m.clone()),
                    None => None,
                },
            },
            OutgoingContent::Media { upload, caption } => OutgoingContent::Media {
                upload: upload.clone(),
                caption: clone_string_opt(caption),
            },
        }
    }
}

#[derive(Debug)]
pub struct TimelineChunk {
    pub messages: Vec<Message>,
    pub reached_start: bool,
}

/// The views of a sequence of messages.
pub open spec fn message_views(s: Seq<Message>) -> Seq<MessageView> {
    s.map_values(|m: Message| m@)
}

/// A chunk as the specifications see it: the views of its messages.
pub struct TimelineChunkView {
    pub messages: Seq<MessageView>,
    pub reached_start: bool,
}

impl View for TimelineChunk {
    type V = TimelineChunkView;

    open spec fn view(&self) -> TimelineChunkView {
        TimelineChunkView {
            messages: message_views(self.messages@),
            reached_start: self.reached_start,
        }
    }
}

impl Clone for TimelineChunk {
    fn clone(&self) -> (res: Self)
        ensures
            res@ == self@,
    {
        TimelineChunk {
            messages: clone_messages(&self.messages),
            reached_start: self.reached_start,
        }
    }
}

// ---------- Copies of collections ----------

fn clone_string_opt(s: &Option<String>) -> (res: Option<String>)
    ensures
        res == *s,
{
    match s {
        Some(v) => Some(v.clone()),
        None => None,
    }
}

fn clone_media_opt(m: &Option<MediaRef>) -> (res: Option<MediaRef>)
    ensures
        res == *m,
{
    match m {
        Some(v) => Some(v.clone()),
        None => None,
    }
}

fn clone_strings(v: &Vec<String>) -> (res: Vec<String>)
    ensures
        res@ == v@,
{
    let mut res: Vec<String> = Vec::new();
    for i in 0..v.len()
        invariant
            res@ == v@.take(i as int),
    {
        res.push(v[i].clone());
        assert(res@ =~= v@.take(i + 1));
    }
    assert(v@.take(v.len() as int) =~= v@);
    res
}

fn clone_room_ids(v: &Vec<RoomId>) -> (res: Vec<RoomId>)
    ensures
        res@ == v@,
{
    let mut res: Vec<RoomId> = Vec::new();
    for i in 0..v.len()
        invariant
            res@ == v@.take(i as int),
    {
        res.push(v[i].clone());
        assert(res@ =~= v@.take(i + 1));
    }
    assert(v@.take(v.len() as int) =~= v@);
    res
}

fn clone_reactions(v: &Vec<Reaction>) -> (res: Vec<Reaction>)
    ensures
        res@ == v@,
{
    let mut res: Vec<Reaction> = Vec::new();
    for i in 0..v.len()
        invariant
            res@ == v@.take(i as int),
    {
        res.push(v[i].clone());
        assert(res@ =~= v@.take(i + 1));
    }
    assert(v@.take(v.len() as int) =~= v@);
    res
}

/// Copies of messages, equal to the originals in their views.
pub fn clone_messages(v: &Vec<Message>) -> (res: Vec<Message>)
    ensures
        message_views(res@) == message_views(v@),
{
    clone_message_range(v, 0, v.len())
}

/// Copies of the messages of `v` from index `start` up to `end`.
pub fn clone_message_range(v: &Vec<Message>, start: usize, end: usize) -> (res: Vec<Message>)
    requires
        start <= end <= v.len(),
    ensures
        message_views(res@) == message_views(v@.subrange(start as int, end as int)),
{
    let mut res: Vec<Message> = Vec::new();
    let mut i = start;
    while i < end
        invariant
            start <= i <= end <= v.len(),
            res@.len() == i - start,
            forall|k: int| 0 <= k < res@.len() ==> (#[trigger] res@[k])@ == v@[start + k]@,
        decreases end - i,
    {
        let m = v[i].clone();
        res.push(m);
        i = i + 1;
    }
    assert(message_views(res@) =~= message_views(v@.subrange(start as int, end as int)));
    res
}

} // verus!
