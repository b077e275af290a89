//! The in-memory backend: canned data, so that the whole interface can be built
//! and felt before any Matrix code exists.
//!
//! Each operation of the chat contract is a method here. The events that an
//! operation emits are queued in order in an outbox, which the shell drains and
//! forwards to its subscribers.

use crate::clock::now_ms;
use crate::decimal::{decimal, lemma_prefixed_decimal_injective, prefixed_decimal};
use crate::error::CoreError;
use crate::event::{CoreEvent, TimelineChange};
use crate::ids::{DeviceId, MessageId, RoomId, UserId};
use crate::model::{
    clone_message_range, message_views, LoginRequest, MediaRef, Member, MemberView, Message,
    MessageContent, OutgoingContent, Room, SendState, SenderTrust, SessionInfo,
    Space, SpaceView, TimelineChunk, TimelineChunkView,
};
use crate::table::RoomTable;
use crate::sample::{
    lemma_samples_agree, same_state, sample_rooms, sample_spaces,
    alice_id, build_sample, is_sample_state, spaces_consistent, text_message_is, MockState,
};
use vstd::prelude::*;

verus! {

/// The counter after one identifier has been taken from `c`: one more, wrapping
/// to zero past the largest value.
pub open spec fn next_counter(c: u64) -> u64 {
    if c == u64::MAX {
        0
    } else {
        (c + 1) as u64
    }
}

/// The text of a message sent with `content`: its body, or the caption of the
/// media, or `[media]` for media without caption.
pub open spec fn outgoing_body(content: OutgoingContent) -> Seq<char> {
    match content {
        OutgoingContent::Text { body, .. } => body@,
        OutgoingContent::Media { caption, .. } => match caption {
            Some(c) => c@,
            None => "[media]"@,
        },
    }
}

/// The position from which a window of at most `limit` items ends a list of
/// `len` items.
pub open spec fn window_start(len: nat, limit: nat) -> nat {
    if len > limit {
        (len - limit) as nat
    } else {
        0
    }
}

/// The last `limit` messages of `t`, or all of them where there are fewer.
pub open spec fn latest(t: Seq<Message>, limit: nat) -> Seq<Message> {
    t.subrange(window_start(t.len(), limit) as int, t.len() as int)
}

/// The identifier that the counter value `n` gives a message.
pub open spec fn message_id_text(n: nat) -> Seq<char> {
    "m"@ + decimal(n)
}

/// `id` was given out for a counter value below `bound`.
pub open spec fn issued_below(id: MessageId, bound: u64) -> bool {
    exists|k: nat| k < bound && id@ == message_id_text(k)
}

/// Every message of the timelines `t` has an identifier given out below `bound`,
/// and no two messages share one.
pub open spec fn ids_distinct(t: Map<Seq<char>, Seq<Message>>, bound: u64) -> bool {
    &&& forall|r: Seq<char>, i: int|
        t.contains_key(r) && 0 <= i < t[r].len() ==> issued_below(#[trigger] t[r][i].id, bound)
    &&& forall|r1: Seq<char>, i: int, r2: Seq<char>, j: int|
        t.contains_key(r1) && t.contains_key(r2) && 0 <= i < t[r1].len() && 0 <= j < t[r2].len()
            && (r1 != r2 || i != j) ==> (#[trigger] t[r1][i]).id@ != (#[trigger] t[r2][j]).id@
}

/// The list of room `r` in `t`; empty where `t` has none.
pub open spec fn map_lookup<T>(t: Map<Seq<char>, Seq<T>>, r: Seq<char>) -> Seq<T> {
    if t.contains_key(r) {
        t[r]
    } else {
        Seq::empty()
    }
}

/// The views of a sequence of members.
pub open spec fn member_views(s: Seq<Member>) -> Seq<MemberView> {
    s.map_values(|m: Member| m@)
}

/// The views of a sequence of spaces.
pub open spec fn space_views(s: Seq<Space>) -> Seq<SpaceView> {
    s.map_values(|s: Space| s@)
}

/// `after` holds the same user, spaces, rooms and member lists as `before`.
pub open spec fn keeps_directory(before: MockState, after: MockState) -> bool {
    &&& after.me == before.me
    &&& after.spaces == before.spaces
    &&& after.rooms == before.rooms
    &&& after.members == before.members
}

/// The in-memory backend.
pub struct MockBackend {
    state: MockState,
    counter: u64,
    outbox: Vec<CoreEvent>,
}

/// The two moves of the demonstration traffic, which alternate: show alice
/// typing, then deliver her message.
#[derive(Debug, Clone, Copy, PartialEq, Eq, Structural)]
pub enum DemoStep {
    AnnounceTyping,
    DeliverMessage,
}

impl DemoStep {
    /// The seconds to wait before taking the step.
    pub fn delay_secs(self) -> (secs: u64)
        ensures
            secs == match self {
                DemoStep::AnnounceTyping => 8u64,
                DemoStep::DeliverMessage => 2u64,
            },
    {
        match self {
            DemoStep::AnnounceTyping => 8,
            DemoStep::DeliverMessage => 2,
        }
    }
}

impl MockBackend {
    /// The data the backend holds.
    pub closed spec fn state(&self) -> MockState {
        self.state
    }

    /// The number the next identifier is made from.
    pub closed spec fn counter(&self) -> u64 {
        self.counter
    }

    /// The events emitted and not yet drained, oldest first.
    pub closed spec fn outbox(&self) -> Seq<CoreEvent> {
        self.outbox@
    }

    /// The backend's tables are well formed, at all times.
    #[verifier::type_invariant]
    spec fn tables_well_formed(self) -> bool {
        self.state.wf()
    }

    /// The messages of room `r`, oldest first; empty for a room without timeline.
    pub open spec fn timeline(&self, r: Seq<char>) -> Seq<Message> {
        self.state().timelines.lookup(r)
    }

    /// Every stored message has an identifier of its own, given out before the
    /// current counter value.
    pub open spec fn ids_fresh(&self) -> bool {
        ids_distinct(self.state().timelines@, self.counter())
    }

    /// A backend over the sample data, with its counter at 1000 and nothing to
    /// deliver.
    pub fn new() -> (b: Self)
        ensures
            is_sample_state(b.state()),
            spaces_consistent(b.state().spaces@, b.state().rooms@),
            b.counter() == 1000,
            b.outbox() == Seq::<CoreEvent>::empty(),
            b.ids_fresh(),
    {
        let b = MockBackend { state: build_sample(), counter: 1000, outbox: Vec::new() };
        proof {
            lemma_sample_ids_fresh(b.state);
        }
        b
    }

    /// Takes the next identifier with the given prefix.
    fn next_id(&mut self, prefix: &str) -> (id: String)
        ensures
            id@ == prefix@ + decimal(old(self).counter() as nat),
            final(self).counter() == next_counter(old(self).counter()),
            final(self).state() == old(self).state(),
            final(self).outbox() == old(self).outbox(),
    {
        proof {
            use_type_invariant(&*self);
        }
        let n = self.counter;
        self.counter = if n == u64::MAX {
            0
        } else {
            n + 1
        };
        prefixed_decimal(prefix, n)
    }

    /// A new sent plain-text message from `sender` in `room`, stamped with
    /// `timestamp` and with the next message identifier.
    fn make_message(&mut self, room: &RoomId, sender: &UserId, body: &str, timestamp: u64) -> (m:
        Message)
        ensures
            text_message_is(
                m,
                message_id_text(old(self).counter() as nat),
                room@,
                sender@,
                body@,
                timestamp,
                SenderTrust::Unverified,
            ),
            m.sender == *sender,
            final(self).counter() == next_counter(old(self).counter()),
            final(self).state() == old(self).state(),
            final(self).outbox() == old(self).outbox(),
    {
        let id = self.next_id("m");
        Message {
            id: MessageId(id),
            room: room.clone(),
            sender: sender.clone(),
            timestamp,
            content: MessageContent::Text { body: body.to_owned(), formatted: None },
            reactions: Vec::new(),
            reply_to: None,
            edited: false,
            send_state: SendState::Sent,
            sender_trust: SenderTrust::Unverified,
        }
    }

    /// Appends `m` to the timeline of `room` and emits its `Added` event.
    fn append_and_announce(&mut self, room: &RoomId, m: Message)
        ensures
            final(self).state() == (MockState { timelines: final(self).state().timelines, ..old(self).state() }),
            final(self).state().timelines@ == old(self).state().timelines@.insert(
                room@,
                old(self).timeline(room@).push(final(self).timeline(room@).last()),
            ),
            final(self).timeline(room@).last()@ == m@,
            final(self).counter() == old(self).counter(),
            final(self).outbox() == old(self).outbox().push(final(self).outbox().last()),
            final(self).outbox().last() matches CoreEvent::Timeline {
                room: r,
                change: TimelineChange::Added { message },
            } && r@ == room@ && message == m,
    {
        proof {
            use_type_invariant(&*self);
        }
        let stored = m.clone();
        let mut timelines: RoomTable<Message> = RoomTable::new();
        std::mem::swap(&mut timelines, &mut self.state.timelines);
        timelines.push_item(room.clone(), stored);
        self.state.timelines = timelines;
        let ghost t = self.state.timelines@;
        assert(t.contains_key(room@));
        self.queue(
            CoreEvent::Timeline { room: room.clone(), change: TimelineChange::Added { message: m } },
        );
    }

    /// Appends `event` to the outbox.
    fn queue(&mut self, event: CoreEvent)
        ensures
            final(self).outbox() == old(self).outbox().push(event),
            final(self).state() == old(self).state(),
            final(self).counter() == old(self).counter(),
    {
        proof {
            use_type_invariant(&*self);
        }
        let mut events: Vec<CoreEvent> = Vec::new();
        std::mem::swap(&mut events, &mut self.outbox);
        events.push(event);
        self.outbox = events;
    }

    // ---------- Session ----------

    /// Logs in: the sample user on the device `MOCKDEVICE`, whatever the request.
    pub fn login(&self, req: LoginRequest) -> (res: Result<SessionInfo, CoreError>)
        ensures
            res matches Ok(info) && info.user == self.state().me && info.device_id@
                == "MOCKDEVICE"@,
    {
        Ok(SessionInfo { user: self.state.me.clone(), device_id: DeviceId::new("MOCKDEVICE") })
    }

    /// Restores the session: always the sample user on the device `MOCKDEVICE`.
    pub fn restore_session(&self) -> (res: Result<Option<SessionInfo>, CoreError>)
        ensures
            res matches Ok(Some(info)) && info.user == self.state().me && info.device_id@
                == "MOCKDEVICE"@,
    {
        Ok(Some(SessionInfo { user: self.state.me.clone(), device_id: DeviceId::new("MOCKDEVICE") }))
    }

    /// Logs out; there is nothing to forget.
    pub fn logout(&self) -> (res: Result<(), CoreError>)
        ensures
            res is Ok,
    {
        Ok(())
    }

    // ---------- Spaces and rooms ----------

    /// Copies of all spaces, in order.
    pub fn list_spaces(&self) -> (res: Result<Vec<Space>, CoreError>)
        ensures
            res matches Ok(v) && space_views(v@) == space_views(self.state().spaces@),
    {
        let src = &self.state.spaces;
        let mut out: Vec<Space> = Vec::new();
        for i in 0..src.len()
            invariant
                out@.len() == i,
                forall|k: int| 0 <= k < i ==> (#[trigger] out@[k])@ == src@[k]@,
        {
            out.push(src[i].clone());
        }
        assert(space_views(out@) =~= space_views(src@));
        Ok(out)
    }

    /// Copies of all rooms, in order.
    pub fn list_rooms(&self) -> (res: Result<Vec<Room>, CoreError>)
        ensures
            res matches Ok(v) && v@ == self.state().rooms@,
    {
        let src = &self.state.rooms;
        let mut out: Vec<Room> = Vec::new();
        for i in 0..src.len()
            invariant
                out@ == src@.take(i as int),
        {
            out.push(src[i].clone());
            assert(out@ =~= src@.take(i + 1));
        }
        assert(src@.take(src.len() as int) =~= src@);
        Ok(out)
    }

    /// Copies of the members of `room`; none for a room without member list.
    pub fn get_members(&self, room: RoomId) -> (res: Result<Vec<Member>, CoreError>)
        ensures
            res matches Ok(v) && member_views(v@) == member_views(
                self.state().members.lookup(room@),
            ),
    {
        proof {
            use_type_invariant(self);
        }
        let mut out: Vec<Member> = Vec::new();
        match self.state.members.get(&room) {
            Some(src) => {
                for i in 0..src.len()
                    invariant
                        out@.len() == i,
                        forall|k: int| 0 <= k < i ==> (#[trigger] out@[k])@ == src@[k]@,
                {
                    out.push(src[i].clone());
                }
                assert(member_views(out@) =~= member_views(src@));
            },
            None => {
                assert(member_views(out@) =~= member_views(Seq::<Member>::empty()));
            },
        }
        Ok(out)
    }

    // ---------- Timeline ----------

    /// The latest `limit` messages of `room`, oldest first, and whether they reach
    /// back to its first message.
    pub fn load_timeline(&self, room: RoomId, limit: u32) -> (res: Result<TimelineChunk, CoreError>)
        ensures
            res matches Ok(chunk) && chunk@ == (TimelineChunkView {
                messages: message_views(latest(self.timeline(room@), limit as nat)),
                reached_start: window_start(self.timeline(room@).len(), limit as nat) == 0,
            }),
            res matches Ok(chunk) && chunk.reached_start == (self.timeline(room@).len() <= limit),
            res matches Ok(chunk) && chunk.messages@.len() == if self.timeline(room@).len() <= limit {
                self.timeline(room@).len()
            } else {
                limit as nat
            },
            res matches Ok(chunk) && forall|i: int|
                0 <= i < chunk.messages@.len() ==> (#[trigger] chunk.messages@[i])@ == self.timeline(
                    room@,
                )[self.timeline(room@).len() - chunk.messages@.len() + i]@,
    {
        proof {
            use_type_invariant(self);
            lemma_latest_window(self.timeline(room@), limit as nat);
        }
        match self.state.timelines.get(&room) {
            Some(all) => {
                let len = all.len();
                let start: usize = if len as u64 > limit as u64 {
                    len - limit as usize
                } else {
                    0
                };
                let messages = clone_message_range(all, start, len);
                proof {
                    let w = latest(self.timeline(room@), limit as nat);
                    assert(message_views(messages@).len() == messages@.len());
                    assert(message_views(w).len() == w.len());
                    assert forall|i: int| 0 <= i < messages@.len() implies (
                    #[trigger] messages@[i])@ == w[i]@ by {
                        assert(message_views(messages@)[i] == message_views(w)[i]);
                    }
                }
                Ok(TimelineChunk { messages, reached_start: start == 0 })
            },
            None => {
                let messages: Vec<Message> = Vec::new();
                assert(message_views(messages@) =~= message_views(
                    latest(self.timeline(room@), limit as nat),
                ));
                Ok(TimelineChunk { messages, reached_start: true })
            },
        }
    }

    /// Older history: the sample has none, so the start is always reached.
    pub fn load_older(&self, room: RoomId, before: MessageId, limit: u32) -> (res: Result<
        TimelineChunk,
        CoreError,
    >)
        ensures
            res matches Ok(chunk) && chunk.messages@.len() == 0 && chunk.reached_start,
    {
        Ok(TimelineChunk { messages: Vec::new(), reached_start: true })
    }

    /// Sends a message as the sample user, stamped with the time now: appends it
    /// to the timeline of `room`, queues its `Added` event and returns its new
    /// identifier.
    pub fn send_message(&mut self, room: RoomId, content: OutgoingContent) -> (res: Result<
        MessageId,
        CoreError,
    >)
        ensures
            keeps_directory(old(self).state(), final(self).state()),
            res matches Ok(id) && id@ == message_id_text(old(self).counter() as nat),
            final(self).counter() == next_counter(old(self).counter()),
            final(self).state() == (MockState { timelines: final(self).state().timelines, ..old(self).state() }),
            final(self).state().timelines@ == old(self).state().timelines@.insert(
                room@,
                old(self).timeline(room@).push(final(self).timeline(room@).last()),
            ),
            text_message_is(
                final(self).timeline(room@).last(),
                message_id_text(old(self).counter() as nat),
                room@,
                old(self).state().me.id@,
                outgoing_body(content),
                final(self).timeline(room@).last().timestamp,
                SenderTrust::Unverified,
            ),
            final(self).outbox() == old(self).outbox().push(final(self).outbox().last()),
            final(self).outbox().last() matches CoreEvent::Timeline {
                room: r,
                change: TimelineChange::Added { message },
            } && r@ == room@ && message@ == final(self).timeline(room@).last()@,
            old(self).ids_fresh() ==> forall|r: Seq<char>, i: int|
                old(self).state().timelines@.contains_key(r) && 0 <= i < old(
                    self,
                ).state().timelines@[r].len() ==> (#[trigger] old(self).state().timelines@[r][i]).id@
                    != message_id_text(old(self).counter() as nat),
            old(self).ids_fresh() && old(self).counter() < u64::MAX ==> final(self).ids_fresh(),
            content matches OutgoingContent::Text { body, .. } ==> final(self).timeline(
                room@,
            ).last().content matches MessageContent::Text { body: b, formatted: None } && b@
                == body@,
            content matches OutgoingContent::Media { caption: Some(c), .. } ==> final(self).timeline(
                room@,
            ).last().content matches MessageContent::Text { body: b, formatted: None } && b@ == c@,
            content matches OutgoingContent::Media { caption: None, .. } ==> final(self).timeline(
                room@,
            ).last().content matches MessageContent::Text { body: b, formatted: None } && b@
                == "[media]"@,
    {
        self.send_message_at(room, content, now_ms())
    }

    /// Sends a message as the sample user, stamped with `now`: appends it to the
    /// timeline of `room`, queues its `Added` event and returns its new
    /// identifier.
    pub fn send_message_at(&mut self, room: RoomId, content: OutgoingContent, now: u64) -> (res:
        Result<MessageId, CoreError>)
        ensures
            keeps_directory(old(self).state(), final(self).state()),
            res matches Ok(id) && id@ == message_id_text(old(self).counter() as nat),
            final(self).counter() == next_counter(old(self).counter()),
            final(self).state() == (MockState { timelines: final(self).state().timelines, ..old(self).state() }),
            final(self).state().timelines@ == old(self).state().timelines@.insert(
                room@,
                old(self).timeline(room@).push(final(self).timeline(room@).last()),
            ),
            text_message_is(
                final(self).timeline(room@).last(),
                message_id_text(old(self).counter() as nat),
                room@,
                old(self).state().me.id@,
                outgoing_body(content),
                final(self).timeline(room@).last().timestamp,
                SenderTrust::Unverified,
            ),
            final(self).outbox() == old(self).outbox().push(final(self).outbox().last()),
            final(self).outbox().last() matches CoreEvent::Timeline {
                room: r,
                change: TimelineChange::Added { message },
            } && r@ == room@ && message@ == final(self).timeline(room@).last()@,
            old(self).ids_fresh() ==> forall|r: Seq<char>, i: int|
                old(self).state().timelines@.contains_key(r) && 0 <= i < old(
                    self,
                ).state().timelines@[r].len() ==> (#[trigger] old(self).state().timelines@[r][i]).id@
                    != message_id_text(old(self).counter() as nat),
            old(self).ids_fresh() && old(self).counter() < u64::MAX ==> final(self).ids_fresh(),
            content matches OutgoingContent::Text { body, .. } ==> final(self).timeline(
                room@,
            ).last().content matches MessageContent::Text { body: b, formatted: None } && b@
                == body@,
            content matches OutgoingContent::Media { caption: Some(c), .. } ==> final(self).timeline(
                room@,
            ).last().content matches MessageContent::Text { body: b, formatted: None } && b@ == c@,
            content matches OutgoingContent::Media { caption: None, .. } ==> final(self).timeline(
                room@,
            ).last().content matches MessageContent::Text { body: b, formatted: None } && b@
                == "[media]"@,
            final(self).timeline(room@).last().timestamp == now,
    {
        let body = match content {
            OutgoingContent::Text { body, .. } => body,
            OutgoingContent::Media { caption, .. } => match caption {
                Some(c) => c,
                None => "[media]".to_owned(),
            },
        };
        let me_id = self.state.me.id.clone();
        let msg = self.make_message(&room, &me_id, body.as_str(), now);
        let id = msg.id.clone();
        let ghost c = old(self).counter();
        let ghost m = msg;
        self.append_and_announce(&room, msg);
        proof {
            let t = old(self).state().timelines@;
            lemma_fresh_id_is_new(t, c, m.id);
            if old(self).ids_fresh() && c < u64::MAX {
                lemma_push_keeps_ids_distinct(t, room@, self.timeline(room@).last(), c);
            }
        }
        Ok(id)
    }

    /// Editing is accepted and has no effect on the sample.
    pub fn edit_message(&self, room: RoomId, target: MessageId, content: OutgoingContent) -> (res:
        Result<(), CoreError>)
        ensures
            res is Ok,
    {
        Ok(())
    }

    /// Redacting is accepted and has no effect on the sample.
    pub fn redact_message(&self, room: RoomId, target: MessageId) -> (res: Result<(), CoreError>)
        ensures
            res is Ok,
    {
        Ok(())
    }

    /// Reacting is accepted and has no effect on the sample.
    pub fn toggle_reaction(&self, room: RoomId, target: MessageId, key: String) -> (res: Result<
        (),
        CoreError,
    >)
        ensures
            res is Ok,
    {
        Ok(())
    }

    /// Read markers are accepted and have no effect on the sample.
    pub fn mark_read(&self, room: RoomId, up_to: MessageId) -> (res: Result<(), CoreError>)
        ensures
            res is Ok,
    {
        Ok(())
    }

    /// Typing notices are accepted and have no effect on the sample.
    pub fn set_typing(&self, room: RoomId, typing: bool) -> (res: Result<(), CoreError>)
        ensures
            res is Ok,
    {
        Ok(())
    }

    // ---------- Media ----------

    /// Uploading stores nothing: it hands out a new media handle without
    /// thumbnail.
    pub fn upload_media(&mut self, path: String) -> (res: Result<MediaRef, CoreError>)
        ensures
            keeps_directory(old(self).state(), final(self).state()),
            res matches Ok(media) && media.id@ == "media"@ + decimal(old(self).counter() as nat)
                && media.thumbnail is None,
            final(self).counter() == next_counter(old(self).counter()),
            final(self).state() == old(self).state(),
            final(self).outbox() == old(self).outbox(),
            old(self).ids_fresh() && old(self).counter() < u64::MAX ==> final(self).ids_fresh(),
    {
        let id = self.next_id("media");
        proof {
            if old(self).ids_fresh() && old(self).counter() < u64::MAX {
                lemma_ids_distinct_raise(self.state.timelines@, old(self).counter(), self.counter);
            }
        }
        Ok(MediaRef { id, thumbnail: None })
    }

    // ---------- Device verification ----------

    /// Verification requests are accepted and have no effect on the sample.
    pub fn request_verification(&self, user: UserId) -> (res: Result<(), CoreError>)
        ensures
            res is Ok,
    {
        Ok(())
    }

    /// Emoji confirmations are accepted and have no effect on the sample.
    pub fn confirm_sas(&self, flow: String) -> (res: Result<(), CoreError>)
        ensures
            res is Ok,
    {
        Ok(())
    }

    /// Cancellations are accepted and have no effect on the sample.
    pub fn cancel_verification(&self, flow: String) -> (res: Result<(), CoreError>)
        ensures
            res is Ok,
    {
        Ok(())
    }

    // ---------- Events ----------

    /// Hands over the queued events, oldest first, and empties the queue.
    pub fn drain_events(&mut self) -> (events: Vec<CoreEvent>)
        ensures
            keeps_directory(old(self).state(), final(self).state()),
            events@ == old(self).outbox(),
            final(self).outbox() == Seq::<CoreEvent>::empty(),
            final(self).state() == old(self).state(),
            final(self).counter() == old(self).counter(),
    {
        proof {
            use_type_invariant(&*self);
        }
        let mut events: Vec<CoreEvent> = Vec::new();
        std::mem::swap(&mut events, &mut self.outbox);
        events
    }

    // ---------- Demonstration traffic ----------

    /// The room the demonstration traffic goes to: the first room, if any.
    pub fn demo_room(&self) -> (room: Option<RoomId>)
        ensures
            match room {
                Some(r) => self.state().rooms@.len() > 0 && r == self.state().rooms@[0].id,
                None => self.state().rooms@.len() == 0,
            },
    {
        if self.state.rooms.len() == 0 {
            None
        } else {
            Some(self.state.rooms[0].id.clone())
        }
    }

    /// Takes one step of the demonstration traffic in `room`, at the time now, and
    /// returns the next one. Announcing queues a `Typing` event with alice alone;
    /// delivering appends a message from alice to the timeline, then queues a
    /// `Typing` event with nobody and the message's `Added` event.
    pub fn demo_step(&mut self, room: &RoomId, step: DemoStep) -> (next: DemoStep)
        ensures
            keeps_directory(old(self).state(), final(self).state()),
            next == match step {
                DemoStep::AnnounceTyping => DemoStep::DeliverMessage,
                DemoStep::DeliverMessage => DemoStep::AnnounceTyping,
            },
            step == DemoStep::AnnounceTyping ==> {
                &&& final(self).state() == old(self).state()
                &&& final(self).counter() == old(self).counter()
                &&& final(self).outbox() == old(self).outbox().push(final(self).outbox().last())
                &&& final(self).outbox().last() matches CoreEvent::Typing { room: r, users }
                    && r@ == room@ && users@.len() == 1 && users@[0]@ == alice_id()
            },
            step == DemoStep::DeliverMessage ==> {
                let n = old(self).outbox().len();
                let last = final(self).timeline(room@).last();
                &&& final(self).counter() == next_counter(old(self).counter())
                &&& final(self).state() == (MockState { timelines: final(self).state().timelines, ..old(self).state() })
                &&& final(self).state().timelines@ == old(self).state().timelines@.insert(
                    room@,
                    old(self).timeline(room@).push(last),
                )
                &&& text_message_is(
                    last,
                    message_id_text(old(self).counter() as nat),
                    room@,
                    alice_id(),
                    "ping from the mock backend"@,
                    last.timestamp,
                    SenderTrust::Unverified,
                )
                &&& final(self).outbox().len() == n + 2
                &&& final(self).outbox().take(n as int) == old(self).outbox()
                &&& final(self).outbox()[n as int] matches CoreEvent::Typing { room: r, users }
                    && r@ == room@ && users@.len() == 0
                &&& final(self).outbox()[n as int + 1] matches CoreEvent::Timeline {
                    room: r,
                    change: TimelineChange::Added { message },
                } && r@ == room@ && message@ == last@
                &&& old(self).ids_fresh() && old(self).counter() < u64::MAX ==> final(self).ids_fresh()
            },
    {
        self.demo_step_at(room, step, now_ms())
    }

    /// Takes one step of the demonstration traffic in `room` at the time `now`,
    /// and returns the next one, as `demo_step` does; a delivered message is
    /// stamped with `now`.
    pub fn demo_step_at(&mut self, room: &RoomId, step: DemoStep, now: u64) -> (next: DemoStep)
        ensures
            keeps_directory(old(self).state(), final(self).state()),
            next == match step {
                DemoStep::AnnounceTyping => DemoStep::DeliverMessage,
                DemoStep::DeliverMessage => DemoStep::AnnounceTyping,
            },
            step == DemoStep::AnnounceTyping ==> {
                &&& final(self).state() == old(self).state()
                &&& final(self).counter() == old(self).counter()
                &&& final(self).outbox() == old(self).outbox().push(final(self).outbox().last())
                &&& final(self).outbox().last() matches CoreEvent::Typing { room: r, users }
                    && r@ == room@ && users@.len() == 1 && users@[0]@ == alice_id()
            },
            step == DemoStep::DeliverMessage ==> {
                let n = old(self).outbox().len();
                let last = final(self).timeline(room@).last();
                &&& final(self).counter() == next_counter(old(self).counter())
                &&& final(self).state() == (MockState { timelines: final(self).state().timelines, ..old(self).state() })
                &&& final(self).state().timelines@ == old(self).state().timelines@.insert(
                    room@,
                    old(self).timeline(room@).push(last),
                )
                &&& text_message_is(
                    last,
                    message_id_text(old(self).counter() as nat),
                    room@,
                    alice_id(),
                    "ping from the mock backend"@,
                    now,
                    SenderTrust::Unverified,
                )
                &&& final(self).outbox().len() == n + 2
                &&& final(self).outbox().take(n as int) == old(self).outbox()
                &&& final(self).outbox()[n as int] matches CoreEvent::Typing { room: r, users }
                    && r@ == room@ && users@.len() == 0
                &&& final(self).outbox()[n as int + 1] matches CoreEvent::Timeline {
                    room: r,
                    change: TimelineChange::Added { message },
                } && r@ == room@ && message@ == last@
                &&& old(self).ids_fresh() && old(self).counter() < u64::MAX ==> final(self).ids_fresh()
            },
    {
        let alice = UserId::new("@alice:vauxl.local");
        match step {
            DemoStep::AnnounceTyping => {
                let mut users: Vec<UserId> = Vec::new();
                users.push(alice);
                self.queue(CoreEvent::Typing { room: room.clone(), users });
                DemoStep::DeliverMessage
            },
            DemoStep::DeliverMessage => {
                let msg = self.make_message(room, &alice, "ping from the mock backend", now);
                let ghost c = old(self).counter();
                let ghost n = old(self).outbox().len();
                self.queue(CoreEvent::Typing { room: room.clone(), users: Vec::new() });
                let ghost mid = self.outbox@;
                self.append_and_announce(room, msg);
                proof {
                    assert(self.outbox@.take(n as int) =~= old(self).outbox());
                    assert(self.outbox@[n as int] == mid[n as int]);
                    if old(self).ids_fresh() && c < u64::MAX {
                        lemma_push_keeps_ids_distinct(
                            old(self).state().timelines@,
                            room@,
                            self.timeline(room@).last(),
                            c,
                        );
                    }
                }
                DemoStep::AnnounceTyping
            },
        }
    }
}

impl Default for MockBackend {
    fn default() -> (b: Self)
        ensures
            is_sample_state(b.state()),
            spaces_consistent(b.state().spaces@, b.state().rooms@),
            b.counter() == 1000,
            b.outbox() == Seq::<CoreEvent>::empty(),
            b.ids_fresh(),
    {
        MockBackend::new()
    }
}

// ---------- What stays the same ----------

/// No operation changes who you are, the spaces, the rooms or the member lists:
/// across a run of states in which each keeps them from the one before, the last
/// holds the same as the first, and a run that starts from the sample still
/// lists the sample's spaces and rooms.
pub proof fn lemma_directory_kept_across_calls(states: Seq<MockState>)
    requires
        states.len() >= 1,
        forall|i: int|
            0 <= i < states.len() - 1 ==> keeps_directory(#[trigger] states[i], states[i + 1]),
    ensures
        keeps_directory(states[0], states.last()),
        is_sample_state(states[0]) ==> sample_rooms(states.last().rooms@) && sample_spaces(
            states.last().spaces@,
        ),
    decreases states.len(),
{
    if states.len() > 1 {
        let prefix = states.drop_last();
        assert forall|i: int| 0 <= i < prefix.len() - 1 implies keeps_directory(
            #[trigger] prefix[i],
            prefix[i + 1],
        ) by {
            assert(prefix[i] == states[i] && prefix[i + 1] == states[i + 1]);
        }
        lemma_directory_kept_across_calls(prefix);
        assert(keeps_directory(states[states.len() - 2], states[states.len() - 1]));
    }
    if is_sample_state(states[0]) {
        reveal(is_sample_state);
    }
}

/// Backends fresh from `new` or from `default` agree in all they hold: the
/// sample state, the counter and the empty outbox.
pub proof fn lemma_fresh_backends_agree(a: MockBackend, b: MockBackend)
    requires
        is_sample_state(a.state()),
        a.counter() == 1000,
        a.outbox() == Seq::<CoreEvent>::empty(),
        is_sample_state(b.state()),
        b.counter() == 1000,
        b.outbox() == Seq::<CoreEvent>::empty(),
    ensures
        same_state(a.state(), b.state()),
        a.counter() == b.counter(),
        a.outbox() == b.outbox(),
{
    lemma_samples_agree(a.state(), b.state());
}

// ---------- Identifiers stay unique ----------

/// The identifier made from the counter differs from every identifier given out
/// below it.
pub proof fn lemma_fresh_id_is_new(t: Map<Seq<char>, Seq<Message>>, c: u64, id: MessageId)
    requires
        id@ == message_id_text(c as nat),
    ensures
        ids_distinct(t, c) ==> forall|r: Seq<char>, i: int|
            t.contains_key(r) && 0 <= i < t[r].len() ==> (#[trigger] t[r][i]).id@ != id@,
{
    if ids_distinct(t, c) {
        assert forall|r: Seq<char>, i: int| t.contains_key(r) && 0 <= i < t[r].len() implies (
        #[trigger] t[r][i]).id@ != id@ by {
            assert(issued_below(t[r][i].id, c));
            let k = choose|k: nat| k < c && t[r][i].id@ == message_id_text(k);
            if t[r][i].id@ == id@ {
                lemma_prefixed_decimal_injective("m"@, k, c as nat);
            }
        }
    }
}

/// Raising the bound keeps identifiers issued below it.
proof fn lemma_ids_distinct_raise(t: Map<Seq<char>, Seq<Message>>, c: u64, d: u64)
    requires
        ids_distinct(t, c),
        c <= d,
    ensures
        ids_distinct(t, d),
{
    assert forall|r: Seq<char>, i: int| t.contains_key(r) && 0 <= i < t[r].len() implies issued_below(
        #[trigger] t[r][i].id,
        d,
    ) by {
        assert(issued_below(t[r][i].id, c));
    }
}

/// Appending a message whose identifier is made from the counter `c` to the
/// timeline of `room` keeps every identifier unique, below `c + 1`.
pub proof fn lemma_push_keeps_ids_distinct(
    t: Map<Seq<char>, Seq<Message>>,
    room: Seq<char>,
    m: Message,
    c: u64,
)
    requires
        ids_distinct(t, c),
        c < u64::MAX,
        m.id@ == message_id_text(c as nat),
    ensures
        ids_distinct(t.insert(room, map_lookup(t, room).push(m)), (c + 1) as u64),
{
    let t2 = t.insert(room, map_lookup(t, room).push(m));
    let c2 = (c + 1) as u64;
    lemma_fresh_id_is_new(t, c, m.id);
    // Each message of t2 is either an old one or m.
    assert forall|r: Seq<char>, i: int| t2.contains_key(r) && 0 <= i < t2[r].len() implies (r == room
        && i == t2[r].len() - 1 && #[trigger] t2[r][i] == m) || (t.contains_key(r) && 0 <= i
        < t[r].len() && t2[r][i] == t[r][i]) by {
        if r == room {
            if i < t2[r].len() - 1 {
                assert(t.contains_key(r));
            }
        }
    }
    assert forall|r: Seq<char>, i: int| t2.contains_key(r) && 0 <= i < t2[r].len() implies issued_below(
        #[trigger] t2[r][i].id,
        c2,
    ) by {
        if r == room && i == t2[r].len() - 1 {
            assert(c < c2 && t2[r][i].id@ == message_id_text(c as nat));
        } else {
            assert(t2[r][i] == t[r][i]);
            assert(issued_below(t[r][i].id, c));
        }
    }
    assert forall|r1: Seq<char>, i: int, r2: Seq<char>, j: int|
        t2.contains_key(r1) && t2.contains_key(r2) && 0 <= i < t2[r1].len() && 0 <= j < t2[r2].len()
            && (r1 != r2 || i != j) implies (#[trigger] t2[r1][i]).id@ != (#[trigger] t2[r2][j]).id@ by {
        let new1 = r1 == room && i == t2[r1].len() - 1;
        let new2 = r2 == room && j == t2[r2].len() - 1;
        if new1 && new2 {
        } else if new1 {
            assert(t2[r2][j] == t[r2][j]);
            assert(t[r2][j].id@ != m.id@);
        } else if new2 {
            assert(t2[r1][i] == t[r1][i]);
            assert(t[r1][i].id@ != m.id@);
        } else {
            assert(t2[r1][i] == t[r1][i]);
            assert(t2[r2][j] == t[r2][j]);
        }
    }
}

/// The sample timeline's identifiers, `m1` to `m3`, are unique and below 1000.
proof fn lemma_sample_ids_fresh(s: MockState)
    requires
        is_sample_state(s),
    ensures
        ids_distinct(s.timelines@, 1000),
{
    reveal(is_sample_state);
    let t = s.timelines@;
    assert forall|r: Seq<char>, i: int| t.contains_key(r) && 0 <= i < t[r].len() implies issued_below(
        #[trigger] t[r][i].id,
        1000,
    ) by {
        assert(r == crate::sample::general_id());
        assert(t[r][i].id@ == message_id_text((i + 1) as nat));
    }
    assert forall|r1: Seq<char>, i: int, r2: Seq<char>, j: int|
        t.contains_key(r1) && t.contains_key(r2) && 0 <= i < t[r1].len() && 0 <= j < t[r2].len() && (
        r1 != r2 || i != j) implies (#[trigger] t[r1][i]).id@ != (#[trigger] t[r2][j]).id@ by {
        assert(r1 == crate::sample::general_id() && r2 == crate::sample::general_id());
        assert(t[r1][i].id@ == message_id_text((i + 1) as nat));
        assert(t[r2][j].id@ == message_id_text((j + 1) as nat));
        if t[r1][i].id@ == t[r2][j].id@ {
            lemma_prefixed_decimal_injective("m"@, (i + 1) as nat, (j + 1) as nat);
        }
    }
}

// ---------- The text of a sent message ----------

/// A plain-text message is sent with its body as its text, whatever formatting
/// or reply it carries; media are sent with their caption, or `[media]` where
/// they have none.
pub proof fn lemma_sent_text(
    body: String,
    formatted: Option<String>,
    reply_to: Option<MessageId>,
    upload: MediaRef,
    caption: Option<String>,
)
    ensures
        outgoing_body(OutgoingContent::Text { body, formatted, reply_to }) == body@,
        outgoing_body(OutgoingContent::Media { upload, caption }) == match caption {
            Some(c) => c@,
            None => "[media]"@,
        },
{
}

// ---------- Windows of a timeline ----------

/// A window of at most `limit` messages reaches the first message exactly when
/// the timeline holds no more than `limit`; it holds `min(len, limit)` messages,
/// the last ones of the timeline, in order.
pub proof fn lemma_latest_window(t: Seq<Message>, limit: nat)
    ensures
        (window_start(t.len(), limit) == 0) <==> t.len() <= limit,
        latest(t, limit).len() == if t.len() <= limit {
            t.len()
        } else {
            limit
        },
        forall|i: int|
            0 <= i < latest(t, limit).len() ==> #[trigger] latest(t, limit)[i] == t[t.len()
                - latest(t, limit).len() + i],
        t.len() <= limit ==> latest(t, limit) == t,
{
    if t.len() <= limit {
        assert(latest(t, limit) =~= t);
    }
}

// ---------- What a read gives back of a write ----------

/// After a message is appended to a timeline, a load of at least one message
/// ends with it, returns `min(limit, length)` messages, and is preceded by what
/// the same load returned before, shifted by one.
pub proof fn lemma_load_after_send(t: Seq<Message>, m: Message, limit: nat)
    requires
        limit >= 1,
    ensures
        latest(t.push(m), limit).last() == m,
        latest(t.push(m), limit).len() == if t.len() + 1 > limit {
            limit
        } else {
            t.len() + 1
        },
        latest(t.push(m), limit).drop_last() == latest(t, (limit - 1) as nat),
{
    let w = latest(t.push(m), limit);
    assert(w.drop_last() =~= latest(t, (limit - 1) as nat));
}

} // verus!
