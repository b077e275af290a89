//! Reactive updates pushed from the core to the interface.

use crate::ids::{MessageId, RoomId, UserId};
use crate::model::{Message, MessageView, Room, SessionState, Space, SpaceView, User};
use vstd::prelude::*;

verus! {

#[derive(Debug)]
pub enum SyncState {
    Offline,
    Connecting,
    Syncing,
    Live,
    Error { message: String },
}

impl Clone for SyncState {
    fn clone(&self) -> (res: Self)
        ensures
            res == *self,
    {
        match self {
            SyncState::Offline => SyncState::Offline,
            SyncState::Connecting => SyncState::Connecting,
            SyncState::Syncing => SyncState::Syncing,
            SyncState::Live => SyncState::Live,
            SyncState::Error { message } => SyncState::Error { message: message.clone() },
        }
    }
}

#[derive(Debug)]
pub enum TimelineChange {
    Added { message: Message },
    Updated { message: Message },
    Removed { id: MessageId },
}

/// A timeline change as the specifications see it: messages by their views.
pub enum TimelineChangeView {
    Added { message: MessageView },
    Updated { message: MessageView },
    Removed { id: MessageId },
}

impl View for TimelineChange {
    type V = TimelineChangeView;

    open spec fn view(&self) -> TimelineChangeView {
        match self {
            TimelineChange::Added { message } => TimelineChangeView::Added { message: message@ },
            TimelineChange::Updated { message } => TimelineChangeView::Updated { message: message@ },
            TimelineChange::Removed { id } => TimelineChangeView::Removed { id: *id },
        }
    }
}

impl Clone for TimelineChange {
    fn clone(&self) -> (res: Self)
        ensures
            res@ == self@,
    {
        match self {
            TimelineChange::Added { message } => TimelineChange::Added { message: message.clone() },
            TimelineChange::Updated { message } => TimelineChange::Updated {
                message: message.clone(),
            },
            TimelineChange::Removed { id } => TimelineChange::Removed { id: id.clone() },
        }
    }
}

#[derive(Debug)]
pub struct SasEmoji {
    pub symbol: String,
    pub name: String,
}

impl Clone for SasEmoji {
    fn clone(&self) -> (res: Self)
        ensures
            res == *self,
    {
        SasEmoji { symbol: self.symbol.clone(), name: self.name.clone() }
    }
}

#[derive(Debug)]
pub enum VerificationUpdate {
    Requested { from: UserId, flow: String },
    ShowSas { flow: String, emoji: Vec<SasEmoji> },
    Done { flow: String },
    Cancelled { flow: String, reason: String },
}

/// A verification update as the specifications see it: the emoji as a sequence.
pub enum VerificationUpdateView {
    Requested { from: UserId, flow: String },
    ShowSas { flow: String, emoji: Seq<SasEmoji> },
    Done { flow: String },
    Cancelled { flow: String, reason: String },
}

impl View for VerificationUpdate {
    type V = VerificationUpdateView;

    open spec fn view(&self) -> VerificationUpdateView {
        match self {
            VerificationUpdate::Requested { from, flow } => VerificationUpdateView::Requested {
                from: *from,
                flow: *flow,
            },
            VerificationUpdate::ShowSas { flow, emoji } => VerificationUpdateView::ShowSas {
                flow: *flow,
                emoji: emoji@,
            },
            VerificationUpdate::Done { flow } => VerificationUpdateView::Done { flow: *flow },
            VerificationUpdate::Cancelled { flow, reason } => VerificationUpdateView::Cancelled {
                flow: *flow,
                reason: *reason,
            },
        }
    }
}

impl Clone for VerificationUpdate {
    fn clone(&self) -> (res: Self)
        ensures
            res@ == self@,
    {
        match self {
            VerificationUpdate::Requested { from, flow } => VerificationUpdate::Requested {
                from: from.clone(),
                flow: flow.clone(),
            },
            VerificationUpdate::ShowSas { flow, emoji } => VerificationUpdate::ShowSas {
                flow: flow.clone(),
                emoji: clone_emoji(emoji),
            },
            VerificationUpdate::Done { flow } => VerificationUpdate::Done { flow: flow.clone() },
            VerificationUpdate::Cancelled { flow, reason } => VerificationUpdate::Cancelled {
                flow: flow.clone(),
                reason: reason.clone(),
            },
        }
    }
}

/// Reactive updates pushed from the core to the interface, which reflects each
/// of them.
#[derive(Debug)]
pub enum CoreEvent {
    Session { state: SessionState },
    Sync { state: SyncState },
    RoomUpserted { room: Room },
    RoomRemoved { room: RoomId },
    SpaceUpserted { space: Space },
    Timeline { room: RoomId, change: TimelineChange },
    Typing { room: RoomId, users: Vec<UserId> },
    Receipt { room: RoomId, user: UserId, up_to: MessageId },
    Presence { user: User },
    Verification { update: VerificationUpdate },
}

/// An event as the specifications see it: vectors as sequences, messages and
/// spaces by their views.
pub enum CoreEventView {
    Session { state: SessionState },
    Sync { state: SyncState },
    RoomUpserted { room: Room },
    RoomRemoved { room: RoomId },
    SpaceUpserted { space: SpaceView },
    Timeline { room: RoomId, change: TimelineChangeView },
    Typing { room: RoomId, users: Seq<UserId> },
    Receipt { room: RoomId, user: UserId, up_to: MessageId },
    Presence { user: User },
    Verification { update: VerificationUpdateView },
}

impl View for CoreEvent {
    type V = CoreEventView;

    open spec fn view(&self) -> CoreEventView {
        match self {
            CoreEvent::Session { state } => CoreEventView::Session { state: *state },
            CoreEvent::Sync { state } => CoreEventView::Sync { state: *state },
            CoreEvent::RoomUpserted { room } => CoreEventView::RoomUpserted { room: *room },
            CoreEvent::RoomRemoved { room } => CoreEventView::RoomRemoved { room: *room },
            CoreEvent::SpaceUpserted { space } => CoreEventView::SpaceUpserted { space: space@ },
            CoreEvent::Timeline { room, change } => CoreEventView::Timeline {
                room: *room,
                change: change@,
            },
            CoreEvent::Typing { room, users } => CoreEventView::Typing { room: *room, users: users@ },
            CoreEvent::Receipt { room, user, up_to } => CoreEventView::Receipt {
                room: *room,
                user: *user,
                up_to: *up_to,
            },
            CoreEvent::Presence { user } => CoreEventView::Presence { user: *user },
            CoreEvent::Verification { update } => CoreEventView::Verification { update: update@ },
        }
    }
}

impl Clone for CoreEvent {
    fn clone(&self) -> (res: Self)
        ensures
            res@ == self@,
    {
        match self {
            CoreEvent::Session { state } => CoreEvent::Session { state: state.clone() },
            CoreEvent::Sync { state } => CoreEvent::Sync { state: state.clone() },
            CoreEvent::RoomUpserted { room } => CoreEvent::RoomUpserted { room: room.clone() },
            CoreEvent::RoomRemoved { room } => CoreEvent::RoomRemoved { room: room.clone() },
            CoreEvent::SpaceUpserted { space } => CoreEvent::SpaceUpserted { space: space.clone() },
            CoreEvent::Timeline { room, change } => CoreEvent::Timeline {
                room: room.clone(),
                change: change.clone(),
            },
            CoreEvent::Typing { room, users } => CoreEvent::Typing {
                room: room.clone(),
                users: clone_user_ids(users),
            },
            CoreEvent::Receipt { room, user, up_to } => CoreEvent::Receipt {
                room: room.clone(),
                user: user.clone(),
                up_to: up_to.clone(),
            },
            CoreEvent::Presence { user } => CoreEvent::Presence { user: user.clone() },
            CoreEvent::Verification { update } => CoreEvent::Verification {
                update: update.clone(),
            },
        }
    }
}

fn clone_user_ids(v: &Vec<UserId>) -> (res: Vec<UserId>)
    ensures
        res@ == v@,
{
    let mut res: Vec<UserId> = Vec::new();
    for i in 0..v.len()
        invariant
            res@ == v@.take(i as int),
    {
        res.push(v[i].clone());
        assert(res@ =~= v@.take(i + 1));
    }
    assert(v@.take(v.len() as int) =~= v@);
    res
}

fn clone_emoji(v: &Vec<SasEmoji>) -> (res: Vec<SasEmoji>)
    ensures
        res@ == v@,
{
    let mut res: Vec<SasEmoji> = Vec::new();
    for i in 0..v.len()
        invariant
            res@ == v@.take(i as int),
    {
        res.push(v[i].clone());
        assert(res@ =~= v@.take(i + 1));
    }
    assert(v@.take(v.len() as int) =~= v@);
    res
}

} // verus!
