//! The protocol-agnostic chat contract of the Vauxl client and the in-memory
//! backend that serves it canned data.

pub mod clock;
pub mod decimal;
pub mod error;
pub mod event;
pub mod ids;
pub mod mock;
pub mod model;
pub mod sample;
pub mod table;

pub use error::CoreError;
pub use event::{
    CoreEvent, CoreEventView, SasEmoji, SyncState, TimelineChange, TimelineChangeView,
    VerificationUpdate, VerificationUpdateView,
};
pub use ids::{DeviceId, MessageId, RoomId, SpaceId, UserId};
pub use model::{
    EncryptionState, LoginRequest, MediaRef, Member, MemberView, Membership, Message, MessageContent,
    MessagePreview, MessageView, OutgoingContent, Presence, Reaction, Room, RoomKind, SafeHtml,
    SendState, SenderTrust, SessionInfo, SessionState, Space, SpaceView, TimelineChunk,
    TimelineChunkView, UnreadInfo, User,
};
pub use mock::{DemoStep, MockBackend};
pub use sample::{build_sample, MockState};
pub use clock::now_ms;
