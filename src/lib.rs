//! Typed data model for a federated social-networking API: typed resource
//! identifiers, tolerant wire conversions, closed enumerations and validated
//! request payload builders.

pub mod account;
pub mod convert;
pub mod entities;
pub mod error;
pub mod ids;
pub mod json;
pub mod timestamp;

pub use account::{AccountAction, AccountActionRequest, AccountActionRequestBuilder};
pub use convert::{
    decimal_string, optional_member, parse_decimal, tolerant_text, tolerant_u64, vec_or_empty,
    Member, Scalar,
};
pub use entities::{Application, Emoji, Empty, Mention, Tag, TagHistory};
pub use error::{BuildError, DecodeError};
pub use ids::{
    Id,
    AccountId,
    AccountKind,
    StatusId,
    StatusKind,
    ReportId,
    ReportKind,
    WarningPresetId,
    WarningPresetKind,
    FilterId,
    FilterKind,
    ListId,
    ListKind,
    NotificationId,
    NotificationKind,
    AttachmentId,
    AttachmentKind,
    PushSubscriptionId,
    PushSubscriptionKind,
    CustomEmojiId,
    CustomEmojiKind,
    AnnouncementId,
    AnnouncementKind,
    ConversationId,
    ConversationKind,
    MarkerTimelineId,
    MarkerTimelineKind,
};
pub use timestamp::{days_in_month, decode_timestamp, encode_timestamp, Timestamp};
