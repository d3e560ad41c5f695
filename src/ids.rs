//! Identifiers that carry the kind of resource they name.
//!
//! Every identifier is an opaque string on the wire. The kind is a type
//! parameter, so an account identifier can never stand where a report
//! identifier is expected, even when both hold the same text.

use crate::convert::{decimal, scalar_text, Scalar};
use core::marker::PhantomData;
use vstd::std_specs::cmp::PartialEqSpec;
use vstd::prelude::*;

verus! {

/// An identifier of a resource of kind `K`.
#[derive(Debug, Hash)]
pub struct Id<K> {
    value: String,
    kind: PhantomData<K>,
}

/// Marker for account identifiers.
#[derive(Debug, Clone, Copy, PartialEq, Eq, Hash)]
pub struct AccountKind;

/// Marker for status identifiers.
#[derive(Debug, Clone, Copy, PartialEq, Eq, Hash)]
pub struct StatusKind;

/// Marker for report identifiers.
#[derive(Debug, Clone, Copy, PartialEq, Eq, Hash)]
pub struct ReportKind;

/// Marker for moderation warning preset identifiers.
#[derive(Debug, Clone, Copy, PartialEq, Eq, Hash)]
pub struct WarningPresetKind;

/// Marker for filter identifiers.
#[derive(Debug, Clone, Copy, PartialEq, Eq, Hash)]
pub struct FilterKind;

/// Marker for list identifiers.
#[derive(Debug, Clone, Copy, PartialEq, Eq, Hash)]
pub struct ListKind;

/// Marker for notification identifiers.
#[derive(Debug, Clone, Copy, PartialEq, Eq, Hash)]
pub struct NotificationKind;

/// Marker for media attachment identifiers.
#[derive(Debug, Clone, Copy, PartialEq, Eq, Hash)]
pub struct AttachmentKind;

/// Marker for push subscription identifiers.
#[derive(Debug, Clone, Copy, PartialEq, Eq, Hash)]
pub struct PushSubscriptionKind;

/// Marker for custom emoji identifiers.
#[derive(Debug, Clone, Copy, PartialEq, Eq, Hash)]
pub struct CustomEmojiKind;

/// Marker for announcement identifiers.
#[derive(Debug, Clone, Copy, PartialEq, Eq, Hash)]
pub struct AnnouncementKind;

/// Marker for conversation identifiers.
#[derive(Debug, Clone, Copy, PartialEq, Eq, Hash)]
pub struct ConversationKind;

/// Marker for timeline read marker identifiers.
#[derive(Debug, Clone, Copy, PartialEq, Eq, Hash)]
pub struct MarkerTimelineKind;

/// Identifier of an account.
pub type AccountId = Id<AccountKind>;

/// Identifier of a status.
pub type StatusId = Id<StatusKind>;

/// Identifier of a report.
pub type ReportId = Id<ReportKind>;

/// Identifier of a moderation warning preset.
pub type WarningPresetId = Id<WarningPresetKind>;

/// Identifier of a filter.
pub type FilterId = Id<FilterKind>;

/// Identifier of a list.
pub type ListId = Id<ListKind>;

/// Identifier of a notification.
pub type NotificationId = Id<NotificationKind>;

/// Identifier of a media attachment.
pub type AttachmentId = Id<AttachmentKind>;

/// Identifier of a push subscription.
pub type PushSubscriptionId = Id<PushSubscriptionKind>;

/// Identifier of a custom emoji.
pub type CustomEmojiId = Id<CustomEmojiKind>;

/// Identifier of an announcement.
pub type AnnouncementId = Id<AnnouncementKind>;

/// Identifier of a conversation.
pub type ConversationId = Id<ConversationKind>;

/// Identifier of a timeline read marker.
pub type MarkerTimelineId = Id<MarkerTimelineKind>;

impl<K> View for Id<K> {
    type V = Seq<char>;

    closed spec fn view(&self) -> Seq<char> {
        self.value@
    }
}

impl<K> Id<K> {
    /// Makes an identifier of kind `K` from its raw text.
    pub fn new(raw: &str) -> (r: Self)
        ensures
            r@ == raw@,
    {
        Id { value: String::from_str(raw), kind: PhantomData }
    }

    /// Makes an identifier of kind `K` that takes ownership of its raw text.
    pub fn from_string(raw: String) -> (r: Self)
        ensures
            r@ == raw@,
    {
        Id { value: raw, kind: PhantomData }
    }

    /// Decodes an identifier sent as a JSON string or, by some servers, as a
    /// JSON number; a number stands for its decimal text.
    pub fn from_scalar(w: &Scalar) -> (r: Self)
        ensures
            r@ == scalar_text(*w),
    {
        Id { value: crate::convert::tolerant_text(w), kind: PhantomData }
    }

    /// Encodes the identifier: always a JSON string.
    pub fn to_scalar(&self) -> (r: Scalar)
        ensures
            r is Text,
            scalar_text(r) == self@,
    {
        Scalar::Text(self.value.clone())
    }

    /// The raw text of the identifier.
    pub fn as_str(&self) -> (r: &str)
        ensures
            r@ == self@,
    {
        self.value.as_str()
    }
}

/// Encoding an identifier and decoding the result gives back an identifier
/// with the same text, hence an equal identifier.
pub proof fn lemma_id_round_trip<K>(id: Id<K>, w: Scalar)
    requires
        w is Text,
        scalar_text(w) == id@,
    ensures
        forall|back: Id<K>| back@ == scalar_text(w) ==> back.eq_spec(&id),
{
}

/// An identifier decodes to the same value whether it was sent as decimal
/// text or as a JSON number.
pub proof fn lemma_id_tolerant(n: u64, as_text: Scalar, as_number: Scalar)
    requires
        as_text is Text,
        scalar_text(as_text) == decimal(n as nat),
        as_number == Scalar::Number(n),
    ensures
        scalar_text(as_text) == scalar_text(as_number),
{
}

impl<K> Clone for Id<K> {
    fn clone(&self) -> (r: Self)
        ensures
            r@ == self@,
    {
        Id { value: self.value.clone(), kind: PhantomData }
    }
}

impl<K> PartialEq for Id<K> {
    fn eq(&self, other: &Self) -> (r: bool) {
        self.value == other.value
    }
}

impl<K> vstd::std_specs::cmp::PartialEqSpecImpl for Id<K> {
    open spec fn obeys_eq_spec() -> bool {
        true
    }

    open spec fn eq_spec(&self, other: &Self) -> bool {
        self@ == other@
    }
}

impl<K> Eq for Id<K> {

}

} // verus!
