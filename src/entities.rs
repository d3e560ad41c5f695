//! Resources that the API returns: mentions, custom emoji, hashtags,
//! applications and an empty object.

use crate::convert::{scalar_text, tolerant_text, vec_or_empty, Scalar};
use vstd::prelude::*;

verus! {

/// An empty JSON object.
#[derive(Debug, Clone, Copy, PartialEq, Eq, Structural)]
pub struct Empty {}

/// A mention of another user.
#[derive(Debug, Clone, PartialEq, Eq)]
pub struct Mention {
    /// URL of user's profile (can be remote).
    pub url: String,
    /// The username of the account.
    pub username: String,
    /// Equals `username` for local users, includes `@domain` for remote ones.
    pub acct: String,
    /// Account ID.
    pub id: String,
}

/// Struct representing an emoji within text.
#[derive(Debug, Clone, PartialEq, Eq)]
pub struct Emoji {
    /// The shortcode of the emoji
    pub shortcode: String,
    /// URL to the emoji static image
    pub static_url: String,
    /// URL to the emoji image
    pub url: String,
}

/// A hashtag, as it appears in a status or on its own.
#[derive(Debug, Clone, PartialEq, Eq)]
pub struct Tag {
    /// The hashtag, not including the preceding `#`.
    pub name: String,
    /// The URL of the hashtag.
    pub url: String,
    /// Usage statistics for given days (typically the past week).
    pub history: Vec<TagHistory>,
    /// Whether the current token's authorized user is following this tag.
    pub following: Option<bool>,
}

/// Application details.
#[derive(Debug, Clone, PartialEq, Eq)]
pub struct Application {
    /// Name of the application.
    pub name: String,
    /// Homepage URL of the application.
    pub website: Option<String>,
}

/// Usage statistics for given days (typically the past week).
#[derive(Debug, Clone, PartialEq, Eq)]
pub struct TagHistory {
    /// UNIX timestamp on midnight of the given day.
    pub day: String,
    /// The counted usage of the tag within that day.
    pub uses: String,
    /// The total of accounts using the tag within that day.
    pub accounts: String,
}

impl TagHistory {
    /// Builds a history entry from its decoded members; each may have been
    /// sent as text or as a number.
    pub fn from_wire(day: &Scalar, uses: &Scalar, accounts: &Scalar) -> (r: TagHistory)
        ensures
            r.day@ == scalar_text(*day),
            r.uses@ == scalar_text(*uses),
            r.accounts@ == scalar_text(*accounts),
    {
        TagHistory {
            day: tolerant_text(day),
            uses: tolerant_text(uses),
            accounts: tolerant_text(accounts),
        }
    }
}

impl Tag {
    /// Builds a tag from its decoded members; an absent history is empty.
    pub fn from_wire(
        name: String,
        url: String,
        history: Option<Vec<TagHistory>>,
        following: Option<bool>,
    ) -> (r: Tag)
        ensures
            r.name == name,
            r.url == url,
            r.history@ == match history {
                Some(h) => h@,
                None => Seq::<TagHistory>::empty(),
            },
            r.following == following,
    {
        Tag { name, url, history: vec_or_empty(history), following }
    }
}

} // verus!
