//! The event model: what the feed delivers and what the classifier
//! decides about each delivery.

use vstd::prelude::*;

verus! {

/// The kind of a notification, as the feed tags it.
#[derive(Clone, Copy, Debug, PartialEq, Eq, Structural)]
pub enum NotificationKind {
    Mention,
    Follow,
    Boost,
    Favourite,
    Other,
}

/// The account a notification originates from.
#[derive(Debug)]
pub struct Account {
    /// The account's profile URL, matched against the trusted-origin prefix.
    pub profile_url: String,
}

/// The post a notification is about, when it carries one.
#[derive(Debug)]
pub struct Post {
    /// The service's identifier for the post; the reactor amplifies by id.
    pub id: String,
    /// Where the post can be read, when the service exposes a URL for it.
    pub public_url: Option<String>,
}

/// A notification directed at the authenticated account.
#[derive(Debug)]
pub struct Notification {
    pub kind: NotificationKind,
    pub origin_account: Account,
    /// Absent for notification kinds that do not concern a post.
    pub subject_post: Option<Post>,
}

/// One occurrence on the feed: a notification, or anything else,
/// which the consumer never acts upon.
#[derive(Debug)]
pub enum Event {
    Notification(Notification),
    Other,
}

/// Which subscription the event source opens: every event relevant to
/// the authenticated account, or its notifications alone.
#[derive(Clone, Copy, Debug, PartialEq, Eq, Structural)]
pub enum SubscriptionMode {
    AllEvents,
    NotificationsOnly,
}

} // verus!
