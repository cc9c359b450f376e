//! The record of a subscription, as it is stored.

use crate::domain::new_subscriber::{NewSubscriber, NewSubscriberView};
use vstd::prelude::*;

verus! {

/// Whether a subscriber has confirmed.
#[derive(Debug, Clone, Copy, PartialEq, Eq)]
pub enum SubscriptionStatus {
    /// The subscriber has not followed the confirmation link yet.
    PendingConfirmation,
    /// The subscriber has followed the confirmation link.
    Confirmed,
}

/// The word that stands for a status where subscriptions are stored.
pub open spec fn status_text(status: SubscriptionStatus) -> Seq<char> {
    match status {
        SubscriptionStatus::PendingConfirmation => "pending_confirmation"@,
        SubscriptionStatus::Confirmed => "confirmed"@,
    }
}

impl SubscriptionStatus {
    /// The word that stands for the status where subscriptions are stored.
    pub fn as_str(&self) -> (r: &'static str)
        ensures
            r@ == status_text(*self),
    {
        match self {
            SubscriptionStatus::PendingConfirmation => "pending_confirmation",
            SubscriptionStatus::Confirmed => "confirmed",
        }
    }
}

/// One subscription as it is stored.
#[derive(Debug, Clone, PartialEq, Eq)]
pub struct SubscriptionRecord {
    /// The identifier, a UUID as a number of 128 bits.
    pub id: u128,
    pub email: String,
    pub name: String,
    /// When the subscriber subscribed, in microseconds since the Unix epoch.
    pub subscribed_at: i64,
    pub status: SubscriptionStatus,
}

/// What a [`SubscriptionRecord`] holds, with its texts as sequences.
pub struct SubscriptionRecordView {
    pub id: u128,
    pub email: Seq<char>,
    pub name: Seq<char>,
    pub subscribed_at: i64,
    pub status: SubscriptionStatus,
}

impl View for SubscriptionRecord {
    type V = SubscriptionRecordView;

    open spec fn view(&self) -> SubscriptionRecordView {
        SubscriptionRecordView {
            id: self.id,
            email: self.email@,
            name: self.name@,
            subscribed_at: self.subscribed_at,
            status: self.status,
        }
    }
}

/// The record of a subscriber who has not confirmed yet.
pub open spec fn pending_record(
    subscriber: NewSubscriberView,
    id: u128,
    subscribed_at: i64,
) -> SubscriptionRecordView {
    SubscriptionRecordView {
        id,
        email: subscriber.email,
        name: subscriber.name,
        subscribed_at,
        status: SubscriptionStatus::PendingConfirmation,
    }
}

impl SubscriptionRecord {
    /// The record of `subscriber` as pending, under the given identifier
    /// and time.
    pub fn pending(subscriber: &NewSubscriber, id: u128, subscribed_at: i64) -> (r:
        SubscriptionRecord)
        ensures
            r@ == pending_record(subscriber@, id, subscribed_at),
    {
        SubscriptionRecord {
            id,
            email: subscriber.email.as_ref().to_owned(),
            name: subscriber.name.as_ref().to_owned(),
            subscribed_at,
            status: SubscriptionStatus::PendingConfirmation,
        }
    }
}

} // verus!
