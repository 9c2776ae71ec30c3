use vstd::prelude::*;
use crate::new_subscriber::NewSubscriber;

verus! {

/// Where a subscriber stands: it only ever moves from pending to confirmed.
#[derive(Clone, Copy, Debug, PartialEq, Eq, Structural)]
pub enum SubscriptionStatus {
    PendingConfirmation,
    Confirmed,
}

impl SubscriptionStatus {
    /// The status after the subscriber followed its confirmation link.
    pub fn confirm(self) -> (r: SubscriptionStatus)
        ensures
            r == after_confirmation(self),
    {
        SubscriptionStatus::Confirmed
    }

    /// The text under which the status is stored.
    pub fn as_str(&self) -> (r: &'static str)
        ensures
            r@ == status_text(*self),
    {
        match self {
            SubscriptionStatus::PendingConfirmation => "pending_confirmation",
            SubscriptionStatus::Confirmed => "confirmed",
        }
    }
}

/// Confirmation moves every status to confirmed.
pub open spec fn after_confirmation(s: SubscriptionStatus) -> SubscriptionStatus {
    SubscriptionStatus::Confirmed
}

/// Confirming a subscriber twice leaves it as confirming it once, and no
/// confirmation moves a subscriber back to pending.
pub proof fn lemma_confirmation_idempotent(s: SubscriptionStatus)
    ensures
        after_confirmation(after_confirmation(s)) == after_confirmation(s),
        after_confirmation(s) != SubscriptionStatus::PendingConfirmation,
{
}

pub open spec fn status_text(s: SubscriptionStatus) -> Seq<char> {
    match s {
        SubscriptionStatus::PendingConfirmation => "pending_confirmation"@,
        SubscriptionStatus::Confirmed => "confirmed"@,
    }
}

/// A UUID of version 4 (random) with the RFC 4122 variant, as an integer.
pub open spec fn is_random_uuid(id: u128) -> bool {
    id & 0xF000_C000_0000_0000_0000u128 == 0x4000_8000_0000_0000_0000u128
}

/// Relies on `uuid::Uuid::new_v4` and `Uuid::as_u128`: random bits, with the
/// version and variant bits set.
#[verifier::external_body]
fn new_random_uuid() -> (r: u128)
    ensures
        is_random_uuid(r),
{
    uuid::Uuid::new_v4().as_u128()
}

/// Relies on `chrono::Utc::now` and `DateTime::timestamp_micros`: the current
/// time in microseconds since the Unix epoch.
#[verifier::external_body]
fn now_micros() -> (r: i64) {
    chrono::Utc::now().timestamp_micros()
}

/// One row of the subscriptions table.
pub struct SubscriberRecord {
    pub id: u128,
    pub email: String,
    pub name: String,
    /// Microseconds since the Unix epoch.
    pub subscribed_at: i64,
    pub status: SubscriptionStatus,
}

impl View for SubscriberRecord {
    type V = (u128, Seq<char>, Seq<char>, i64, SubscriptionStatus);

    open spec fn view(&self) -> Self::V {
        (self.id, self.email@, self.name@, self.subscribed_at, self.status)
    }
}

impl Clone for SubscriberRecord {
    fn clone(&self) -> (r: SubscriberRecord)
        ensures
            r@ == self@,
    {
        SubscriberRecord {
            id: self.id,
            email: self.email.clone(),
            name: self.name.clone(),
            subscribed_at: self.subscribed_at,
            status: self.status,
        }
    }
}

/// A fresh row for `s`: a new random id, the time now, pending confirmation.
pub fn new_pending_record(s: &NewSubscriber) -> (r: SubscriberRecord)
    ensures
        r.email@ == s.email@,
        r.name@ == s.name@,
        r.status == SubscriptionStatus::PendingConfirmation,
        is_random_uuid(r.id),
{
    let id = new_random_uuid();
    let subscribed_at = now_micros();
    SubscriberRecord {
        id,
        email: String::from_str(s.email.as_ref()),
        name: String::from_str(s.name.as_ref()),
        subscribed_at,
        status: SubscriptionStatus::PendingConfirmation,
    }
}

} // verus!
