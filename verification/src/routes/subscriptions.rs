//! Subscribing: validate the form, record the subscriber as pending, send
//! the confirmation email. The steps are taken one after the other, and the
//! caller performs the two that reach outside the process.

use crate::domain::new_subscriber::{NewSubscriber, NewSubscriberView};
use crate::domain::subscriber_email::{is_email, SubscriberEmail};
use crate::domain::subscriber_name::{grapheme_count, name_verdict, SubscriberName};
use crate::domain::validation_error::ValidationError;
use crate::email_client::{
    send_email_request, DeliveryError, DeliveryRequest, DeliveryRequestView, EmailClient,
    EmailClientView,
};
use crate::routes::subscription_record::{
    pending_record, SubscriptionRecord, SubscriptionRecordView,
};
use crate::startup::ApplicationBaseUrl;
use chrono::Utc;
use uuid::Uuid;
use vstd::prelude::*;

verus! {

/// The fields of a subscription form, as they were submitted.
#[derive(Debug, Clone, PartialEq, Eq)]
pub struct FormData {
    pub email: String,
    pub name: String,
}

/// What validation makes of a submitted name and address: the subscriber,
/// or the first rule that is broken, the name being looked at first.
pub open spec fn validated(name: Seq<char>, email: Seq<char>) -> Result<
    NewSubscriberView,
    ValidationError,
> {
    match name_verdict(name, grapheme_count(name)) {
        Err(e) => Err(e),
        Ok(()) => if is_email(email) {
            Ok(NewSubscriberView { email, name })
        } else {
            Err(ValidationError::InvalidFormat)
        },
    }
}

impl FormData {
    /// Validates both fields.
    pub fn try_into(self) -> (r: Result<NewSubscriber, ValidationError>)
        ensures
            match r {
                Ok(subscriber) => validated(self.name@, self.email@) == Ok::<
                    NewSubscriberView,
                    ValidationError,
                >(subscriber@),
                Err(e) => validated(self.name@, self.email@) == Err::<
                    NewSubscriberView,
                    ValidationError,
                >(e),
            },
    {
        let name = match SubscriberName::parse(self.name) {
            Ok(name) => name,
            Err(e) => { return Err(e); },
        };
        let email = match SubscriberEmail::parse(self.email) {
            Ok(email) => email,
            Err(e) => { return Err(e); },
        };
        Ok(NewSubscriber { email, name })
    }
}

/// Fields that validate come back from validation as they went in.
pub proof fn lemma_validation_keeps_fields(name: Seq<char>, email: Seq<char>)
    requires
        name_verdict(name, grapheme_count(name)) is Ok,
        is_email(email),
    ensures
        validated(name, email) == Ok::<NewSubscriberView, ValidationError>(
            NewSubscriberView { email, name },
        ),
{
}

/// The token that a confirmation link carries: one fixed word for every
/// subscriber, which stands in until tokens are issued per subscription.
pub open spec fn subscription_token() -> Seq<char> {
    "mytoken"@
}

/// The link that confirms a subscription: the address of the service, the
/// path of the confirmation, and the token as a query parameter.
pub open spec fn confirmation_link(base_url: Seq<char>, token: Seq<char>) -> Seq<char> {
    base_url + "/subscriptions/confirm?subscription_token="@ + token
}

/// The confirmation email as HTML, around the link.
pub open spec fn confirmation_html(link: Seq<char>) -> Seq<char> {
    "Welcome to our newsletter!<br />\n                Click <a href=\""@ + link
        + "\">here</a> to confirm your subscription."@
}

/// The confirmation email as plain text, around the same link.
pub open spec fn confirmation_text(link: Seq<char>) -> Seq<char> {
    "Welcome to our newsletter!\nVist "@ + link + " to confirm your subscription."@
}

/// The request that delivers the confirmation email to `recipient`.
pub open spec fn confirmation_request(
    client: EmailClientView,
    recipient: Seq<char>,
    base_url: Seq<char>,
) -> DeliveryRequestView {
    let link = confirmation_link(base_url, subscription_token());
    send_email_request(
        client,
        recipient,
        "Welcome!"@,
        confirmation_html(link),
        confirmation_text(link),
    )
}

/// Writes the link that confirms a subscription with `token`.
pub fn write_confirmation_link(base_url: &str, token: &str) -> (link: String)
    ensures
        link@ == confirmation_link(base_url@, token@),
{
    let mut link = base_url.to_owned();
    link.append("/subscriptions/confirm?subscription_token=");
    link.append(token);
    link
}

/// Shapes the request that delivers the confirmation email to a new
/// subscriber. Both forms of the content carry the same link.
pub fn send_confirmation_email(
    email_client: &EmailClient,
    new_subscriber: NewSubscriber,
    base_url: &str,
) -> (r: DeliveryRequest)
    ensures
        r@ == confirmation_request(email_client@, new_subscriber@.email, base_url@),
{
    let link = write_confirmation_link(base_url, "mytoken");
    let mut html = "Welcome to our newsletter!<br />\n                Click <a href=\"".to_owned();
    html.append(link.as_str());
    html.append("\">here</a> to confirm your subscription.");
    let mut text = "Welcome to our newsletter!\nVist ".to_owned();
    text.append(link.as_str());
    text.append(" to confirm your subscription.");
    email_client.send_email(new_subscriber.email, "Welcome!", html.as_str(), text.as_str())
}

/// The identifiers that are random UUIDs: version 4 in the version field,
/// the bits `10` in the variant field.
pub open spec fn is_random_uuid(id: u128) -> bool {
    id & 0x0000_0000_0000_f000_c000_0000_0000_0000 == 0x0000_0000_0000_4000_8000_0000_0000_0000
}

/// Draws a fresh identifier with `uuid::Uuid::new_v4`, as the number that
/// `uuid::Uuid::as_u128` gives. The version and variant fields are set as
/// for every random UUID, which is taken from the source of `uuid` and not
/// proved here; the other bits come from the operating system, and nothing
/// is claimed of them.
#[verifier::external_body]
fn fresh_id() -> (id: u128)
    ensures
        is_random_uuid(id),
{
    Uuid::new_v4().as_u128()
}

/// Reads the clock with `chrono::Utc::now`, in microseconds since the Unix
/// epoch as `chrono::DateTime::timestamp_micros` counts them. Nothing is
/// claimed of the result.
#[verifier::external_body]
fn now_micros() -> (now: i64) {
    Utc::now().timestamp_micros()
}

/// Prepares the record that stores a new subscriber as pending, with a
/// fresh identifier and the time of the call. The caller inserts it.
pub fn insert_subscriber(new_subscriber: &NewSubscriber) -> (r: SubscriptionRecord)
    ensures
        r@ == pending_record(new_subscriber@, r.id, r.subscribed_at),
        is_random_uuid(r.id),
{
    let id = fresh_id();
    let subscribed_at = now_micros();
    SubscriptionRecord::pending(new_subscriber, id, subscribed_at)
}

/// How a subscription request ended.
#[derive(Debug, Clone, Copy, PartialEq, Eq)]
pub enum Outcome {
    /// The subscriber is recorded and the confirmation email is on its way.
    Accepted,
    /// A field of the form did not validate; nothing was recorded or sent.
    RejectedInvalidInput,
    /// The subscriber could not be recorded; nothing was sent.
    RejectedPersistenceFailure,
    /// The subscriber is recorded as pending, but the email was not
    /// delivered.
    RejectedDeliveryFailure,
}

/// The status code of the response that reports an outcome: success,
/// an error of the client for input that does not validate, an error of the
/// server for the rest.
pub open spec fn outcome_status(outcome: Outcome) -> u16 {
    match outcome {
        Outcome::Accepted => 200,
        Outcome::RejectedInvalidInput => 400,
        Outcome::RejectedPersistenceFailure => 500,
        Outcome::RejectedDeliveryFailure => 500,
    }
}

impl Outcome {
    /// The status code of the response that reports the outcome.
    pub fn status_code(&self) -> (r: u16)
        ensures
            r == outcome_status(*self),
    {
        match self {
            Outcome::Accepted => 200,
            Outcome::RejectedInvalidInput => 400,
            Outcome::RejectedPersistenceFailure => 500,
            Outcome::RejectedDeliveryFailure => 500,
        }
    }
}

/// The store refused a record, for a reason that stays with the store.
#[derive(Debug, Clone, Copy, PartialEq, Eq)]
pub struct PersistenceError;

/// What the caller reports back after it has done what a state asked for.
#[derive(Debug, Clone, Copy, PartialEq, Eq)]
pub enum Event {
    /// The record was inserted, or was not.
    Persisted(Result<(), PersistenceError>),
    /// The confirmation email was delivered, or was not.
    Delivered(Result<(), DeliveryError>),
}

/// Where a subscription request stands. Each state names what the caller
/// owes next: an insert, a delivery, or the response.
#[derive(Debug)]
pub enum Workflow {
    /// The form validated: `record` is to be inserted.
    Persisting { subscriber: NewSubscriber, record: SubscriptionRecord },
    /// The record is stored: `request` is to be sent.
    Delivering { request: DeliveryRequest },
    /// The request is answered with `outcome`.
    Finished { outcome: Outcome },
}

/// A [`Workflow`] with the texts it holds as sequences.
pub enum WorkflowView {
    Persisting { subscriber: NewSubscriberView, record: SubscriptionRecordView },
    Delivering { request: DeliveryRequestView },
    Finished { outcome: Outcome },
}

impl View for Workflow {
    type V = WorkflowView;

    open spec fn view(&self) -> WorkflowView {
        match self {
            Workflow::Persisting { subscriber, record } => WorkflowView::Persisting {
                subscriber: subscriber@,
                record: record@,
            },
            Workflow::Delivering { request } => WorkflowView::Delivering { request: request@ },
            Workflow::Finished { outcome } => WorkflowView::Finished { outcome: *outcome },
        }
    }
}

/// The state a request starts in: rejected where the form does not
/// validate, else waiting for the pending record to be inserted.
pub open spec fn started(
    name: Seq<char>,
    email: Seq<char>,
    id: u128,
    subscribed_at: i64,
) -> WorkflowView {
    match validated(name, email) {
        Err(_) => WorkflowView::Finished { outcome: Outcome::RejectedInvalidInput },
        Ok(subscriber) => WorkflowView::Persisting {
            subscriber,
            record: pending_record(subscriber, id, subscribed_at),
        },
    }
}

/// The state that follows `state` on `event`. A failed insert ends the
/// request before any email is shaped; a stored record is followed by the
/// delivery; the delivery decides between acceptance and rejection. An
/// event that the state does not wait for changes nothing.
pub open spec fn advanced(
    state: WorkflowView,
    event: Event,
    client: EmailClientView,
    base_url: Seq<char>,
) -> WorkflowView {
    match state {
        WorkflowView::Persisting { subscriber, record } => match event {
            Event::Persisted(Ok(_)) => WorkflowView::Delivering {
                request: confirmation_request(client, subscriber.email, base_url),
            },
            Event::Persisted(Err(_)) => WorkflowView::Finished {
                outcome: Outcome::RejectedPersistenceFailure,
            },
            Event::Delivered(_) => state,
        },
        WorkflowView::Delivering { request } => match event {
            Event::Delivered(Ok(_)) => WorkflowView::Finished { outcome: Outcome::Accepted },
            Event::Delivered(Err(_)) => WorkflowView::Finished {
                outcome: Outcome::RejectedDeliveryFailure,
            },
            Event::Persisted(_) => state,
        },
        WorkflowView::Finished { outcome } => state,
    }
}

/// The outcome of a request that is answered, and none before that.
pub open spec fn outcome_of(state: WorkflowView) -> Option<Outcome> {
    match state {
        WorkflowView::Finished { outcome } => Some(outcome),
        _ => None,
    }
}

/// Starts the work on a submitted form: validates it and, where it
/// validates, prepares the pending record under a fresh identifier and the
/// time of the call.
pub fn subscribe(form: FormData) -> (r: Workflow)
    ensures
        exists|id: u128, subscribed_at: i64|
            is_random_uuid(id) && r@ == #[trigger] started(
                form.name@,
                form.email@,
                id,
                subscribed_at,
            ),
{
    match form.try_into() {
        Err(_) => {
            let r = Workflow::Finished { outcome: Outcome::RejectedInvalidInput };
            proof {
                let id: u128 = 0x0000_0000_0000_4000_8000_0000_0000_0000;
                assert(id & 0x0000_0000_0000_f000_c000_0000_0000_0000 == id) by (bit_vector)
                    requires
                        id == 0x0000_0000_0000_4000_8000_0000_0000_0000u128,
                ;
                assert(r@ == started(form.name@, form.email@, id, 0));
            }
            r
        },
        Ok(subscriber) => {
            let record = insert_subscriber(&subscriber);
            let r = Workflow::Persisting { subscriber, record };
            assert(r@ == started(form.name@, form.email@, record.id, record.subscribed_at));
            r
        },
    }
}

impl Workflow {
    /// Takes the next step, on what the caller reports.
    pub fn step(
        self,
        event: Event,
        email_client: &EmailClient,
        base_url: &ApplicationBaseUrl,
    ) -> (r: Workflow)
        ensures
            r@ == advanced(self@, event, email_client@, base_url.0@),
    {
        match self {
            Workflow::Persisting { subscriber, record } => match event {
                Event::Persisted(Ok(_)) => Workflow::Delivering {
                    request: send_confirmation_email(
                        email_client,
                        subscriber,
                        base_url.0.as_str(),
                    ),
                },
                Event::Persisted(Err(_)) => Workflow::Finished {
                    outcome: Outcome::RejectedPersistenceFailure,
                },
                Event::Delivered(_) => Workflow::Persisting { subscriber, record },
            },
            Workflow::Delivering { request } => match event {
                Event::Delivered(Ok(_)) => Workflow::Finished { outcome: Outcome::Accepted },
                Event::Delivered(Err(_)) => Workflow::Finished {
                    outcome: Outcome::RejectedDeliveryFailure,
                },
                Event::Persisted(_) => Workflow::Delivering { request },
            },
            Workflow::Finished { outcome } => Workflow::Finished { outcome },
        }
    }

    /// The outcome, once the request is answered.
    pub fn outcome(&self) -> (r: Option<Outcome>)
        ensures
            r == outcome_of(self@),
    {
        match self {
            Workflow::Finished { outcome } => Some(*outcome),
            _ => None,
        }
    }
}

} // verus!
