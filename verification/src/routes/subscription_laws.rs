//! What holds of every subscription request, however the store and the
//! delivery service answer.

use crate::domain::new_subscriber::NewSubscriberView;
use crate::email_client::{DeliveryError, DeliveryRequestView, EmailClientView};
use crate::routes::subscription_record::{pending_record, SubscriptionRecordView};
use crate::routes::subscriptions::{
    advanced, outcome_status, started, validated, Event, Outcome, PersistenceError, WorkflowView,
};
use vstd::prelude::*;

verus! {

/// The state that `state` has become after `events`, taken in order.
pub open spec fn run(
    state: WorkflowView,
    events: Seq<Event>,
    client: EmailClientView,
    base_url: Seq<char>,
) -> WorkflowView
    decreases events.len(),
{
    if events.len() == 0 {
        state
    } else {
        advanced(run(state, events.drop_last(), client, base_url), events.last(), client, base_url)
    }
}

/// The event reports that the record was inserted.
pub open spec fn reports_insert(event: Event) -> bool {
    event matches Event::Persisted(Ok(_))
}

/// The event reports that the email was delivered.
pub open spec fn reports_delivery(event: Event) -> bool {
    event matches Event::Delivered(Ok(_))
}

/// An insert succeeded at `i` and a delivery succeeded later, at `j`.
pub open spec fn stored_then_delivered(events: Seq<Event>, i: int, j: int) -> bool {
    &&& 0 <= i < j < events.len()
    &&& reports_insert(events[i])
    &&& reports_delivery(events[j])
}

/// A request that is answered stays answered, with the same outcome,
/// whatever is reported afterwards.
pub proof fn lemma_finished_is_final(
    outcome: Outcome,
    events: Seq<Event>,
    client: EmailClientView,
    base_url: Seq<char>,
)
    ensures
        run(WorkflowView::Finished { outcome }, events, client, base_url) == (
        WorkflowView::Finished { outcome }),
    decreases events.len(),
{
    if events.len() > 0 {
        lemma_finished_is_final(outcome, events.drop_last(), client, base_url);
    }
}

/// A form that does not validate is rejected at once, and the request
/// never reaches a state that asks for an insert or a delivery.
pub proof fn lemma_invalid_input_is_rejected(
    name: Seq<char>,
    email: Seq<char>,
    id: u128,
    subscribed_at: i64,
    events: Seq<Event>,
    client: EmailClientView,
    base_url: Seq<char>,
)
    requires
        validated(name, email) is Err,
    ensures
        run(started(name, email, id, subscribed_at), events, client, base_url) == (
        WorkflowView::Finished { outcome: Outcome::RejectedInvalidInput }),
{
    lemma_finished_is_final(Outcome::RejectedInvalidInput, events, client, base_url);
}

/// Where the insert fails, the request ends as a persistence failure, and
/// no delivery is asked for, whatever is reported afterwards.
pub proof fn lemma_failed_insert_ends_request(
    subscriber: NewSubscriberView,
    record: SubscriptionRecordView,
    error: PersistenceError,
    events: Seq<Event>,
    client: EmailClientView,
    base_url: Seq<char>,
)
    ensures
        run(
            advanced(
                WorkflowView::Persisting { subscriber, record },
                Event::Persisted(Err(error)),
                client,
                base_url,
            ),
            events,
            client,
            base_url,
        ) == (WorkflowView::Finished { outcome: Outcome::RejectedPersistenceFailure }),
{
    lemma_finished_is_final(Outcome::RejectedPersistenceFailure, events, client, base_url);
}

/// Where the delivery fails, the request ends as a delivery failure, which
/// is reported as an error of the server and never as success.
pub proof fn lemma_failed_delivery_ends_request(
    request: DeliveryRequestView,
    error: DeliveryError,
    events: Seq<Event>,
    client: EmailClientView,
    base_url: Seq<char>,
)
    ensures
        run(
            advanced(
                WorkflowView::Delivering { request },
                Event::Delivered(Err(error)),
                client,
                base_url,
            ),
            events,
            client,
            base_url,
        ) == (WorkflowView::Finished { outcome: Outcome::RejectedDeliveryFailure }),
        outcome_status(Outcome::RejectedDeliveryFailure) == 500,
{
    lemma_finished_is_final(Outcome::RejectedDeliveryFailure, events, client, base_url);
}

/// What each state of a request says of the events that led to it.
pub open spec fn explains(state: WorkflowView, events: Seq<Event>) -> bool {
    match state {
        WorkflowView::Persisting { .. } => true,
        WorkflowView::Delivering { .. } => exists|i: int|
            0 <= i < events.len() && reports_insert(#[trigger] events[i]),
        WorkflowView::Finished { outcome } => outcome == Outcome::Accepted ==> exists|
            i: int,
            j: int,
        | #[trigger] stored_then_delivered(events, i, j),
    }
}

/// Every state that a validated form reaches is explained by the events
/// before it.
pub proof fn lemma_run_is_explained(
    subscriber: NewSubscriberView,
    record: SubscriptionRecordView,
    events: Seq<Event>,
    client: EmailClientView,
    base_url: Seq<char>,
)
    ensures
        explains(
            run(WorkflowView::Persisting { subscriber, record }, events, client, base_url),
            events,
        ),
    decreases events.len(),
{
    if events.len() > 0 {
        let start = WorkflowView::Persisting { subscriber, record };
        let before = events.drop_last();
        let last = events.len() - 1;
        lemma_run_is_explained(subscriber, record, before, client, base_url);
        let previous = run(start, before, client, base_url);
        let state = run(start, events, client, base_url);
        match previous {
            WorkflowView::Persisting { .. } => {},
            WorkflowView::Delivering { .. } => {
                let i = choose|i: int|
                    0 <= i < before.len() && reports_insert(#[trigger] before[i]);
                if state is Finished && state->outcome == Outcome::Accepted {
                    assert(stored_then_delivered(events, i, last));
                }
            },
            WorkflowView::Finished { outcome } => {
                if outcome == Outcome::Accepted {
                    let (i, j) = choose|i: int, j: int| #[trigger]
                        stored_then_delivered(before, i, j);
                    assert(stored_then_delivered(events, i, j));
                }
            },
        }
    }
}

/// A request is accepted only when all three steps succeeded: the form
/// validated, the insert succeeded, and after it the delivery succeeded.
pub proof fn lemma_accepted_means_all_succeeded(
    name: Seq<char>,
    email: Seq<char>,
    id: u128,
    subscribed_at: i64,
    events: Seq<Event>,
    client: EmailClientView,
    base_url: Seq<char>,
)
    requires
        run(started(name, email, id, subscribed_at), events, client, base_url) == (
        WorkflowView::Finished { outcome: Outcome::Accepted }),
    ensures
        validated(name, email) is Ok,
        exists|i: int, j: int| #[trigger] stored_then_delivered(events, i, j),
{
    match validated(name, email) {
        Err(_) => {
            lemma_invalid_input_is_rejected(
                name,
                email,
                id,
                subscribed_at,
                events,
                client,
                base_url,
            );
        },
        Ok(subscriber) => {
            lemma_run_is_explained(
                subscriber,
                pending_record(subscriber, id, subscribed_at),
                events,
                client,
                base_url,
            );
        },
    }
}

/// A form that validates, an insert that succeeds and a delivery that
/// succeeds end in acceptance.
pub proof fn lemma_all_succeeded_means_accepted(
    name: Seq<char>,
    email: Seq<char>,
    id: u128,
    subscribed_at: i64,
    client: EmailClientView,
    base_url: Seq<char>,
)
    requires
        validated(name, email) is Ok,
    ensures
        run(
            started(name, email, id, subscribed_at),
            seq![Event::Persisted(Ok(())), Event::Delivered(Ok(()))],
            client,
            base_url,
        ) == (WorkflowView::Finished { outcome: Outcome::Accepted }),
{
    let events = seq![Event::Persisted(Ok(())), Event::Delivered(Ok(()))];
    let start = started(name, email, id, subscribed_at);
    assert(run(start, events.drop_last().drop_last(), client, base_url) == start);
    assert(run(start, events.drop_last(), client, base_url) is Delivering);
}

/// The event is the report that the state waits for.
pub open spec fn awaits(state: WorkflowView, event: Event) -> bool {
    match state {
        WorkflowView::Persisting { .. } => event is Persisted,
        WorkflowView::Delivering { .. } => event is Delivered,
        WorkflowView::Finished { .. } => false,
    }
}

/// Every event of `events` is the report that the request was waiting for
/// when it came: what a caller reports who does what each state asks for,
/// and nothing else.
pub open spec fn in_order(
    state: WorkflowView,
    events: Seq<Event>,
    client: EmailClientView,
    base_url: Seq<char>,
) -> bool
    decreases events.len(),
{
    events.len() == 0 || (in_order(state, events.drop_last(), client, base_url) && awaits(
        run(state, events.drop_last(), client, base_url),
        events.last(),
    ))
}

/// Reports that came in order did so one by one.
pub proof fn lemma_in_order_at(
    state: WorkflowView,
    events: Seq<Event>,
    k: int,
    client: EmailClientView,
    base_url: Seq<char>,
)
    requires
        in_order(state, events, client, base_url),
        0 <= k < events.len(),
    ensures
        awaits(run(state, events.take(k), client, base_url), events[k]),
        run(state, events.take(k + 1), client, base_url) == advanced(
            run(state, events.take(k), client, base_url),
            events[k],
            client,
            base_url,
        ),
    decreases events.len(),
{
    assert(events.take(k + 1).drop_last() == events.take(k));
    if k < events.len() - 1 {
        lemma_in_order_at(state, events.drop_last(), k, client, base_url);
        assert(events.drop_last().take(k) == events.take(k));
    }
}

/// The steps of a request are taken one after the other, each at most
/// once: the insert is reported first, and for a form that validated only;
/// the delivery is reported second, and after an insert that succeeded
/// only; nothing is reported after that.
pub proof fn lemma_steps_are_sequential(
    name: Seq<char>,
    email: Seq<char>,
    id: u128,
    subscribed_at: i64,
    events: Seq<Event>,
    client: EmailClientView,
    base_url: Seq<char>,
)
    requires
        in_order(started(name, email, id, subscribed_at), events, client, base_url),
    ensures
        events.len() <= 2,
        events.len() >= 1 ==> validated(name, email) is Ok && events[0] is Persisted,
        events.len() == 2 ==> reports_insert(events[0]) && events[1] is Delivered,
{
    let start = started(name, email, id, subscribed_at);
    if events.len() >= 1 {
        lemma_in_order_at(start, events, 0, client, base_url);
    }
    if events.len() >= 2 {
        lemma_in_order_at(start, events, 1, client, base_url);
    }
    if events.len() >= 3 {
        lemma_in_order_at(start, events, 2, client, base_url);
    }
}

} // verus!
