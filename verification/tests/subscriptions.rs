use zero2prod::domain::{NewSubscriber, SubscriberEmail, SubscriberName, ValidationError};
use zero2prod::email_client::{DeliveryError, DeliveryRequest, DeliveryResponse, EmailClient};
use zero2prod::routes::subscriptions::write_confirmation_link;
use zero2prod::routes::{
    insert_subscriber, send_confirmation_email, subscribe, Event, FormData, Outcome,
    PersistenceError, SubscriptionRecord, SubscriptionStatus, Workflow,
};
use zero2prod::startup::ApplicationBaseUrl;

fn form(name: &str, email: &str) -> FormData {
    FormData { email: email.to_string(), name: name.to_string() }
}

fn valid_form() -> FormData {
    form("Atul Sharma", "asharma@sw-at.com")
}

fn email_client() -> EmailClient {
    let sender = SubscriberEmail::parse("letters@example.com".to_string()).unwrap();
    EmailClient::new("http://127.0.0.1:8025".to_string(), sender, "a-token-for-tests".to_string())
}

fn base_url() -> ApplicationBaseUrl {
    ApplicationBaseUrl("http://127.0.0.1".to_string())
}

/// What happened while one request was worked on.
struct Trace {
    outcome: Outcome,
    inserted: Vec<SubscriptionRecord>,
    sent: Vec<DeliveryRequest>,
}

/// Works on `form` against a store that accepts or refuses every insert and
/// a delivery service that answers every request with `response`.
fn run(form: FormData, store_accepts: bool, response: DeliveryResponse) -> Trace {
    let client = email_client();
    let base_url = base_url();
    let mut inserted = Vec::new();
    let mut sent = Vec::new();
    let mut state = subscribe(form);
    loop {
        let event = match &state {
            Workflow::Persisting { record, .. } => {
                inserted.push(record.clone());
                Event::Persisted(if store_accepts { Ok(()) } else { Err(PersistenceError) })
            }
            Workflow::Delivering { request } => {
                sent.push(request.clone());
                Event::Delivered(response.into_result())
            }
            Workflow::Finished { outcome } => {
                return Trace { outcome: *outcome, inserted, sent };
            }
        };
        state = state.step(event, &client, &base_url);
    }
}

fn links(text: &str) -> Vec<String> {
    linkify::LinkFinder::new()
        .links(text)
        .filter(|l| *l.kind() == linkify::LinkKind::Url)
        .map(|l| l.as_str().to_owned())
        .collect()
}

fn content(request: &DeliveryRequest, index: usize) -> String {
    let body: serde_json::Value = serde_json::from_str(&request.body).unwrap();
    body.get("content")
        .unwrap()
        .get(index)
        .unwrap()
        .get("value")
        .unwrap()
        .as_str()
        .unwrap()
        .to_owned()
}

#[test]
fn subscribe_returns_a_200_form_valid_form_data() {
    let trace = run(valid_form(), true, DeliveryResponse::Status(200));
    assert_eq!(trace.outcome, Outcome::Accepted);
    assert_eq!(200, trace.outcome.status_code());
}

#[test]
fn subscribe_persists_the_nw_susbcriber() {
    let trace = run(valid_form(), true, DeliveryResponse::Status(200));
    assert_eq!(trace.inserted.len(), 1);
    let saved = &trace.inserted[0];
    assert_eq!(saved.email, "asharma@sw-at.com");
    assert_eq!(saved.name, "Atul Sharma");
    assert_eq!(saved.status.as_str(), "pending_confirmation");
}

#[test]
fn subscribe_returns_a_400_when_fields_are_present_but_empty() {
    let test_cases = vec![
        (form("", "asharma@sw-at.com"), "empty name"),
        (form("Atul Sharma", ""), "empty email"),
        (form("Atul Sharma", "bad-email-address"), "invalid email"),
    ];
    for (form, description) in test_cases {
        let trace = run(form, true, DeliveryResponse::Status(200));
        assert_eq!(
            400,
            trace.outcome.status_code(),
            "The request was not rejected with 400 Bad Request when the payload was {}",
            description
        );
        assert_eq!(trace.outcome, Outcome::RejectedInvalidInput);
    }
}

#[test]
fn subscribe_sends_a_confirmation_email_for_valid_data() {
    let trace = run(valid_form(), true, DeliveryResponse::Status(200));
    assert_eq!(trace.sent.len(), 1);
    assert_eq!(trace.sent[0].method, "POST");
    assert_eq!(trace.sent[0].url, "http://127.0.0.1:8025/mail/send");
}

#[test]
fn subscribe_sends_a_confirmation_email_with_a_link() {
    let trace = run(valid_form(), true, DeliveryResponse::Status(200));
    let email_request = &trace.sent[0];

    let get_link = |s: &str| {
        let links = links(s);
        assert_eq!(links.len(), 1);
        links[0].clone()
    };

    let text_link = get_link(&content(email_request, 0));
    let html_link = get_link(&content(email_request, 1));

    assert_eq!(text_link, html_link);
    assert_eq!(text_link, "http://127.0.0.1/subscriptions/confirm?subscription_token=mytoken");
}

#[test]
fn the_link_sent_by_subscribe_leads_to_the_confirmation_of_the_service() {
    let trace = run(valid_form(), true, DeliveryResponse::Status(200));
    let raw_confirmation_link = links(&content(&trace.sent[0], 0)).remove(0);
    let confirmation_link = reqwest::Url::parse(&raw_confirmation_link).unwrap();
    assert_eq!(confirmation_link.host_str().unwrap(), "127.0.0.1");
    assert_eq!(confirmation_link.path(), "/subscriptions/confirm");
    let query: Vec<(String, String)> = confirmation_link
        .query_pairs()
        .map(|(k, v)| (k.into_owned(), v.into_owned()))
        .collect();
    assert_eq!(query, vec![("subscription_token".to_string(), "mytoken".to_string())]);
}

#[test]
fn a_valid_submission_is_stored_once_sent_once_and_accepted() {
    let trace = run(valid_form(), true, DeliveryResponse::Status(200));
    assert_eq!(trace.outcome, Outcome::Accepted);
    assert_eq!(trace.inserted.len(), 1);
    assert_eq!(trace.inserted[0].status, SubscriptionStatus::PendingConfirmation);
    assert_eq!(trace.inserted[0].email, "asharma@sw-at.com");
    assert_eq!(trace.inserted[0].name, "Atul Sharma");
    assert_eq!(trace.sent.len(), 1);
    let body: serde_json::Value = serde_json::from_str(&trace.sent[0].body).unwrap();
    assert_eq!(body["personalizations"][0]["to"][0]["email"], "asharma@sw-at.com");
    assert_eq!(body["from"]["email"], "letters@example.com");
    assert_eq!(body["subject"], "Welcome!");
}

#[test]
fn an_invalid_email_is_rejected_before_anything_is_stored_or_sent() {
    for name in ["Atul Sharma", "", "{"] {
        let trace = run(form(name, "bad-email-address"), true, DeliveryResponse::Status(200));
        assert_eq!(trace.outcome, Outcome::RejectedInvalidInput);
        assert_eq!(trace.inserted.len(), 0);
        assert_eq!(trace.sent.len(), 0);
    }
}

#[test]
fn a_failed_delivery_is_a_server_error_and_the_record_stays_pending() {
    for response in [
        DeliveryResponse::Unreachable,
        DeliveryResponse::TimedOut,
        DeliveryResponse::Status(500),
        DeliveryResponse::Status(404),
    ] {
        let trace = run(valid_form(), true, response);
        assert_eq!(trace.outcome, Outcome::RejectedDeliveryFailure);
        assert_eq!(trace.outcome.status_code(), 500);
        assert_eq!(trace.inserted.len(), 1);
        assert_eq!(trace.inserted[0].status.as_str(), "pending_confirmation");
        assert_eq!(trace.sent.len(), 1);
    }
}

#[test]
fn a_failed_insert_is_a_server_error_and_nothing_is_sent() {
    let trace = run(valid_form(), false, DeliveryResponse::Status(200));
    assert_eq!(trace.outcome, Outcome::RejectedPersistenceFailure);
    assert_eq!(trace.outcome.status_code(), 500);
    assert_eq!(trace.inserted.len(), 1);
    assert_eq!(trace.sent.len(), 0);
}

#[test]
fn the_form_is_validated_name_first() {
    assert_eq!(form("", "bad").try_into().unwrap_err(), ValidationError::Empty);
    assert_eq!(form(&"a".repeat(257), "bad").try_into().unwrap_err(), ValidationError::TooLong);
    assert_eq!(
        form("a(b)", "bad").try_into().unwrap_err(),
        ValidationError::ForbiddenCharacter
    );
    assert_eq!(form("Atul", "bad").try_into().unwrap_err(), ValidationError::InvalidFormat);
}

#[test]
fn a_validated_form_gives_its_fields_back_unchanged() {
    let subscriber = form(" Atul  Sharma ", "A.Sharma@SW-AT.com").try_into().unwrap();
    assert_eq!(subscriber.name.as_ref(), " Atul  Sharma ");
    assert_eq!(subscriber.email.as_ref(), "A.Sharma@SW-AT.com");
}

#[test]
fn a_subscriber_made_of_validated_fields_gives_them_back_unchanged() {
    let name = SubscriberName::parse("Atul Sharma".to_string()).unwrap();
    let email = SubscriberEmail::parse("asharma@sw-at.com".to_string()).unwrap();
    let subscriber = NewSubscriber::new(name, email);
    assert_eq!(subscriber.name.as_ref(), "Atul Sharma");
    assert_eq!(subscriber.email.as_ref(), "asharma@sw-at.com");
}

#[test]
fn an_event_that_is_not_awaited_changes_nothing() {
    let client = email_client();
    let base_url = base_url();
    let state = subscribe(valid_form());
    let record = match &state {
        Workflow::Persisting { record, .. } => record.clone(),
        other => panic!("unexpected state {:?}", other),
    };
    let state = state.step(Event::Delivered(Ok(())), &client, &base_url);
    match &state {
        Workflow::Persisting { record: kept, subscriber } => {
            assert_eq!(*kept, record);
            assert_eq!(subscriber.email.as_ref(), "asharma@sw-at.com");
        }
        other => panic!("unexpected state {:?}", other),
    }
    assert_eq!(state.outcome(), None);
    let state = state.step(Event::Persisted(Ok(())), &client, &base_url);
    let request = match &state {
        Workflow::Delivering { request } => request.clone(),
        other => panic!("unexpected state {:?}", other),
    };
    let state = state.step(Event::Persisted(Err(PersistenceError)), &client, &base_url);
    match &state {
        Workflow::Delivering { request: kept } => assert_eq!(*kept, request),
        other => panic!("unexpected state {:?}", other),
    }
    let state = state.step(Event::Delivered(Err(DeliveryError::Timeout)), &client, &base_url);
    assert_eq!(state.outcome(), Some(Outcome::RejectedDeliveryFailure));
    let state = state.step(Event::Delivered(Ok(())), &client, &base_url);
    assert_eq!(state.outcome(), Some(Outcome::RejectedDeliveryFailure));
    let state = state.step(Event::Persisted(Ok(())), &client, &base_url);
    assert_eq!(state.outcome(), Some(Outcome::RejectedDeliveryFailure));
}

#[test]
fn each_outcome_has_its_status_code() {
    assert_eq!(Outcome::Accepted.status_code(), 200);
    assert_eq!(Outcome::RejectedInvalidInput.status_code(), 400);
    assert_eq!(Outcome::RejectedPersistenceFailure.status_code(), 500);
    assert_eq!(Outcome::RejectedDeliveryFailure.status_code(), 500);
}

#[test]
fn each_status_has_its_word() {
    assert_eq!(SubscriptionStatus::PendingConfirmation.as_str(), "pending_confirmation");
    assert_eq!(SubscriptionStatus::Confirmed.as_str(), "confirmed");
}

#[test]
fn the_confirmation_link_is_the_base_url_the_path_and_the_token() {
    assert_eq!(
        write_confirmation_link("https://newsletter.example.org", "3f9a"),
        "https://newsletter.example.org/subscriptions/confirm?subscription_token=3f9a"
    );
}

#[test]
fn the_confirmation_email_is_addressed_to_the_subscriber() {
    let subscriber = valid_form().try_into().unwrap();
    let request = send_confirmation_email(&email_client(), subscriber, "http://127.0.0.1");
    let body: serde_json::Value = serde_json::from_str(&request.body).unwrap();
    assert_eq!(body["personalizations"][0]["to"][0]["email"], "asharma@sw-at.com");
    assert_eq!(body["subject"], "Welcome!");
    assert_eq!(
        body["content"][0]["value"],
        "Welcome to our newsletter!\nVist \
         http://127.0.0.1/subscriptions/confirm?subscription_token=mytoken \
         to confirm your subscription."
    );
    assert_eq!(
        body["content"][1]["value"],
        "Welcome to our newsletter!<br />\n                Click <a href=\"\
         http://127.0.0.1/subscriptions/confirm?subscription_token=mytoken\
         \">here</a> to confirm your subscription."
    );
    assert_eq!(request.authorization, "Bearer a-token-for-tests");
}

#[test]
fn a_record_is_pending_under_the_identifier_and_time_given() {
    let subscriber = valid_form().try_into().unwrap();
    let record = SubscriptionRecord::pending(&subscriber, 7, 1_662_921_288_000_000);
    assert_eq!(
        record,
        SubscriptionRecord {
            id: 7,
            email: "asharma@sw-at.com".to_string(),
            name: "Atul Sharma".to_string(),
            subscribed_at: 1_662_921_288_000_000,
            status: SubscriptionStatus::PendingConfirmation,
        }
    );
}

#[test]
fn a_new_record_has_a_random_uuid_of_its_own() {
    let subscriber = valid_form().try_into().unwrap();
    let first = insert_subscriber(&subscriber);
    let second = insert_subscriber(&subscriber);
    assert_ne!(first.id, second.id);
    for record in [first, second] {
        let id = uuid::Uuid::from_u128(record.id);
        assert_eq!(id.get_version_num(), 4);
        assert_eq!(id.get_variant(), uuid::Variant::RFC4122);
        assert_eq!(
            record.id & 0x0000_0000_0000_f000_c000_0000_0000_0000,
            0x0000_0000_0000_4000_8000_0000_0000_0000
        );
    }
}

#[test]
fn a_new_record_carries_the_time_of_the_call() {
    let subscriber = valid_form().try_into().unwrap();
    let before = chrono::Utc::now().timestamp_micros();
    let record = insert_subscriber(&subscriber);
    let after = chrono::Utc::now().timestamp_micros();
    assert!(before <= record.subscribed_at);
    assert!(record.subscribed_at <= after);
    assert!(chrono::DateTime::from_timestamp_micros(record.subscribed_at).is_some());
}
