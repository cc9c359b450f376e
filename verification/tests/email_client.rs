use zero2prod::domain::SubscriberEmail;
use zero2prod::email_client::{
    write_send_email_body, DeliveryError, DeliveryRequest, DeliveryResponse, EmailClient,
    REQUEST_TIMEOUT_SECS,
};

fn subject() -> String {
    "Quarterly letter".to_string()
}

fn content() -> String {
    "Dear reader,\nthis is the \"letter\" of the quarter.".to_string()
}

fn email() -> SubscriberEmail {
    SubscriberEmail::parse("reader@example.net".to_string()).unwrap()
}

fn email_client(base_url: String) -> EmailClient {
    let sender = SubscriberEmail::parse("letters@example.com".to_string()).unwrap();
    EmailClient::new(base_url, sender, "a-token-for-tests".to_string())
}

fn request() -> DeliveryRequest {
    email_client("http://127.0.0.1:8025".to_string()).send_email(
        email(),
        &subject(),
        &content(),
        &content(),
    )
}

fn body_has_the_expected_shape(body: &str) -> bool {
    let result: Result<serde_json::Value, _> = serde_json::from_str(body);
    if let Ok(body) = result {
        body.get("personalizations")
            .unwrap()
            .get(0)
            .unwrap()
            .get("to")
            .unwrap()
            .get(0)
            .unwrap()
            .get("email")
            .is_some()
            && body.get("from").unwrap().get("email").is_some()
            && body.get("subject").is_some()
            && *body.get("content").unwrap().get(0).unwrap().get("type").unwrap()
                == serde_json::Value::from("text/plain")
            && body.get("content").unwrap().get(0).unwrap().get("value").is_some()
            && *body.get("content").unwrap().get(1).unwrap().get("type").unwrap()
                == serde_json::Value::from("text/html")
            && body.get("content").unwrap().get(1).unwrap().get("value").is_some()
    } else {
        false
    }
}

#[test]
fn send_email_fires_a_request_to_base_url() {
    let request = request();
    assert!(!request.authorization.is_empty());
    assert_eq!(request.content_type, "application/json");
    assert_eq!(request.url, "http://127.0.0.1:8025/mail/send");
    assert_eq!(request.method, "POST");
    assert!(body_has_the_expected_shape(&request.body));
}

#[test]
fn send_email_succeeds_if_the_server_returns_200() {
    let outcome = DeliveryResponse::Status(200).into_result();
    assert!(outcome.is_ok());
}

#[test]
fn send_email_fails_if_the_server_returns_500() {
    let outcome = DeliveryResponse::Status(500).into_result();
    assert!(outcome.is_err());
    assert_eq!(outcome, Err(DeliveryError::ServerError));
}

#[test]
fn send_email_times_out_if_server_takes_too_long() {
    let client = email_client("http://127.0.0.1:8025".to_string());
    assert_eq!(client.timeout_secs(), 10);
    assert_eq!(REQUEST_TIMEOUT_SECS, 10);
    let outcome = DeliveryResponse::TimedOut.into_result();
    assert!(outcome.is_err());
    assert_eq!(outcome, Err(DeliveryError::Timeout));
}

#[test]
fn send_email_fails_if_the_server_cannot_be_reached() {
    assert_eq!(DeliveryResponse::Unreachable.into_result(), Err(DeliveryError::Transport));
}

#[test]
fn every_status_of_an_error_is_a_server_error() {
    for code in 0..=u16::MAX {
        let expected = if (400..=599).contains(&code) {
            Err(DeliveryError::ServerError)
        } else {
            Ok(())
        };
        assert_eq!(DeliveryResponse::Status(code).into_result(), expected, "{}", code);
    }
}

#[test]
fn every_status_of_success_is_a_delivery() {
    for code in 200..=299u16 {
        assert_eq!(DeliveryResponse::Status(code).into_result(), Ok(()));
    }
}

#[test]
fn the_token_is_sent_as_a_bearer_token() {
    assert_eq!(request().authorization, "Bearer a-token-for-tests");
}

#[test]
fn the_body_names_sender_recipient_subject_and_both_contents() {
    let client = email_client("https://mail.example.org/v3".to_string());
    let request =
        client.send_email(email(), "Welcome!", "<p>Hello, \"reader\"</p>", "Hello,\nreader");
    assert_eq!(request.url, "https://mail.example.org/v3/mail/send");
    assert_eq!(
        request.body,
        "{\"from\":{\"email\":\"letters@example.com\"},\
         \"personalizations\":[{\"to\":[{\"email\":\"reader@example.net\"}]}],\
         \"subject\":\"Welcome!\",\
         \"content\":[{\"type\":\"text/plain\",\"value\":\"Hello,\\nreader\"},\
         {\"type\":\"text/html\",\"value\":\"<p>Hello, \\\"reader\\\"</p>\"}]}"
    );
}

#[test]
fn the_body_is_read_back_field_by_field() {
    let body: serde_json::Value = serde_json::from_str(&request().body).unwrap();
    assert_eq!(body["from"]["email"], "letters@example.com");
    assert_eq!(body["personalizations"].as_array().unwrap().len(), 1);
    assert_eq!(body["personalizations"][0]["to"].as_array().unwrap().len(), 1);
    assert_eq!(body["personalizations"][0]["to"][0]["email"], "reader@example.net");
    assert_eq!(body["subject"], subject().as_str());
    assert_eq!(body["content"].as_array().unwrap().len(), 2);
    assert_eq!(body["content"][0]["type"], "text/plain");
    assert_eq!(body["content"][0]["value"], content().as_str());
    assert_eq!(body["content"][1]["type"], "text/html");
    assert_eq!(body["content"][1]["value"], content().as_str());
    assert_eq!(body.as_object().unwrap().len(), 4);
}

#[test]
fn plain_text_comes_first_and_html_second() {
    let client = email_client("http://localhost".to_string());
    let request = client.send_email(email(), "s", "the html", "the text");
    let body: serde_json::Value = serde_json::from_str(&request.body).unwrap();
    assert_eq!(body["content"][0]["value"], "the text");
    assert_eq!(body["content"][1]["value"], "the html");
}

#[test]
fn the_body_is_written_from_texts() {
    let body = write_send_email_body("a@b.c", "d@e.f", "s", "t", "h");
    assert_eq!(
        body,
        "{\"from\":{\"email\":\"a@b.c\"},\"personalizations\":[{\"to\":[{\"email\":\"d@e.f\"}]}],\
         \"subject\":\"s\",\"content\":[{\"type\":\"text/plain\",\"value\":\"t\"},\
         {\"type\":\"text/html\",\"value\":\"h\"}]}"
    );
}

#[test]
fn shaping_a_request_twice_gives_the_same_request() {
    assert_eq!(request(), request());
}
