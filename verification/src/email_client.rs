//! The client of the email delivery service: what it asks of the service,
//! and what it makes of the answer. The exchange itself is left to the
//! caller.

use crate::domain::subscriber_email::SubscriberEmail;
use crate::json::{json_string, push_json_string};
use vstd::prelude::*;

verus! {

/// The time a delivery request may take, in seconds.
pub const REQUEST_TIMEOUT_SECS: u64 = 10;

/// The body of a delivery request: one sender, one recipient, a subject,
/// and the content twice, as plain text first and as HTML second.
pub open spec fn send_email_body(
    sender: Seq<char>,
    recipient: Seq<char>,
    subject: Seq<char>,
    text: Seq<char>,
    html: Seq<char>,
) -> Seq<char> {
    "{\"from\":{\"email\":"@ + json_string(sender)
        + "},\"personalizations\":[{\"to\":[{\"email\":"@ + json_string(recipient)
        + "}]}],\"subject\":"@ + json_string(subject)
        + ",\"content\":[{\"type\":\"text/plain\",\"value\":"@ + json_string(text)
        + "},{\"type\":\"text/html\",\"value\":"@ + json_string(html) + "}]}"@
}

/// Writes the body of a delivery request.
pub fn write_send_email_body(
    sender: &str,
    recipient: &str,
    subject: &str,
    text: &str,
    html: &str,
) -> (body: String)
    ensures
        body@ == send_email_body(sender@, recipient@, subject@, text@, html@),
{
    let mut body = "{\"from\":{\"email\":".to_owned();
    push_json_string(&mut body, sender);
    body.append("},\"personalizations\":[{\"to\":[{\"email\":");
    push_json_string(&mut body, recipient);
    body.append("}]}],\"subject\":");
    push_json_string(&mut body, subject);
    body.append(",\"content\":[{\"type\":\"text/plain\",\"value\":");
    push_json_string(&mut body, text);
    body.append("},{\"type\":\"text/html\",\"value\":");
    push_json_string(&mut body, html);
    body.append("}]}");
    body
}

/// One request to the delivery service, ready to be sent.
#[derive(Debug, Clone, PartialEq, Eq)]
pub struct DeliveryRequest {
    /// The HTTP method.
    pub method: String,
    /// The address the request goes to.
    pub url: String,
    /// The value of the `Authorization` header.
    pub authorization: String,
    /// The value of the `Content-Type` header.
    pub content_type: String,
    /// The body.
    pub body: String,
}

/// What a [`DeliveryRequest`] holds, as texts.
pub struct DeliveryRequestView {
    pub method: Seq<char>,
    pub url: Seq<char>,
    pub authorization: Seq<char>,
    pub content_type: Seq<char>,
    pub body: Seq<char>,
}

impl View for DeliveryRequest {
    type V = DeliveryRequestView;

    open spec fn view(&self) -> DeliveryRequestView {
        DeliveryRequestView {
            method: self.method@,
            url: self.url@,
            authorization: self.authorization@,
            content_type: self.content_type@,
            body: self.body@,
        }
    }
}

/// How an exchange with the delivery service ended.
#[derive(Debug, Clone, Copy, PartialEq, Eq)]
pub enum DeliveryResponse {
    /// The service answered, with this status code.
    Status(u16),
    /// No answer came within the time allowed.
    TimedOut,
    /// The service could not be reached.
    Unreachable,
}

/// Why an email was not delivered.
#[derive(Debug, Clone, Copy, PartialEq, Eq)]
pub enum DeliveryError {
    /// The service could not be reached.
    Transport,
    /// No answer came within the time allowed.
    Timeout,
    /// The service answered with a status code of an error.
    ServerError,
}

/// The status codes that report an error of the client or of the server.
pub open spec fn is_error_status(code: u16) -> bool {
    400 <= code <= 599
}

/// What an exchange that ended in `response` means for the delivery: an
/// answer counts as success unless its status code reports an error.
pub open spec fn delivery_result(response: DeliveryResponse) -> Result<(), DeliveryError> {
    match response {
        DeliveryResponse::Status(code) => if is_error_status(code) {
            Err(DeliveryError::ServerError)
        } else {
            Ok(())
        },
        DeliveryResponse::TimedOut => Err(DeliveryError::Timeout),
        DeliveryResponse::Unreachable => Err(DeliveryError::Transport),
    }
}

impl DeliveryResponse {
    /// Reads the response as the result of the delivery.
    pub fn into_result(self) -> (r: Result<(), DeliveryError>)
        ensures
            r == delivery_result(self),
    {
        match self {
            DeliveryResponse::Status(code) => if 400 <= code && code <= 599 {
                Err(DeliveryError::ServerError)
            } else {
                Ok(())
            },
            DeliveryResponse::TimedOut => Err(DeliveryError::Timeout),
            DeliveryResponse::Unreachable => Err(DeliveryError::Transport),
        }
    }
}

/// The settings of the client: where the service is, who sends, and the
/// token that authorizes the requests.
pub struct EmailClient {
    base_url: String,
    sender: SubscriberEmail,
    authorization_token: String,
}

/// What an [`EmailClient`] holds, as texts.
pub struct EmailClientView {
    pub base_url: Seq<char>,
    pub sender: Seq<char>,
    pub authorization_token: Seq<char>,
}

/// The request that asks the service to deliver one email.
pub open spec fn send_email_request(
    client: EmailClientView,
    recipient: Seq<char>,
    subject: Seq<char>,
    html: Seq<char>,
    text: Seq<char>,
) -> DeliveryRequestView {
    DeliveryRequestView {
        method: "POST"@,
        url: client.base_url + "/mail/send"@,
        authorization: "Bearer "@ + client.authorization_token,
        content_type: "application/json"@,
        body: send_email_body(client.sender, recipient, subject, text, html),
    }
}

impl View for EmailClient {
    type V = EmailClientView;

    closed spec fn view(&self) -> EmailClientView {
        EmailClientView {
            base_url: self.base_url@,
            sender: self.sender@,
            authorization_token: self.authorization_token@,
        }
    }
}

impl EmailClient {
    /// Makes a client for the service at `base_url`.
    pub fn new(base_url: String, sender: SubscriberEmail, authorization_token: String) -> (r:
        EmailClient)
        ensures
            r@ == (EmailClientView {
                base_url: base_url@,
                sender: sender@,
                authorization_token: authorization_token@,
            }),
    {
        EmailClient { base_url, sender, authorization_token }
    }

    /// The time each request may take, in seconds.
    pub fn timeout_secs(&self) -> (r: u64)
        ensures
            r == REQUEST_TIMEOUT_SECS,
    {
        REQUEST_TIMEOUT_SECS
    }

    /// Shapes the request that delivers one email to `recipient`. The
    /// caller sends it, once, and reads the answer with
    /// [`DeliveryResponse::into_result`].
    pub fn send_email(
        &self,
        recipient: SubscriberEmail,
        subject: &str,
        html_content: &str,
        text_content: &str,
    ) -> (r: DeliveryRequest)
        ensures
            r@ == send_email_request(self@, recipient@, subject@, html_content@, text_content@),
    {
        let mut url = self.base_url.clone();
        url.append("/mail/send");
        let mut authorization = "Bearer ".to_owned();
        authorization.append(self.authorization_token.as_str());
        let body = write_send_email_body(
            self.sender.as_ref(),
            recipient.as_ref(),
            subject,
            text_content,
            html_content,
        );
        DeliveryRequest {
            method: "POST".to_owned(),
            url,
            authorization,
            content_type: "application/json".to_owned(),
            body,
        }
    }
}

} // verus!
