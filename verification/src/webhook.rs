//! The webhook that opens the garage door: when it may be fired, how its
//! HTTP status is judged, and what the client is told.

use vstd::prelude::*;
use vstd::string::*;

verus! {

/// Seconds the HTTP client waits for the webhook.
pub const WEBHOOK_TIMEOUT_SECS: u64 = 10;

/// The JSON body posted to the webhook.
pub fn webhook_body() -> (r: &'static str)
    ensures
        r@ == "{\"action\": \"open_garage\"}"@,
{
    "{\"action\": \"open_garage\"}"
}

/// Why the webhook did not open the door.
#[derive(Debug)]
pub enum WebhookError {
    /// No URL is configured.
    NotConfigured,
    /// The server answered with a non-success status, shown as given.
    Status(String),
    /// The request failed; the HTTP client's message.
    Transport(String),
}

pub open spec fn webhook_error_text(e: WebhookError) -> Seq<char> {
    match e {
        WebhookError::NotConfigured => "Webhook URL not configured"@,
        WebhookError::Status(s) => "Webhook returned status "@ + s@,
        WebhookError::Transport(m) => m@,
    }
}

impl WebhookError {
    /// The error's message.
    pub fn message(&self) -> (r: String)
        ensures
            r@ == webhook_error_text(*self),
    {
        match self {
            WebhookError::NotConfigured => String::from_str("Webhook URL not configured"),
            WebhookError::Status(s) => {
                let mut m = String::from_str("Webhook returned status ");
                m.append(s.as_str());
                m
            },
            WebhookError::Transport(m) => m.clone(),
        }
    }
}

/// Whether the webhook may be fired: only with a configured URL.
pub fn check_webhook_url(url: &str) -> (r: Result<(), WebhookError>)
    ensures
        r is Ok <==> url@.len() > 0,
        r is Err ==> r == Err::<(), WebhookError>(WebhookError::NotConfigured),
{
    if url.is_empty() {
        Err(WebhookError::NotConfigured)
    } else {
        Ok(())
    }
}

/// Judges the webhook's HTTP status: 200 to 299 is a success; any other
/// status is an error showing `status_text` (the status as written by the
/// HTTP client).
pub fn webhook_status_outcome(status: u16, status_text: String) -> (r: Result<(), WebhookError>)
    ensures
        r is Ok <==> 200 <= status <= 299,
        r is Err ==> (r matches Err(WebhookError::Status(t)) && t == status_text),
{
    if 200 <= status && status <= 299 {
        Ok(())
    } else {
        Err(WebhookError::Status(status_text))
    }
}

/// What the client is told after the webhook was fired.
pub open spec fn webhook_response_text(outcome: Result<(), WebhookError>) -> Seq<char> {
    match outcome {
        Ok(()) => "SUCCESS: Garage door opening!\n"@,
        Err(e) => "FAIL: Webhook error: "@ + webhook_error_text(e) + "\n"@,
    }
}

/// The response to the client once the webhook was fired.
pub fn webhook_response(outcome: &Result<(), WebhookError>) -> (r: String)
    ensures
        r@ == webhook_response_text(*outcome),
{
    match outcome {
        Ok(()) => String::from_str("SUCCESS: Garage door opening!\n"),
        Err(e) => {
            let mut s = String::from_str("FAIL: Webhook error: ");
            let m = e.message();
            s.append(m.as_str());
            s.append("\n");
            s
        },
    }
}

} // verus!
