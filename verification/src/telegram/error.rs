//! What can go wrong between the bot and the chat platform.

use vstd::prelude::*;

verus! {

/// `reqwest::Error`: carried through, never read.
#[verifier::external_type_specification]
#[verifier::external_body]
pub struct ExReqwestError(reqwest::Error);

/// `serde_json::Error`: carried through, never read.
#[verifier::external_type_specification]
#[verifier::external_body]
pub struct ExSerdeError(serde_json::Error);

/// A failure of the gateway.
#[derive(Debug)]
pub enum TelegramError {
    /// The request did not get through.
    NetworkError(reqwest::Error),
    /// The platform answered what is no JSON document.
    MalformedResponse(serde_json::Error),
    /// The platform refused the request; the text is its answer.
    Unsuccessful(String),
}

/// A failure of the gateway, with its text as plain values.
pub enum TelegramErrorView {
    NetworkError(reqwest::Error),
    MalformedResponse(serde_json::Error),
    Unsuccessful(Seq<char>),
}

impl View for TelegramError {
    type V = TelegramErrorView;

    open spec fn view(&self) -> TelegramErrorView {
        match self {
            TelegramError::NetworkError(error) => TelegramErrorView::NetworkError(*error),
            TelegramError::MalformedResponse(error) => TelegramErrorView::MalformedResponse(*error),
            TelegramError::Unsuccessful(answer) => TelegramErrorView::Unsuccessful(answer@),
        }
    }
}

impl TelegramError {
    /// The message of the failure. For a refused request it is the
    /// platform's answer; for the other two it is what the outside error
    /// says of itself.
    pub fn to_string(&self) -> (r: String)
        ensures
            self@ matches TelegramErrorView::Unsuccessful(answer) ==> r@ == answer,
    {
        match self {
            TelegramError::NetworkError(error) => network_error_text(error),
            TelegramError::MalformedResponse(error) => malformed_response_text(error),
            TelegramError::Unsuccessful(answer) => answer.clone(),
        }
    }
}

/// What `reqwest::Error` shows of itself through `Display`. Nothing is
/// claimed of the text.
#[verifier::external_body]
fn network_error_text(error: &reqwest::Error) -> (r: String) {
    error.to_string()
}

/// What `serde_json::Error` shows of itself through `Display`. Nothing is
/// claimed of the text.
#[verifier::external_body]
fn malformed_response_text(error: &serde_json::Error) -> (r: String) {
    error.to_string()
}

impl vstd::std_specs::convert::FromSpecImpl<reqwest::Error> for TelegramError {
    open spec fn obeys_from_spec() -> bool {
        true
    }

    open spec fn from_spec(error: reqwest::Error) -> Self {
        TelegramError::NetworkError(error)
    }
}

impl From<reqwest::Error> for TelegramError {
    fn from(error: reqwest::Error) -> (r: Self) {
        TelegramError::NetworkError(error)
    }
}

impl vstd::std_specs::convert::FromSpecImpl<serde_json::Error> for TelegramError {
    open spec fn obeys_from_spec() -> bool {
        true
    }

    open spec fn from_spec(error: serde_json::Error) -> Self {
        TelegramError::MalformedResponse(error)
    }
}

impl From<serde_json::Error> for TelegramError {
    fn from(error: serde_json::Error) -> (r: Self) {
        TelegramError::MalformedResponse(error)
    }
}

impl vstd::std_specs::convert::FromSpecImpl<String> for TelegramError {
    open spec fn obeys_from_spec() -> bool {
        true
    }

    open spec fn from_spec(error: String) -> Self {
        TelegramError::Unsuccessful(error)
    }
}

impl From<String> for TelegramError {
    fn from(error: String) -> (r: Self) {
        TelegramError::Unsuccessful(error)
    }
}

} // verus!
