//! The failures that handling a message can end in.

use vstd::prelude::*;
use vstd::string::StringExecFns;

use crate::store::error::StoreError;
use crate::telegram::error::{TelegramError, TelegramErrorView};

verus! {

/// Why a message could not be handled as asked.
#[derive(Debug)]
pub enum BotError {
    /// The gateway failed to deliver the reply.
    TelegramError(TelegramError),
    /// The persisted dialog names a command that opens no dialog.
    CustomError(String),
    /// The store refused a change.
    StoreError(StoreError),
    /// The text, held here, was expected to be a number and is none. The
    /// user has been told so already.
    ParsingError(String),
}

/// A failure with its texts as plain values.
pub enum BotErrorView {
    TelegramError(TelegramErrorView),
    CustomError(Seq<char>),
    StoreError(Seq<char>),
    ParsingError(Seq<char>),
}

impl View for BotError {
    type V = BotErrorView;

    open spec fn view(&self) -> BotErrorView {
        match self {
            BotError::TelegramError(error) => BotErrorView::TelegramError(error@),
            BotError::CustomError(text) => BotErrorView::CustomError(text@),
            BotError::StoreError(error) => BotErrorView::StoreError(error@),
            BotError::ParsingError(text) => BotErrorView::ParsingError(text@),
        }
    }
}

/// The view of an optional failure.
pub open spec fn opt_error(error: Option<BotError>) -> Option<BotErrorView> {
    match error {
        Some(e) => Some(e@),
        None => None,
    }
}

/// What a failure to read `text` as a number says of itself.
pub open spec fn parsing_message(text: Seq<char>) -> Seq<char> {
    "invalid number: "@ + text
}

impl BotError {
    /// The message of the failure.
    pub fn to_string(&self) -> (r: String)
        ensures
            match self@ {
                BotErrorView::TelegramError(TelegramErrorView::Unsuccessful(answer)) => r@
                    == answer,
                BotErrorView::TelegramError(_) => true,
                BotErrorView::CustomError(text) => r@ == text,
                BotErrorView::StoreError(text) => r@ == text,
                BotErrorView::ParsingError(text) => r@ == parsing_message(text),
            },
    {
        match self {
            BotError::TelegramError(error) => error.to_string(),
            BotError::CustomError(text) => text.clone(),
            BotError::StoreError(error) => error.to_string(),
            BotError::ParsingError(text) => {
                let mut message = String::from_str("invalid number: ");
                message.append(text.as_str());
                message
            },
        }
    }

    /// Whether the user still has to be told that something went wrong. A
    /// text that was no number has been answered in the dialog itself; every
    /// other failure has not.
    pub fn needs_notice(&self) -> (r: bool)
        ensures
            r == !(self is ParsingError),
    {
        match self {
            BotError::ParsingError(_) => false,
            _ => true,
        }
    }
}

impl vstd::std_specs::convert::FromSpecImpl<TelegramError> for BotError {
    open spec fn obeys_from_spec() -> bool {
        true
    }

    open spec fn from_spec(error: TelegramError) -> Self {
        BotError::TelegramError(error)
    }
}

impl From<TelegramError> for BotError {
    fn from(error: TelegramError) -> (r: Self) {
        BotError::TelegramError(error)
    }
}

impl vstd::std_specs::convert::FromSpecImpl<StoreError> for BotError {
    open spec fn obeys_from_spec() -> bool {
        true
    }

    open spec fn from_spec(error: StoreError) -> Self {
        BotError::StoreError(error)
    }
}

impl From<StoreError> for BotError {
    fn from(error: StoreError) -> (r: Self) {
        BotError::StoreError(error)
    }
}

impl vstd::std_specs::convert::FromSpecImpl<String> for BotError {
    open spec fn obeys_from_spec() -> bool {
        true
    }

    open spec fn from_spec(error_text: String) -> Self {
        BotError::CustomError(error_text)
    }
}

impl From<String> for BotError {
    fn from(error_text: String) -> (r: Self) {
        BotError::CustomError(error_text)
    }
}

} // verus!
