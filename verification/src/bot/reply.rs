//! What handling a message leads to: the reply and the report.

use vstd::prelude::*;

use crate::bot::error::{opt_error, BotError, BotErrorView};
use crate::store::UserView;
use crate::telegram::types::{ButtonView, Message, ReplyMarkup};
use crate::text::opt_text;

verus! {

/// A message for the user: its text and the controls under it.
#[derive(Debug)]
pub struct Reply {
    pub text: String,
    pub reply_markup: Option<ReplyMarkup>,
}

/// A reply as plain values.
pub struct ReplyView {
    pub text: Seq<char>,
    pub reply_markup: Option<Seq<Seq<ButtonView>>>,
}

/// The view of optional controls.
pub open spec fn opt_markup(markup: Option<ReplyMarkup>) -> Option<Seq<Seq<ButtonView>>> {
    match markup {
        Some(m) => Some(m@),
        None => None,
    }
}

impl View for Reply {
    type V = ReplyView;

    open spec fn view(&self) -> ReplyView {
        ReplyView { text: self.text@, reply_markup: opt_markup(self.reply_markup) }
    }
}

/// The view of an optional reply.
pub open spec fn opt_reply(reply: Option<Reply>) -> Option<ReplyView> {
    match reply {
        Some(r) => Some(r@),
        None => None,
    }
}

impl Reply {
    /// A reply of `text` without controls.
    pub fn plain(text: String) -> (r: Reply)
        ensures
            r@ == (ReplyView { text: text@, reply_markup: None }),
    {
        Reply { text, reply_markup: None }
    }

    /// The reply as a message to the chat `chat_id`, with notifications and
    /// link previews left on.
    pub fn to_message<'a>(&'a self, chat_id: &'a str) -> (r: Message<'a>)
        ensures
            r.chat_id@ == chat_id@,
            r.text@ == self@.text,
            !r.disable_notification,
            !r.disable_web_page_preview,
            match r.reply_markup {
                Some(markup) => self@.reply_markup == Some(markup@),
                None => self@.reply_markup is None,
            },
    {
        Message {
            chat_id,
            text: self.text.as_str(),
            disable_notification: false,
            disable_web_page_preview: false,
            reply_markup: self.reply_markup.as_ref(),
        }
    }
}

/// What became of one inbound message.
#[derive(Debug)]
pub struct Outcome {
    /// What to send to the user. There is none only where `error` says why.
    pub reply: Option<Reply>,
    /// The failure to report to the caller; `None` when the message was
    /// handled as asked.
    pub error: Option<BotError>,
    /// What the user wrote as feedback, for whoever collects it.
    pub feedback: Option<String>,
}

/// An outcome as plain values.
pub struct OutcomeView {
    pub reply: Option<ReplyView>,
    pub error: Option<BotErrorView>,
    pub feedback: Option<Seq<char>>,
}

impl View for Outcome {
    type V = OutcomeView;

    open spec fn view(&self) -> OutcomeView {
        OutcomeView {
            reply: opt_reply(self.reply),
            error: opt_error(self.error),
            feedback: opt_text(self.feedback),
        }
    }
}

/// The outcome that answers with `text` and reports no failure.
pub open spec fn said(text: Seq<char>) -> OutcomeView {
    OutcomeView {
        reply: Some(ReplyView { text: text, reply_markup: None }),
        error: None,
        feedback: None,
    }
}

/// The outcome that answers nothing and reports `error`.
pub open spec fn failed(error: BotErrorView) -> OutcomeView {
    OutcomeView { reply: None, error: Some(error), feedback: None }
}

impl Outcome {
    /// Answers with `text`.
    pub fn say(text: String) -> (r: Outcome)
        ensures
            r@ == said(text@),
    {
        Outcome { reply: Some(Reply::plain(text)), error: None, feedback: None }
    }

    /// Answers nothing and reports `error`.
    pub fn fail(error: BotError) -> (r: Outcome)
        ensures
            r@ == failed(error@),
    {
        Outcome { reply: None, error: Some(error), feedback: None }
    }
}

/// The store and the outcome after one message.
pub struct Turn {
    pub users: Map<Seq<char>, UserView>,
    pub outcome: OutcomeView,
}

} // verus!
