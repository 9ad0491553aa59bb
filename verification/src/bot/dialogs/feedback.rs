//! The feedback dialog.

use vstd::prelude::*;

use crate::bot::dialogs::{entity_of, Command, Dialog, Step};
use crate::bot::error::{BotError, BotErrorView};
use crate::bot::reply::{failed, said, Outcome, OutcomeView, Reply, ReplyView, Turn};
use crate::store::{with_dialog, Store, UserView, UNKNOWN_DIALOG_OWNER};
use crate::text::same_text;
use vstd::string::StringExecFns;

verus! {

/// The steps of the feedback dialog.
#[derive(Debug, Clone, Copy, PartialEq, Eq, Hash, Structural)]
pub enum Feedback {
    /// The user asked to give feedback: the first step.
    Start,
    /// The user has been asked to write it: the last step.
    Input,
}

impl Step for Feedback {
    open spec fn name(self) -> Seq<char> {
        match self {
            Feedback::Start => "Start"@,
            Feedback::Input => "Input"@,
        }
    }

    open spec fn named(name: Seq<char>) -> Option<Self> {
        if name == "Start"@ {
            Some(Feedback::Start)
        } else if name == "Input"@ {
            Some(Feedback::Input)
        } else {
            None
        }
    }

    fn parse(name: &str) -> (r: Option<Self>) {
        if same_text(name, "Start") {
            Some(Feedback::Start)
        } else if same_text(name, "Input") {
            Some(Feedback::Input)
        } else {
            None
        }
    }

    fn to_string(&self) -> (r: String) {
        match self {
            Feedback::Start => "Start".to_owned(),
            Feedback::Input => "Input".to_owned(),
        }
    }
}

impl Dialog<Feedback> {
    /// The feedback dialog at its first step.
    pub fn new() -> (r: Self)
        ensures
            r == (Dialog::<Feedback> {
                command: Command::Feedback,
                current_step: Some(Feedback::Start),
            }),
    {
        Dialog { command: Command::Feedback, current_step: Some(Feedback::Start) }
    }

    /// The feedback dialog at `current_step`.
    pub fn new_with(current_step: Feedback) -> (r: Self)
        ensures
            r == (Dialog::<Feedback> {
                command: Command::Feedback,
                current_step: Some(current_step),
            }),
    {
        Dialog { command: Command::Feedback, current_step: Some(current_step) }
    }

    /// The step that the dialog starts at.
    pub fn initial_step() -> (r: Feedback)
        ensures
            r == Feedback::Start,
    {
        Feedback::Start
    }
}

/// The invitation to write feedback.
pub const FEEDBACK_TEXT: &'static str =
    "You can write your feedback. If you want the author to get back to you, leave your email. Or you can contact the author via telegram: @privalou Übermensch appoach is creating issue at github.com/privalou/expenses-bot";

/// What a stranger hears on asking to give feedback.
pub const REGISTRATION_REQUIRED: &'static str =
    "Only available for registered users. Use /start to register.";

/// The thanks to `id` for their feedback.
pub open spec fn thanks(id: Seq<char>) -> Seq<char> {
    "Thanks, "@ + id + ", for you priceless feedback!"@
}

/// The outcome that thanks `id` and hands `payload` on as feedback.
pub open spec fn thanked(id: Seq<char>, payload: Seq<char>) -> OutcomeView {
    OutcomeView {
        reply: Some(ReplyView { text: thanks(id), reply_markup: None }),
        error: None,
        feedback: Some(payload),
    }
}

/// One step of the feedback dialog.
///
/// At the first step a stranger is told to register, and nothing changes; a
/// registered user is invited to write and stands at the input from then on.
/// At the input the payload is the feedback: the user is thanked and the
/// dialog ends.
pub open spec fn feedback_turn(
    users: Map<Seq<char>, UserView>,
    step: Option<Feedback>,
    id: Seq<char>,
    payload: Seq<char>,
) -> Turn {
    match step {
        Some(Feedback::Input) => if users.contains_key(id) {
            Turn { users: with_dialog(users, id, None), outcome: thanked(id, payload) }
        } else {
            Turn {
                users: users,
                outcome: failed(BotErrorView::StoreError(UNKNOWN_DIALOG_OWNER@)),
            }
        },
        _ => if users.contains_key(id) {
            Turn {
                users: with_dialog(
                    users,
                    id,
                    Some(entity_of(Command::Feedback, Feedback::Input)),
                ),
                outcome: said(FEEDBACK_TEXT@),
            }
        } else {
            Turn { users: users, outcome: said(REGISTRATION_REQUIRED@) }
        },
    }
}

impl Dialog<Feedback> {
    /// Takes the dialog one step on with `payload` from `user_id`: changes
    /// the store and says what to answer.
    pub fn handle_current_step(&self, store: &mut Store, user_id: &str, payload: &str) -> (out:
        Outcome)
        requires
            old(store).wf(),
        ensures
            final(store).wf(),
            final(store)@ == feedback_turn(
                old(store)@,
                self.current_step,
                user_id@,
                payload@,
            ).users,
            out@ == feedback_turn(old(store)@, self.current_step, user_id@, payload@).outcome,
    {
        match self.current_step {
            Some(Feedback::Input) => {
                match store.update_dialog(None, user_id) {
                    Ok(()) => {
                        let mut text = String::from_str("Thanks, ");
                        text.append(user_id);
                        text.append(", for you priceless feedback!");
                        Outcome {
                            reply: Some(Reply::plain(text)),
                            error: None,
                            feedback: Some(payload.to_owned()),
                        }
                    },
                    Err(error) => Outcome::fail(BotError::StoreError(error)),
                }
            },
            _ => {
                if store.is_registered(user_id) {
                    let entity = Dialog::<Feedback>::entity(Command::Feedback, Feedback::Input);
                    match store.update_dialog(Some(entity), user_id) {
                        Ok(()) => Outcome::say(FEEDBACK_TEXT.to_owned()),
                        Err(error) => Outcome::fail(BotError::StoreError(error)),
                    }
                } else {
                    Outcome::say(REGISTRATION_REQUIRED.to_owned())
                }
            },
        }
    }
}

} // verus!
