//! The dialog that writes down an expense.

use vstd::prelude::*;

use crate::bot::dialogs::{entity_of, Command, Dialog, Step};
use crate::bot::error::{BotError, BotErrorView};
use crate::bot::reply::{failed, said, Outcome, OutcomeView, Reply, ReplyView, Turn};
use crate::store::history::{
    has_open, ledger_patched, ledger_saved, open_record, Amount, ExpenseRecordPatch,
    NO_OPEN_RECORD,
};
use crate::store::{
    missing_user_message, with_dialog, with_history, Store, UserView, UNKNOWN_DIALOG_OWNER,
};
use crate::text::same_text;
use vstd::string::StringExecFns;

verus! {

/// The steps of the dialog that writes down an expense.
#[derive(Debug, Clone, Copy, PartialEq, Eq, Hash, Structural)]
pub enum Add {
    /// The user has been asked for the amount: the first step.
    Amount,
    /// The user has been asked for the category: the last step.
    Category,
}

impl Step for Add {
    open spec fn name(self) -> Seq<char> {
        match self {
            Add::Amount => "Amount"@,
            Add::Category => "Category"@,
        }
    }

    open spec fn named(name: Seq<char>) -> Option<Self> {
        if name == "Amount"@ {
            Some(Add::Amount)
        } else if name == "Category"@ {
            Some(Add::Category)
        } else {
            None
        }
    }

    fn parse(name: &str) -> (r: Option<Self>) {
        if same_text(name, "Amount") {
            Some(Add::Amount)
        } else if same_text(name, "Category") {
            Some(Add::Category)
        } else {
            None
        }
    }

    fn to_string(&self) -> (r: String) {
        match self {
            Add::Amount => "Amount".to_owned(),
            Add::Category => "Category".to_owned(),
        }
    }
}

impl Default for Dialog<Add> {
    fn default() -> (r: Self)
        ensures
            r == (Dialog::<Add> { command: Command::Add, current_step: None }),
    {
        Self::new()
    }
}

impl Dialog<Add> {
    /// The dialog before the user has been asked anything.
    pub fn new() -> (r: Self)
        ensures
            r == (Dialog::<Add> { command: Command::Add, current_step: None }),
    {
        Dialog { command: Command::Add, current_step: None }
    }

    /// The dialog at `current_step`.
    pub fn new_with(current_step: Add) -> (r: Self)
        ensures
            r == (Dialog::<Add> { command: Command::Add, current_step: Some(current_step) }),
    {
        Dialog { command: Command::Add, current_step: Some(current_step) }
    }

    /// The step that the dialog starts at.
    pub fn initial_step() -> (r: Add)
        ensures
            r == Add::Amount,
    {
        Add::Amount
    }
}

/// The request for the amount.
pub const AMOUNT_PROMPT: &'static str = "Write amount of money you have spent";

/// The word that the expense is written down.
pub const RECORD_SAVED: &'static str = "Record has been saved";

/// The view of an optional amount.
pub open spec fn opt_amount(amount: Option<Amount>) -> Option<Seq<char>> {
    match amount {
        Some(a) => Some(a@),
        None => None,
    }
}

/// The request for the category of an expense of `amount`.
pub open spec fn category_prompt(amount: Seq<char>) -> Seq<char> {
    "Write a category where you have spent "@ + amount + "."@
}

/// The word that `payload` is no number.
pub open spec fn not_a_number(payload: Seq<char>) -> Seq<char> {
    "Can not parse: "@ + payload + " to number. Try /add again."@
}

/// The outcome of a payload that is no number: the user is told so, and the
/// caller hears of it as a failure that needs no further notice.
pub open spec fn corrected(payload: Seq<char>) -> OutcomeView {
    OutcomeView {
        reply: Some(ReplyView { text: not_a_number(payload), reply_markup: None }),
        error: Some(BotErrorView::ParsingError(payload)),
        feedback: None,
    }
}

/// One step of the dialog that writes down an expense. `amount` is the
/// payload read as a number, where it reads as one.
///
/// Before the first step the user is asked for the amount. At the amount, a
/// payload that is a number opens a record of that amount as of `time_stamp`
/// and the user is asked for the category; one that is none is answered with
/// a correction, and nothing changes. At the category the open record takes
/// the payload as its category and the dialog ends.
pub open spec fn add_turn(
    users: Map<Seq<char>, UserView>,
    step: Option<Add>,
    id: Seq<char>,
    payload: Seq<char>,
    amount: Option<Seq<char>>,
    time_stamp: i64,
) -> Turn {
    match step {
        None => if users.contains_key(id) {
            Turn {
                users: with_dialog(users, id, Some(entity_of(Command::Add, Add::Amount))),
                outcome: said(AMOUNT_PROMPT@),
            }
        } else {
            Turn {
                users: users,
                outcome: failed(BotErrorView::StoreError(UNKNOWN_DIALOG_OWNER@)),
            }
        },
        Some(Add::Amount) => match amount {
            Some(value) => if users.contains_key(id) {
                Turn {
                    users: with_dialog(
                        with_history(
                            users,
                            id,
                            ledger_saved(users[id].history, open_record(value), time_stamp),
                        ),
                        id,
                        Some(entity_of(Command::Add, Add::Category)),
                    ),
                    outcome: said(category_prompt(value)),
                }
            } else {
                Turn {
                    users: users,
                    outcome: failed(BotErrorView::StoreError(missing_user_message(id))),
                }
            },
            None => Turn { users: users, outcome: corrected(payload) },
        },
        Some(Add::Category) => if users.contains_key(id) && has_open(users[id].history) {
            Turn {
                users: with_dialog(
                    with_history(
                        users,
                        id,
                        ledger_patched(users[id].history, Some(payload), time_stamp),
                    ),
                    id,
                    None,
                ),
                outcome: said(RECORD_SAVED@),
            }
        } else {
            Turn {
                users: users,
                outcome: failed(
                    BotErrorView::StoreError(
                        if users.contains_key(id) {
                            NO_OPEN_RECORD@
                        } else {
                            missing_user_message(id)
                        },
                    ),
                ),
            }
        },
    }
}

impl Dialog<Add> {
    /// Takes the dialog one step on with `payload` from `user_id`, at the
    /// time `time_stamp`: changes the store and says what to answer.
    /// `amount` is the payload read as a number, or `None` where it is none.
    pub fn handle_current_step(
        &self,
        store: &mut Store,
        user_id: &str,
        payload: &str,
        amount: Option<Amount>,
        time_stamp: i64,
    ) -> (out: Outcome)
        requires
            old(store).wf(),
        ensures
            final(store).wf(),
            final(store)@ == add_turn(
                old(store)@,
                self.current_step,
                user_id@,
                payload@,
                opt_amount(amount),
                time_stamp,
            ).users,
            out@ == add_turn(
                old(store)@,
                self.current_step,
                user_id@,
                payload@,
                opt_amount(amount),
                time_stamp,
            ).outcome,
    {
        match self.current_step {
            None => {
                let entity = Dialog::<Add>::entity(Command::Add, Add::Amount);
                match store.update_dialog(Some(entity), user_id) {
                    Ok(()) => Outcome::say(AMOUNT_PROMPT.to_owned()),
                    Err(error) => Outcome::fail(BotError::StoreError(error)),
                }
            },
            Some(Add::Amount) => {
                match amount {
                    Some(value) => {
                        let mut text = String::from_str("Write a category where you have spent ");
                        text.append(value.as_str());
                        text.append(".");
                        match store.add_expense_record_at(user_id, value, time_stamp) {
                            Ok(_) => {
                                let entity = Dialog::<Add>::entity(Command::Add, Add::Category);
                                match store.update_dialog(Some(entity), user_id) {
                                    Ok(()) => Outcome::say(text),
                                    Err(error) => Outcome::fail(BotError::StoreError(error)),
                                }
                            },
                            Err(error) => Outcome::fail(BotError::StoreError(error)),
                        }
                    },
                    None => {
                        let mut text = String::from_str("Can not parse: ");
                        text.append(payload);
                        text.append(" to number. Try /add again.");
                        Outcome {
                            reply: Some(Reply::plain(text)),
                            error: Some(BotError::ParsingError(payload.to_owned())),
                            feedback: None,
                        }
                    },
                }
            },
            Some(Add::Category) => {
                let patch = ExpenseRecordPatch::new(Some(payload.to_owned()));
                match store.update_latest_record_at(user_id, patch, time_stamp) {
                    Ok(()) => {
                        match store.update_dialog(None, user_id) {
                            Ok(()) => Outcome::say(RECORD_SAVED.to_owned()),
                            Err(error) => Outcome::fail(BotError::StoreError(error)),
                        }
                    },
                    Err(error) => Outcome::fail(BotError::StoreError(error)),
                }
            },
        }
    }
}

} // verus!
