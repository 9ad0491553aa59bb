//! The registration dialog.

use vstd::prelude::*;

use crate::bot::dialogs::{Command, Dialog, Step};
use crate::bot::error::{BotError, BotErrorView};
use crate::bot::reply::{failed, said, Outcome, OutcomeView, Reply, ReplyView, Turn};
use crate::store::{
    missing_user, missing_user_message, with_currency, with_dialog, with_user, Store, UserView,
    EMPTY_USER_ID,
};
use crate::telegram::types::{
    button, row_view, ButtonView, InlineKeyboardButton, InlineKeyboardMarkup, ReplyMarkup,
};
use crate::text::{joined, same_text};

verus! {

/// The steps of the registration dialog.
#[derive(Debug, Clone, Copy, PartialEq, Eq, Hash, Structural)]
pub enum Start {
    /// Whether the user is registered is not known yet: the first step.
    UnknownRegistrationStatus,
    /// The user has been asked for a currency.
    CurrencySelection,
    /// The user was registered before: the last step.
    AlreadyRegistered,
}

impl Step for Start {
    open spec fn name(self) -> Seq<char> {
        match self {
            Start::UnknownRegistrationStatus => "UnknownRegistrationStatus"@,
            Start::CurrencySelection => "CurrencySelection"@,
            Start::AlreadyRegistered => "AlreadyRegistered"@,
        }
    }

    open spec fn named(name: Seq<char>) -> Option<Self> {
        if name == "UnknownRegistrationStatus"@ {
            Some(Start::UnknownRegistrationStatus)
        } else if name == "CurrencySelection"@ {
            Some(Start::CurrencySelection)
        } else if name == "AlreadyRegistered"@ {
            Some(Start::AlreadyRegistered)
        } else {
            None
        }
    }

    fn parse(name: &str) -> (r: Option<Self>) {
        if same_text(name, "UnknownRegistrationStatus") {
            Some(Start::UnknownRegistrationStatus)
        } else if same_text(name, "CurrencySelection") {
            Some(Start::CurrencySelection)
        } else if same_text(name, "AlreadyRegistered") {
            Some(Start::AlreadyRegistered)
        } else {
            None
        }
    }

    fn to_string(&self) -> (r: String) {
        match self {
            Start::UnknownRegistrationStatus => "UnknownRegistrationStatus".to_owned(),
            Start::CurrencySelection => "CurrencySelection".to_owned(),
            Start::AlreadyRegistered => "AlreadyRegistered".to_owned(),
        }
    }
}

impl Default for Dialog<Start> {
    fn default() -> (r: Self)
        ensures
            r == (Dialog::<Start> { command: Command::Start, current_step: None }),
    {
        Self::new()
    }
}

impl Dialog<Start> {
    /// The registration dialog before its first step.
    pub fn new() -> (r: Self)
        ensures
            r == (Dialog::<Start> { command: Command::Start, current_step: None }),
    {
        Dialog { command: Command::Start, current_step: None }
    }

    /// The registration dialog at `current_step`.
    pub fn new_with(current_step: Start) -> (r: Self)
        ensures
            r == (Dialog::<Start> { command: Command::Start, current_step: Some(current_step) }),
    {
        Dialog { command: Command::Start, current_step: Some(current_step) }
    }

    /// The step that the dialog starts at.
    pub fn initial_step() -> (r: Start)
        ensures
            r == Start::UnknownRegistrationStatus,
    {
        Start::UnknownRegistrationStatus
    }
}

/// What a user who is registered hears on asking to register.
pub const ALREADY_REGISTERED: &'static str =
    "You are already registered. Use /help to see list of available commands.";

/// The request to pick a currency.
pub const CHOOSE_CURRENCY: &'static str = "Choose your currency";

/// The currencies on offer: one row of three buttons.
pub open spec fn currency_keyboard() -> Seq<Seq<ButtonView>> {
    seq![seq![button("₽"@), button("$"@), button("€"@)]]
}

/// The outcome that asks a new user for a currency.
pub open spec fn asked_currency() -> OutcomeView {
    OutcomeView {
        reply: Some(ReplyView { text: CHOOSE_CURRENCY@, reply_markup: Some(currency_keyboard()) }),
        error: None,
        feedback: None,
    }
}

/// The confirmation of the currency `payload`.
pub open spec fn currency_confirmation(payload: Seq<char>) -> Seq<char> {
    "Your currency is "@ + payload
}

/// The store without the dialog of `id`; as it is for a stranger.
pub open spec fn discarded(users: Map<Seq<char>, UserView>, id: Seq<char>) -> Map<
    Seq<char>,
    UserView,
> {
    if users.contains_key(id) {
        with_dialog(users, id, None)
    } else {
        users
    }
}

/// One step of the registration dialog.
///
/// At the first step a stranger is registered and asked for a currency, and
/// stands at the choice of a currency from then on; a registered user is told
/// so, and their dialog ends. At the choice of a currency the payload is taken
/// as the currency, whatever it says, and the dialog ends. At the last step
/// the user is told once more that they are registered.
pub open spec fn start_turn(
    users: Map<Seq<char>, UserView>,
    step: Option<Start>,
    id: Seq<char>,
    payload: Seq<char>,
) -> Turn {
    match step {
        Some(Start::CurrencySelection) => if users.contains_key(id) {
            Turn {
                users: with_dialog(with_currency(users, id, payload), id, None),
                outcome: said(currency_confirmation(payload)),
            }
        } else {
            Turn {
                users: users,
                outcome: failed(BotErrorView::StoreError(missing_user_message(id))),
            }
        },
        Some(Start::AlreadyRegistered) => Turn {
            users: discarded(users, id),
            outcome: said(ALREADY_REGISTERED@),
        },
        _ => if users.contains_key(id) {
            Turn { users: with_dialog(users, id, None), outcome: said(ALREADY_REGISTERED@) }
        } else if id.len() == 0 {
            Turn { users: users, outcome: failed(BotErrorView::StoreError(EMPTY_USER_ID@)) }
        } else {
            Turn { users: with_user(users, id), outcome: asked_currency() }
        },
    }
}

/// Ends the dialog of `user_id`, if the store knows the user.
pub fn discard_dialog(store: &mut Store, user_id: &str)
    requires
        old(store).wf(),
    ensures
        final(store).wf(),
        final(store)@ == discarded(old(store)@, user_id@),
{
    if store.is_registered(user_id) {
        let _ = store.update_dialog(None, user_id);
    }
}

/// The reply that offers the currencies.
fn currency_question() -> (r: Outcome)
    ensures
        r@ == asked_currency(),
{
    let mut row: Vec<InlineKeyboardButton> = Vec::new();
    row.push(InlineKeyboardButton::new("₽"));
    row.push(InlineKeyboardButton::new("$"));
    row.push(InlineKeyboardButton::new("€"));
    assert(row_view(row) =~= seq![button("₽"@), button("$"@), button("€"@)]);
    let mut rows: Vec<Vec<InlineKeyboardButton>> = Vec::new();
    rows.push(row);
    let markup = ReplyMarkup::InlineKeyboardMarkup(InlineKeyboardMarkup { inline_keyboard: rows });
    assert(markup@ =~= currency_keyboard());
    Outcome {
        reply: Some(Reply { text: CHOOSE_CURRENCY.to_owned(), reply_markup: Some(markup) }),
        error: None,
        feedback: None,
    }
}

impl Dialog<Start> {
    /// Takes the dialog one step on with `payload` from `user_id`: changes
    /// the store and says what to answer.
    pub fn handle_current_step(&self, store: &mut Store, user_id: &str, payload: &str) -> (out:
        Outcome)
        requires
            old(store).wf(),
        ensures
            final(store).wf(),
            final(store)@ == start_turn(old(store)@, self.current_step, user_id@, payload@).users,
            out@ == start_turn(old(store)@, self.current_step, user_id@, payload@).outcome,
    {
        match self.current_step {
            Some(Start::CurrencySelection) => {
                match store.update_currency(payload, user_id) {
                    Some(_) => {
                        match store.update_dialog(None, user_id) {
                            Ok(()) => Outcome::say(joined("Your currency is ", payload)),
                            Err(error) => Outcome::fail(BotError::StoreError(error)),
                        }
                    },
                    None => Outcome::fail(BotError::StoreError(missing_user(user_id))),
                }
            },
            Some(Start::AlreadyRegistered) => {
                discard_dialog(store, user_id);
                Outcome::say(ALREADY_REGISTERED.to_owned())
            },
            _ => {
                if store.is_registered(user_id) {
                    discard_dialog(store, user_id);
                    Outcome::say(ALREADY_REGISTERED.to_owned())
                } else {
                    match store.save_user(user_id) {
                        Ok(_) => currency_question(),
                        Err(error) => Outcome::fail(BotError::StoreError(error)),
                    }
                }
            },
        }
    }
}

} // verus!
