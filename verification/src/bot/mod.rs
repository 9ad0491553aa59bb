//! The engine: from an inbound message to the reply and the new state.

use vstd::prelude::*;

use crate::bot::dialogs::add::{add_turn, opt_amount};
use crate::bot::dialogs::feedback::feedback_turn;
use crate::bot::dialogs::history::history_turn;
use crate::bot::dialogs::start::{discard_dialog, discarded, start_turn};
use crate::bot::dialogs::{command_of, step_of, Add, Command, Dialog, Feedback, History, Start};
use crate::bot::error::{BotError, BotErrorView};
use crate::bot::reply::{failed, opt_reply, said, Outcome, Reply, ReplyView, Turn};
use crate::store::history::{current_timestamp, Amount};
use crate::store::{dialog_of, DialogEntity, DialogView, Store, UserView};
use crate::telegram::error::TelegramError;

pub mod commands;
pub mod dialogs;
pub mod error;
pub mod laws;
pub mod reply;

verus! {

/// What the user is told when handling their message failed.
pub const ERROR_TEXT: &'static str =
    "\nLooks like I'm having a technical glitch. Something went wrong.\nIf the issues persist send feedback via /feedback command.\n";

/// The commands of the bot, for the user.
pub const HELP_TEXT: &'static str =
    "\nYou can send me these commands:\n/start\n/stop\n/feedback\n/help\n/history\n/add\n\nIf you encounter any issues feel free to open an issue.\nOr you can also send feedback via /feedback command.\n";

/// The answer to the command that ends whatever the user was in.
pub const STOP_TEXT: &'static str = "User and subscriptions deleted";

/// The answer to a text that is no command from a user who is in no dialog.
pub const UNRECOGNIZED_TEXT: &'static str =
    "I didn't get that. Use /help to see list of available commands.";

/// The message of the failure to go on with a persisted dialog whose command
/// opens no dialog.
pub const NO_SUCH_DIALOG: &'static str = "can not process such command";

/// The message of the failure to go on with a persisted dialog whose step
/// names no step of its command.
pub const CORRUPT_STEP: &'static str = "can not read the step of the persisted dialog";

/// What to do with an inbound message.
#[derive(Debug)]
pub enum RoutingDecision {
    /// The message is the literal of a command: the command starts afresh,
    /// whatever the user was in.
    StartFresh(Command),
    /// The message is the next input to the dialog that the user is in.
    Resume(DialogEntity),
    /// The message is no command and the user is in no dialog.
    Unrecognized,
}

/// A routing decision as plain values.
pub enum RoutingView {
    StartFresh(Command),
    Resume(DialogView),
    Unrecognized,
}

impl View for RoutingDecision {
    type V = RoutingView;

    open spec fn view(&self) -> RoutingView {
        match self {
            RoutingDecision::StartFresh(command) => RoutingView::StartFresh(*command),
            RoutingDecision::Resume(dialog) => RoutingView::Resume(dialog@),
            RoutingDecision::Unrecognized => RoutingView::Unrecognized,
        }
    }
}

/// The decision on `payload` from `id`: a command's literal starts the
/// command afresh; any other text goes on with the dialog that the store
/// holds for the user; without one it is not understood.
pub open spec fn routing(users: Map<Seq<char>, UserView>, payload: Seq<char>, id: Seq<char>) ->
    RoutingView {
    match command_of(payload) {
        Some(command) => RoutingView::StartFresh(command),
        None => match dialog_of(users, id) {
            Some(dialog) => RoutingView::Resume(dialog),
            None => RoutingView::Unrecognized,
        },
    }
}

/// A command started afresh by `id` at `time_stamp`: the dialog that the
/// user was in is dropped, and the command takes its first step on an empty
/// payload.
pub open spec fn fresh_turn(
    users: Map<Seq<char>, UserView>,
    command: Command,
    id: Seq<char>,
    time_stamp: i64,
) -> Turn {
    let cleared = discarded(users, id);
    match command {
        Command::Start => start_turn(cleared, None, id, Seq::empty()),
        Command::Feedback => feedback_turn(cleared, Some(Feedback::Start), id, Seq::empty()),
        Command::Add => add_turn(cleared, None, id, Seq::empty(), None, time_stamp),
        Command::History => history_turn(cleared, id),
        Command::Help => Turn { users: cleared, outcome: said(HELP_TEXT@) },
        Command::Stop => Turn { users: cleared, outcome: said(STOP_TEXT@) },
    }
}

/// The failure that reports a persisted dialog that cannot be read. It
/// changes nothing.
pub open spec fn corrupt_turn(users: Map<Seq<char>, UserView>, message: Seq<char>) -> Turn {
    Turn { users: users, outcome: failed(BotErrorView::CustomError(message)) }
}

/// The next step of the persisted `dialog` of `id` with `payload`. A
/// persisted command that opens no dialog, or is none, is a failure that
/// changes nothing; so is a persisted step that names no step of the
/// command.
pub open spec fn resumed_turn(
    users: Map<Seq<char>, UserView>,
    dialog: DialogView,
    id: Seq<char>,
    payload: Seq<char>,
    amount: Option<Seq<char>>,
    time_stamp: i64,
) -> Turn {
    match command_of(dialog.command) {
        Some(Command::Start) => match step_of::<Start>(dialog.step) {
            Some(step) => start_turn(users, step, id, payload),
            None => corrupt_turn(users, CORRUPT_STEP@),
        },
        Some(Command::Feedback) => match step_of::<Feedback>(dialog.step) {
            Some(step) => feedback_turn(users, step, id, payload),
            None => corrupt_turn(users, CORRUPT_STEP@),
        },
        Some(Command::Add) => match step_of::<Add>(dialog.step) {
            Some(step) => add_turn(users, step, id, payload, amount, time_stamp),
            None => corrupt_turn(users, CORRUPT_STEP@),
        },
        _ => corrupt_turn(users, NO_SUCH_DIALOG@),
    }
}

/// What `payload` from `id` at `time_stamp` leads to. `amount` is the payload
/// read as a number, where it reads as one.
pub open spec fn message_turn(
    users: Map<Seq<char>, UserView>,
    payload: Seq<char>,
    id: Seq<char>,
    amount: Option<Seq<char>>,
    time_stamp: i64,
) -> Turn {
    match routing(users, payload, id) {
        RoutingView::StartFresh(command) => fresh_turn(users, command, id, time_stamp),
        RoutingView::Resume(dialog) => resumed_turn(users, dialog, id, payload, amount, time_stamp),
        RoutingView::Unrecognized => Turn { users: users, outcome: said(UNRECOGNIZED_TEXT@) },
    }
}

/// Decides what to do with `payload` from `user_id`.
pub fn route(store: &Store, payload: &str, user_id: &str) -> (r: RoutingDecision)
    ensures
        r@ == routing(store@, payload@, user_id@),
{
    match Command::parse(payload) {
        Some(command) => RoutingDecision::StartFresh(command),
        None => match store.get_user_dialog(user_id) {
            Some(dialog) => RoutingDecision::Resume(dialog),
            None => RoutingDecision::Unrecognized,
        },
    }
}

/// Starts `command` afresh for `user_id`.
pub fn start_fresh(store: &mut Store, command: Command, user_id: &str, time_stamp: i64) -> (out:
    Outcome)
    requires
        old(store).wf(),
    ensures
        final(store).wf(),
        final(store)@ == fresh_turn(old(store)@, command, user_id@, time_stamp).users,
        out@ == fresh_turn(old(store)@, command, user_id@, time_stamp).outcome,
{
    discard_dialog(store, user_id);
    proof {
        reveal_strlit("");
        assert(""@ =~= Seq::<char>::empty());
    }
    match command {
        Command::Start => commands::start(store, user_id),
        Command::Feedback => commands::feedback(store, user_id),
        Command::Add => Dialog::<Add>::new().handle_current_step(
            store,
            user_id,
            "",
            None,
            time_stamp,
        ),
        Command::History => Dialog::<History>::new().handle_current_step(store, user_id),
        Command::Help => commands::help(),
        Command::Stop => commands::stop(),
    }
}

/// Goes on with the persisted `dialog` of `user_id`.
pub fn resume(
    store: &mut Store,
    dialog: &DialogEntity,
    user_id: &str,
    payload: &str,
    amount: Option<Amount>,
    time_stamp: i64,
) -> (out: Outcome)
    requires
        old(store).wf(),
    ensures
        final(store).wf(),
        final(store)@ == resumed_turn(
            old(store)@,
            dialog@,
            user_id@,
            payload@,
            opt_amount(amount),
            time_stamp,
        ).users,
        out@ == resumed_turn(
            old(store)@,
            dialog@,
            user_id@,
            payload@,
            opt_amount(amount),
            time_stamp,
        ).outcome,
{
    match Command::parse(dialog.command.as_str()) {
        Some(Command::Start) => {
            match Dialog::<Start>::from_entity(dialog) {
                Some(start) => start.handle_current_step(store, user_id, payload),
                None => Outcome::fail(BotError::CustomError(CORRUPT_STEP.to_owned())),
            }
        },
        Some(Command::Feedback) => {
            match Dialog::<Feedback>::from_entity(dialog) {
                Some(feedback) => feedback.handle_current_step(store, user_id, payload),
                None => Outcome::fail(BotError::CustomError(CORRUPT_STEP.to_owned())),
            }
        },
        Some(Command::Add) => {
            match Dialog::<Add>::from_entity(dialog) {
                Some(add) => add.handle_current_step(store, user_id, payload, amount, time_stamp),
                None => Outcome::fail(BotError::CustomError(CORRUPT_STEP.to_owned())),
            }
        },
        _ => Outcome::fail(BotError::CustomError(NO_SUCH_DIALOG.to_owned())),
    }
}

/// Handles `payload` from `user_id` at the time `time_stamp`: changes the
/// store and says what to answer and what to report. `amount` is the payload
/// read as a number, or `None` where it is none.
pub fn handle_message_at(
    store: &mut Store,
    payload: &str,
    user_id: &str,
    amount: Option<Amount>,
    time_stamp: i64,
) -> (out: Outcome)
    requires
        old(store).wf(),
    ensures
        final(store).wf(),
        final(store)@ == message_turn(
            old(store)@,
            payload@,
            user_id@,
            opt_amount(amount),
            time_stamp,
        ).users,
        out@ == message_turn(
            old(store)@,
            payload@,
            user_id@,
            opt_amount(amount),
            time_stamp,
        ).outcome,
{
    match route(store, payload, user_id) {
        RoutingDecision::StartFresh(command) => start_fresh(store, command, user_id, time_stamp),
        RoutingDecision::Resume(dialog) => resume(
            store,
            &dialog,
            user_id,
            payload,
            amount,
            time_stamp,
        ),
        RoutingDecision::Unrecognized => Outcome::say(UNRECOGNIZED_TEXT.to_owned()),
    }
}

/// Handles `payload` from `user_id` as of now. `amount` is the payload read
/// as a number, or `None` where it is none.
pub fn handle_message(store: &mut Store, payload: &str, user_id: &str, amount: Option<Amount>) -> (out:
    Outcome)
    requires
        old(store).wf(),
    ensures
        final(store).wf(),
        exists|time_stamp: i64|
            {
                &&& final(store)@ == (#[trigger] message_turn(
                    old(store)@,
                    payload@,
                    user_id@,
                    opt_amount(amount),
                    time_stamp,
                )).users
                &&& out@ == message_turn(
                    old(store)@,
                    payload@,
                    user_id@,
                    opt_amount(amount),
                    time_stamp,
                ).outcome
            },
{
    let time_stamp = current_timestamp();
    handle_message_at(store, payload, user_id, amount, time_stamp)
}

/// What the caller of the engine hears once the gateway has answered:
/// the text that was sent, or why the message was not handled as asked. A
/// failure of the gateway comes before the failure that the engine
/// reported.
pub fn conclude(error: Option<BotError>, sent: Result<String, TelegramError>) -> (r: Result<
    String,
    BotError,
>)
    ensures
        r == match sent {
            Err(failure) => Err::<String, BotError>(BotError::TelegramError(failure)),
            Ok(text) => match error {
                Some(reported) => Err(reported),
                None => Ok(text),
            },
        },
{
    match sent {
        Err(failure) => Err(BotError::TelegramError(failure)),
        Ok(text) => match error {
            Some(reported) => Err(reported),
            None => Ok(text),
        },
    }
}

/// What to tell the user of a failure: the notice that something went
/// wrong, or nothing where the user has been answered already.
pub fn failure_notice(error: &BotError) -> (r: Option<Reply>)
    ensures
        opt_reply(r) == if error is ParsingError {
            None
        } else {
            Some(ReplyView { text: ERROR_TEXT@, reply_markup: None })
        },
{
    if error.needs_notice() {
        Some(Reply::plain(ERROR_TEXT.to_owned()))
    } else {
        None
    }
}

/// What the chat platform reports, as far as the bot looks at it.
#[derive(Debug)]
pub enum Update {
    /// A message from `user_id`; `text` is its text, if it is one of text.
    Message { user_id: String, text: Option<String> },
    /// A press of a button by `user_id`: whether the press names the message
    /// that the button was under, and what the button answers with.
    CallbackQuery { user_id: String, has_message: bool, data: Option<String> },
    /// Anything else.
    Other,
}

/// A text from a user, for the engine.
#[derive(Debug, PartialEq)]
pub struct Inbound {
    pub user_id: String,
    pub payload: String,
}

/// An inbound text as plain values.
pub struct InboundView {
    pub user_id: Seq<char>,
    pub payload: Seq<char>,
}

impl View for Inbound {
    type V = InboundView;

    open spec fn view(&self) -> InboundView {
        InboundView { user_id: self.user_id@, payload: self.payload@ }
    }
}

/// The view of an optional inbound text.
pub open spec fn opt_inbound(inbound: Option<Inbound>) -> Option<InboundView> {
    match inbound {
        Some(i) => Some(i@),
        None => None,
    }
}

/// The text that `update` brings, and from whom: the text of a text message,
/// and the answer of a button that was pressed under a message. Every other
/// update brings none.
pub open spec fn inbound_of(update: Update) -> Option<InboundView> {
    match update {
        Update::Message { user_id, text: Some(text) } => Some(
            InboundView { user_id: user_id@, payload: text@ },
        ),
        Update::CallbackQuery { user_id, has_message: true, data: Some(data) } => Some(
            InboundView { user_id: user_id@, payload: data@ },
        ),
        _ => None,
    }
}

/// Picks out of `update` what the engine is to handle.
pub fn inbound(update: Update) -> (r: Option<Inbound>)
    ensures
        opt_inbound(r) == inbound_of(update),
{
    match update {
        Update::Message { user_id, text } => match text {
            Some(payload) => Some(Inbound { user_id, payload }),
            None => None,
        },
        Update::CallbackQuery { user_id, has_message, data } => {
            if !has_message {
                return None;
            }
            match data {
                Some(payload) => Some(Inbound { user_id, payload }),
                None => None,
            }
        },
        Update::Other => None,
    }
}

} // verus!
