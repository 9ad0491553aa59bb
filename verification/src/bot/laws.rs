//! What holds of the engine whatever the users write.

use vstd::prelude::*;

use crate::bot::dialogs::add::{category_prompt, corrected, AMOUNT_PROMPT, RECORD_SAVED};
use crate::bot::dialogs::feedback::{thanked, FEEDBACK_TEXT, REGISTRATION_REQUIRED};
use crate::bot::dialogs::history::{history_text, NO_RECORDS};
use crate::bot::dialogs::start::{
    asked_currency, currency_confirmation, discarded, ALREADY_REGISTERED,
};
use crate::bot::dialogs::{
    command_of, command_text, command_text_round_trip, entity_of, step_of, Add, Command, Feedback,
    Start, Step,
};
use crate::bot::{corrupt_turn, message_turn, CORRUPT_STEP, NO_SUCH_DIALOG};
use crate::bot::reply::said;
use crate::store::history::{
    has_open, ledger_patched, ledger_saved, ledger_wf, open_record, RecordView,
};
use crate::store::{dialog_of, ledger_of, store_wf, with_dialog, DialogView, UserView};

verus! {

/// The literals of the commands are read as their commands, and the names of
/// the steps as their steps.
pub proof fn names_are_read_back()
    ensures
        forall|command: Command| command_of(#[trigger] command_text(command)) == Some(command),
        forall|step: Start| Start::named(#[trigger] step.name()) == Some(step),
        forall|step: Feedback| Feedback::named(#[trigger] step.name()) == Some(step),
        forall|step: Add| Add::named(#[trigger] step.name()) == Some(step),
{
    assert forall|command: Command| command_of(#[trigger] command_text(command)) == Some(
        command,
    ) by {
        command_text_round_trip(command);
    }
    reveal_strlit("UnknownRegistrationStatus");
    reveal_strlit("CurrencySelection");
    reveal_strlit("AlreadyRegistered");
    reveal_strlit("Start");
    reveal_strlit("Input");
    reveal_strlit("Amount");
    reveal_strlit("Category");
    assert("UnknownRegistrationStatus"@.len() == 25);
    assert("CurrencySelection"@[0] == 'C');
    assert("AlreadyRegistered"@[0] == 'A');
    assert("Start"@[0] == 'S');
    assert("Input"@[0] == 'I');
    assert("Amount"@.len() == 6);
    assert("Category"@.len() == 8);
}

/// Whether `dialog` is none, or stands at a step at which a dialog waits for
/// the user: the choice of a currency, the input of feedback, the amount or
/// the category of an expense.
pub open spec fn waits_at_a_step(dialog: Option<DialogView>) -> bool {
    match dialog {
        None => true,
        Some(d) => {
            ||| d == entity_of(Command::Start, Start::CurrencySelection)
            ||| d == entity_of(Command::Feedback, Feedback::Input)
            ||| d == entity_of(Command::Add, Add::Amount)
            ||| d == entity_of(Command::Add, Add::Category)
        },
    }
}

/// One dialog at most, and at one of its own steps: after a message the
/// user is in no dialog, or in a dialog of one command at a step of that
/// command, or, where the message changed nothing, where they were before.
/// So a user whose dialog waited at a step is never left anywhere else.
pub proof fn dialog_stays_at_its_steps(
    users: Map<Seq<char>, UserView>,
    payload: Seq<char>,
    id: Seq<char>,
    amount: Option<Seq<char>>,
    time_stamp: i64,
)
    ensures
        ({
            let after = dialog_of(message_turn(users, payload, id, amount, time_stamp).users, id);
            waits_at_a_step(after) || after == dialog_of(users, id)
        }),
        waits_at_a_step(dialog_of(users, id)) ==> waits_at_a_step(
            dialog_of(message_turn(users, payload, id, amount, time_stamp).users, id),
        ),
{
    assert(entity_of(Command::Start, Start::CurrencySelection) == (DialogView {
        command: "/start"@,
        step: Some("CurrencySelection"@),
    }));
}

/// No message is dropped: whatever a user sends, they get a reply or the
/// caller gets a failure to report, and a message that was handled as asked
/// always has its reply.
pub proof fn every_message_is_answered(
    users: Map<Seq<char>, UserView>,
    payload: Seq<char>,
    id: Seq<char>,
    amount: Option<Seq<char>>,
    time_stamp: i64,
)
    ensures
        ({
            let outcome = message_turn(users, payload, id, amount, time_stamp).outcome;
            &&& outcome.reply is Some || outcome.error is Some
            &&& outcome.error is None ==> outcome.reply is Some
        }),
{
}

/// Registration: a stranger who sends the registration command is asked for
/// a currency and stands at the choice of one. Whatever they send next,
/// unless it is the literal of a command, is taken as their currency, word
/// for word, and confirmed, and their dialog ends.
pub proof fn registration_takes_the_currency_as_written(
    users: Map<Seq<char>, UserView>,
    id: Seq<char>,
    payload: Seq<char>,
    first_amount: Option<Seq<char>>,
    second_amount: Option<Seq<char>>,
    first_time: i64,
    second_time: i64,
)
    requires
        !users.contains_key(id),
        id.len() > 0,
        command_of(payload) is None,
    ensures
        ({
            let first = message_turn(users, "/start"@, id, first_amount, first_time);
            let second = message_turn(first.users, payload, id, second_amount, second_time);
            &&& first.outcome == asked_currency()
            &&& dialog_of(first.users, id) == Some(
                entity_of(Command::Start, Start::CurrencySelection),
            )
            &&& second.outcome == said(currency_confirmation(payload))
            &&& second.users.contains_key(id)
            &&& second.users[id].currency == Some(payload)
            &&& second.users[id].current_dialog is None
        }),
{
    names_are_read_back();
    assert(command_text(Command::Start) == "/start"@);
    assert(Start::CurrencySelection.name() == "CurrencySelection"@);
}

/// Re-entry: a registered user who sends the registration command is told
/// that they are registered. Nobody is added to the store or taken from it,
/// and nothing of the user changes but that they are in no dialog.
pub proof fn registered_user_stays_as_they_are(
    users: Map<Seq<char>, UserView>,
    id: Seq<char>,
    amount: Option<Seq<char>>,
    time_stamp: i64,
)
    requires
        users.contains_key(id),
    ensures
        ({
            let turn = message_turn(users, "/start"@, id, amount, time_stamp);
            &&& turn.outcome == said(ALREADY_REGISTERED@)
            &&& turn.users.dom() == users.dom()
            &&& turn.users == with_dialog(users, id, None)
        }),
{
    names_are_read_back();
    assert(command_text(Command::Start) == "/start"@);
    let turn = message_turn(users, "/start"@, id, amount, time_stamp);
    assert(turn.users =~= with_dialog(users, id, None));
    assert(turn.users.dom() =~= users.dom());
}

/// Writing down an expense: a registered user who sends the command is
/// asked for the amount; a number is answered with the request for a
/// category that names the number, and opens a record of it; the next text
/// closes that record as its category, is confirmed, and ends the dialog.
/// No record is open afterwards, and a ledger that had none open before has
/// grown by exactly the one record.
pub proof fn expense_is_written_down(
    users: Map<Seq<char>, UserView>,
    id: Seq<char>,
    number: Seq<char>,
    amount: Seq<char>,
    category: Seq<char>,
    any_amount: Option<Seq<char>>,
    other_amount: Option<Seq<char>>,
    first_time: i64,
    second_time: i64,
    third_time: i64,
)
    requires
        store_wf(users),
        users.contains_key(id),
        command_of(number) is None,
        command_of(category) is None,
    ensures
        ({
            let first = message_turn(users, "/add"@, id, any_amount, first_time);
            let second = message_turn(first.users, number, id, Some(amount), second_time);
            let third = message_turn(second.users, category, id, other_amount, third_time);
            let before = users[id].history;
            let closed = RecordView {
                amount: amount,
                category: Some(category),
                created: second_time,
                updated: Some(third_time),
            };
            &&& first.outcome == said(AMOUNT_PROMPT@)
            &&& dialog_of(first.users, id) == Some(entity_of(Command::Add, Add::Amount))
            &&& ledger_of(first.users, id) == before
            &&& second.outcome == said(category_prompt(amount))
            &&& dialog_of(second.users, id) == Some(entity_of(Command::Add, Add::Category))
            &&& ledger_of(second.users, id) == ledger_saved(
                before,
                open_record(amount),
                second_time,
            )
            &&& has_open(ledger_of(second.users, id))
            &&& third.outcome == said(RECORD_SAVED@)
            &&& dialog_of(third.users, id) is None
            &&& !has_open(ledger_of(third.users, id))
            &&& !has_open(before) ==> ledger_of(third.users, id) == before.push(closed)
        }),
{
    names_are_read_back();
    assert(command_text(Command::Add) == "/add"@);
    assert(Add::Amount.name() == "Amount"@);
    assert(Add::Category.name() == "Category"@);
    let first = message_turn(users, "/add"@, id, any_amount, first_time);
    let second = message_turn(first.users, number, id, Some(amount), second_time);
    let third = message_turn(second.users, category, id, other_amount, third_time);
    let before = users[id].history;
    assert(first.users[id].history == before);
    let opened = ledger_saved(before, open_record(amount), second_time);
    assert(second.users[id].history == opened);
    assert(has_open(opened));
    let closed = RecordView {
        amount: amount,
        category: Some(category),
        created: second_time,
        updated: Some(third_time),
    };
    if !has_open(before) {
        assert(ledger_patched(opened, Some(category), third_time) =~= before.push(closed));
    }
}

/// A text that is no number, sent where the amount is asked for, is answered
/// with the word that it is none and reported as such; the user stays at the
/// amount and the store is as it was. A number sent after it opens one
/// record and no more.
pub proof fn text_for_an_amount_changes_nothing(
    users: Map<Seq<char>, UserView>,
    id: Seq<char>,
    payload: Seq<char>,
    number: Seq<char>,
    amount: Seq<char>,
    first_time: i64,
    second_time: i64,
)
    requires
        users.contains_key(id),
        users[id].current_dialog == Some(entity_of(Command::Add, Add::Amount)),
        command_of(payload) is None,
        command_of(number) is None,
    ensures
        ({
            let first = message_turn(users, payload, id, None, first_time);
            let second = message_turn(first.users, number, id, Some(amount), second_time);
            &&& first.outcome == corrected(payload)
            &&& first.users == users
            &&& ledger_of(second.users, id) == ledger_saved(
                users[id].history,
                open_record(amount),
                second_time,
            )
            &&& !has_open(users[id].history) ==> ledger_of(second.users, id).len()
                == users[id].history.len() + 1
        }),
{
    names_are_read_back();
    assert(command_text(Command::Add) == "/add"@);
    assert(Add::Amount.name() == "Amount"@);
}

/// Feedback is for registered users: a stranger who asks to give feedback is
/// told to register, and the store stays as it was, so that no dialog is
/// held for them.
pub proof fn stranger_gives_no_feedback(
    users: Map<Seq<char>, UserView>,
    id: Seq<char>,
    amount: Option<Seq<char>>,
    time_stamp: i64,
)
    requires
        !users.contains_key(id),
    ensures
        ({
            let turn = message_turn(users, "/feedback"@, id, amount, time_stamp);
            &&& turn.outcome == said(REGISTRATION_REQUIRED@)
            &&& turn.users == users
            &&& dialog_of(turn.users, id) is None
        }),
{
    names_are_read_back();
    assert(command_text(Command::Feedback) == "/feedback"@);
}

/// A registered user who asks to give feedback is invited to write and
/// stands at the input. Whatever they send next, unless it is the literal of
/// a command, is their feedback: they are thanked, and their dialog ends.
pub proof fn registered_user_gives_feedback(
    users: Map<Seq<char>, UserView>,
    id: Seq<char>,
    payload: Seq<char>,
    first_amount: Option<Seq<char>>,
    second_amount: Option<Seq<char>>,
    first_time: i64,
    second_time: i64,
)
    requires
        users.contains_key(id),
        command_of(payload) is None,
    ensures
        ({
            let first = message_turn(users, "/feedback"@, id, first_amount, first_time);
            let second = message_turn(first.users, payload, id, second_amount, second_time);
            &&& first.outcome == said(FEEDBACK_TEXT@)
            &&& dialog_of(first.users, id) == Some(entity_of(Command::Feedback, Feedback::Input))
            &&& second.outcome == thanked(id, payload)
            &&& dialog_of(second.users, id) is None
        }),
{
    names_are_read_back();
    assert(command_text(Command::Feedback) == "/feedback"@);
    assert(Feedback::Input.name() == "Input"@);
}

/// The listing never fails: whoever asks for it gets the text of their
/// ledger, and the word that there are no records where it is empty. Asking
/// changes nothing but that the user is in no dialog.
pub proof fn listing_is_always_answered(
    users: Map<Seq<char>, UserView>,
    id: Seq<char>,
    amount: Option<Seq<char>>,
    time_stamp: i64,
)
    ensures
        ({
            let turn = message_turn(users, "/history"@, id, amount, time_stamp);
            &&& turn.outcome == said(history_text(ledger_of(users, id)))
            &&& ledger_of(users, id).len() == 0 ==> turn.outcome == said(NO_RECORDS@)
            &&& turn.users == discarded(users, id)
        }),
{
    names_are_read_back();
    assert(command_text(Command::History) == "/history"@);
}

/// In a ledger that is in order at most one record is open.
pub proof fn one_record_is_open_at_most(ledger: Seq<RecordView>, i: int, j: int)
    requires
        ledger_wf(ledger),
        0 <= i < ledger.len(),
        0 <= j < ledger.len(),
        ledger[i].category is None,
        ledger[j].category is None,
    ensures
        i == j,
{
}

/// Whatever a user sends, a store that is in order stays in order: each user
/// is held under their own id, and no ledger has two open records. What is
/// held of the other users does not change.
pub proof fn store_stays_in_order(
    users: Map<Seq<char>, UserView>,
    payload: Seq<char>,
    id: Seq<char>,
    amount: Option<Seq<char>>,
    time_stamp: i64,
)
    requires
        store_wf(users),
    ensures
        store_wf(message_turn(users, payload, id, amount, time_stamp).users),
        forall|other: Seq<char>|
            other != id ==> (#[trigger] message_turn(
                users,
                payload,
                id,
                amount,
                time_stamp,
            ).users.contains_key(other)) == users.contains_key(other),
        forall|other: Seq<char>|
            other != id && users.contains_key(other) ==> (#[trigger] message_turn(
                users,
                payload,
                id,
                amount,
                time_stamp,
            ).users[other]) == users[other],
{
}

/// A persisted dialog that cannot be read is reported and changes nothing.
/// Where its step names no step of its command, the failure says so; where
/// its command is none or opens no dialog, the failure says that. Nothing is
/// read as a first step that was not persisted as one.
pub proof fn unreadable_dialog_is_reported(
    users: Map<Seq<char>, UserView>,
    payload: Seq<char>,
    id: Seq<char>,
    amount: Option<Seq<char>>,
    time_stamp: i64,
)
    requires
        command_of(payload) is None,
        dialog_of(users, id) is Some,
    ensures
        ({
            let dialog = dialog_of(users, id)->Some_0;
            let turn = message_turn(users, payload, id, amount, time_stamp);
            let unread = match command_of(dialog.command) {
                Some(Command::Start) => step_of::<Start>(dialog.step) is None,
                Some(Command::Feedback) => step_of::<Feedback>(dialog.step) is None,
                Some(Command::Add) => step_of::<Add>(dialog.step) is None,
                _ => false,
            };
            let no_dialog = match command_of(dialog.command) {
                Some(Command::Start) | Some(Command::Feedback) | Some(Command::Add) => false,
                _ => true,
            };
            &&& unread ==> turn == corrupt_turn(users, CORRUPT_STEP@)
            &&& no_dialog ==> turn == corrupt_turn(users, NO_SUCH_DIALOG@)
        }),
{
}

/// A delivery that comes twice: the command to write down an expense and a
/// number, each sent twice by one user who had no record open. Whether the
/// second pair follows the first or the two commands come before the two
/// numbers, the ledger grows by one record and no more, and never holds two
/// open records. In the first order the one record is open, with the amount;
/// in the second the second number was taken as the category, and the
/// record is closed.
pub proof fn repeated_delivery_adds_one_record(
    users: Map<Seq<char>, UserView>,
    id: Seq<char>,
    number: Seq<char>,
    amount: Seq<char>,
    first_time: i64,
    second_time: i64,
    third_time: i64,
    fourth_time: i64,
)
    requires
        store_wf(users),
        users.contains_key(id),
        !has_open(users[id].history),
        command_of(number) is None,
    ensures
        ({
            let before = users[id].history;
            let a = message_turn(users, "/add"@, id, None, first_time).users;
            let in_turn = message_turn(
                message_turn(
                    message_turn(a, number, id, Some(amount), second_time).users,
                    "/add"@,
                    id,
                    None,
                    third_time,
                ).users,
                number,
                id,
                Some(amount),
                fourth_time,
            ).users;
            let at_once = message_turn(
                message_turn(
                    message_turn(a, "/add"@, id, None, second_time).users,
                    number,
                    id,
                    Some(amount),
                    third_time,
                ).users,
                number,
                id,
                Some(amount),
                fourth_time,
            ).users;
            &&& ledger_of(in_turn, id) == before.push(
                RecordView {
                    amount: amount,
                    category: None,
                    created: fourth_time,
                    updated: None,
                },
            )
            &&& ledger_of(at_once, id) == before.push(
                RecordView {
                    amount: amount,
                    category: Some(number),
                    created: third_time,
                    updated: Some(fourth_time),
                },
            )
            &&& ledger_wf(ledger_of(in_turn, id))
            &&& ledger_wf(ledger_of(at_once, id))
        }),
{
    names_are_read_back();
    assert(command_text(Command::Add) == "/add"@);
    assert(Add::Amount.name() == "Amount"@);
    assert(Add::Category.name() == "Category"@);
    let before = users[id].history;
    let a = message_turn(users, "/add"@, id, None, first_time).users;
    assert(a[id].history == before);
    let b = message_turn(a, number, id, Some(amount), second_time).users;
    let opened = ledger_saved(before, open_record(amount), second_time);
    assert(b[id].history == opened);
    assert(has_open(opened));
    let c = message_turn(b, "/add"@, id, None, third_time).users;
    assert(c[id].history == opened);
    let d = message_turn(c, number, id, Some(amount), fourth_time).users;
    assert(d[id].history =~= before.push(
        RecordView { amount: amount, category: None, created: fourth_time, updated: None },
    ));
    let b2 = message_turn(a, "/add"@, id, None, second_time).users;
    assert(b2[id].history == before);
    let c2 = message_turn(b2, number, id, Some(amount), third_time).users;
    let opened2 = ledger_saved(before, open_record(amount), third_time);
    assert(c2[id].history == opened2);
    assert(has_open(opened2));
    let d2 = message_turn(c2, number, id, Some(amount), fourth_time).users;
    assert(d2[id].history =~= before.push(
        RecordView {
            amount: amount,
            category: Some(number),
            created: third_time,
            updated: Some(fourth_time),
        },
    ));
}

} // verus!
