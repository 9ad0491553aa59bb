use expenses::bot::commands::{feedback, help, start, stop};
use expenses::bot::dialogs::{Add, Dialog, Feedback, History, Start};
use expenses::bot::error::BotError;
use expenses::bot::reply::{Outcome, Reply};
use expenses::bot::{
    conclude, failure_notice, handle_message, handle_message_at, inbound, resume, route,
    start_fresh, Inbound, RoutingDecision, Update, ERROR_TEXT, HELP_TEXT,
};
use expenses::bot::dialogs::Command;
use expenses::store::error::StoreError;
use expenses::store::history::Amount;
use expenses::store::{DialogEntity, Store};
use expenses::telegram::error::TelegramError;
use expenses::telegram::types::ReplyMarkup;

const USER_ID: &str = "123";

const FEEDBACK_TEXT: &str =
    "You can write your feedback. If you want the author to get back to \
you, leave your email. Or you can contact the author via telegram: @privalou \
Übermensch appoach is creating issue at github.com/privalou/expenses-bot";

const ALREADY_REGISTERED: &str =
    "You are already registered. Use /help to see list of available commands.";

fn read_amount(payload: &str) -> Option<Amount> {
    payload
        .parse::<f32>()
        .ok()
        .map(|value| Amount::new(format!("{}", value)))
}

fn send(store: &mut Store, payload: &str, user_id: &str) -> Outcome {
    handle_message(store, payload, user_id, read_amount(payload))
}

fn text_of(outcome: &Outcome) -> &str {
    outcome.reply.as_ref().expect("no reply").text.as_str()
}

fn dialog_of(store: &Store, user_id: &str) -> Option<(String, Option<String>)> {
    store
        .get_user_dialog(user_id)
        .map(|dialog| (dialog.command, dialog.step))
}

fn registered() -> Store {
    let mut store = Store::new();
    send(&mut store, "/start", USER_ID);
    send(&mut store, "$", USER_ID);
    store
}

#[test]
fn handle_message_start_first_step() {
    let mut store = Store::new();

    let outcome = send(&mut store, "/start", USER_ID);

    assert!(outcome.error.is_none());
    assert_eq!("Choose your currency", text_of(&outcome));
    let reply = outcome.reply.unwrap();
    let ReplyMarkup::InlineKeyboardMarkup(markup) = reply.reply_markup.expect("no keyboard");
    assert_eq!(markup.inline_keyboard.len(), 1);
    let row = &markup.inline_keyboard[0];
    assert_eq!(row.len(), 3);
    for (button, symbol) in row.iter().zip(["₽", "$", "€"]) {
        assert_eq!(button.text, symbol);
        assert_eq!(button.callback_data, symbol);
    }
    let dialog = store
        .get_user_dialog(USER_ID)
        .expect("There is no user with such ID");
    assert_eq!("/start", dialog.command);
    assert_eq!("CurrencySelection", dialog.step.as_ref().unwrap());
}

#[test]
fn handle_message_currency_step() {
    let mut store = Store::new();
    let dialog =
        DialogEntity::new_with("/start".to_string(), Some("CurrencySelection".to_string()))
            .expect("Invalid DialogEntity");
    store.save_user(USER_ID).unwrap();
    assert!(store.update_dialog(Some(dialog), USER_ID).is_ok());

    let outcome = send(&mut store, "€", USER_ID);

    let user_data = store.get_user_data(USER_ID).expect("No user with such id");
    assert_eq!(
        user_data
            .currency
            .clone()
            .expect("Currency is None after value persisted"),
        "€".to_string()
    );
    assert_eq!("Your currency is €", text_of(&outcome));
    assert!(outcome.error.is_none());
    assert_eq!(user_data.current_dialog, None);
}

#[test]
fn feedback_for_registered_user_success() {
    let mut store = Store::new();
    store.save_user(USER_ID).unwrap();

    let outcome = feedback(&mut store, USER_ID);

    assert!(outcome.error.is_none());
    assert_eq!(text_of(&outcome), FEEDBACK_TEXT);
}

#[test]
fn api_help_success() {
    let outcome = help();
    assert!(outcome.error.is_none());
    assert_eq!(text_of(&outcome), HELP_TEXT);
}

#[test]
fn feedback_success() {
    let mut store = registered();
    let outcome = feedback(&mut store, USER_ID);
    assert_eq!(text_of(&outcome), FEEDBACK_TEXT);
    assert_eq!(
        dialog_of(&store, USER_ID),
        Some(("/feedback".to_string(), Some("Input".to_string())))
    );
}

#[test]
fn commands_help_success() {
    let mut store = Store::new();
    let outcome = send(&mut store, "/help", USER_ID);
    assert_eq!(text_of(&outcome), HELP_TEXT);
    for literal in ["/start", "/stop", "/feedback", "/help", "/history", "/add"] {
        assert!(HELP_TEXT.contains(literal));
    }
}

#[test]
fn full_commands_integration_flow() {
    let mut store = Store::new();
    let user_id = "54981987";

    let response = send(&mut store, "/help", user_id);
    assert_eq!(text_of(&response), HELP_TEXT);

    let response = send(&mut store, "/start", user_id);
    assert_eq!("Choose your currency", text_of(&response));
    let response = send(&mut store, "€", user_id);
    assert_eq!("Your currency is €", text_of(&response));

    let response = send(&mut store, "/feedback", user_id);
    assert_eq!(FEEDBACK_TEXT, text_of(&response));

    let response = send(&mut store, "Fooo", user_id);
    assert_eq!(
        "Thanks, 54981987, for you priceless feedback!",
        text_of(&response)
    );
    assert_eq!(response.feedback, Some("Fooo".to_string()));
}

#[test]
fn registration_takes_any_text_as_currency() {
    for currency in ["€", "not a currency", "", "42", "/Start"] {
        let mut store = Store::new();
        let first = send(&mut store, "/start", USER_ID);
        assert_eq!(text_of(&first), "Choose your currency");
        assert_eq!(
            dialog_of(&store, USER_ID),
            Some(("/start".to_string(), Some("CurrencySelection".to_string())))
        );
        let second = send(&mut store, currency, USER_ID);
        assert_eq!(text_of(&second), format!("Your currency is {}", currency));
        assert!(second.error.is_none());
        let user = store.get_user_data(USER_ID).unwrap();
        assert_eq!(user.currency, Some(currency.to_string()));
        assert_eq!(user.current_dialog, None);
    }
}

#[test]
fn command_in_place_of_a_currency_starts_the_command() {
    let mut store = Store::new();
    send(&mut store, "/start", USER_ID);
    let outcome = send(&mut store, "/add", USER_ID);
    assert_eq!(text_of(&outcome), "Write amount of money you have spent");
    let user = store.get_user_data(USER_ID).unwrap();
    assert_eq!(user.currency, None);
    assert_eq!(
        dialog_of(&store, USER_ID),
        Some(("/add".to_string(), Some("Amount".to_string())))
    );
}

#[test]
fn second_start_does_not_register_again() {
    let mut store = registered();
    store
        .add_expense_record_at(USER_ID, Amount::new("1".to_string()), 1)
        .unwrap();
    let outcome = send(&mut store, "/start", USER_ID);
    assert_eq!(text_of(&outcome), ALREADY_REGISTERED);
    assert!(outcome.error.is_none());
    let user = store.get_user_data(USER_ID).unwrap();
    assert_eq!(user.currency, Some("$".to_string()));
    assert_eq!(user.current_dialog, None);
    assert_eq!(store.get_all_records(USER_ID).len(), 1);
    assert_eq!(store.save_user(USER_ID).is_err(), true);
}

#[test]
fn start_at_its_last_step_says_so_again() {
    let mut store = registered();
    let outcome = Dialog::<Start>::new_with(Start::AlreadyRegistered).handle_current_step(
        &mut store,
        USER_ID,
        "again",
    );
    assert_eq!(text_of(&outcome), ALREADY_REGISTERED);
    assert_eq!(store.get_user_dialog(USER_ID), None);
    let outcome = Dialog::<Start>::new_with(Start::UnknownRegistrationStatus)
        .handle_current_step(&mut store, USER_ID, "");
    assert_eq!(text_of(&outcome), ALREADY_REGISTERED);
}

#[test]
fn currency_of_a_stranger_is_a_store_error() {
    let mut store = Store::new();
    let outcome = Dialog::<Start>::new_with(Start::CurrencySelection).handle_current_step(
        &mut store,
        "9",
        "$",
    );
    assert!(outcome.reply.is_none());
    match outcome.error {
        Some(BotError::StoreError(error)) => {
            assert_eq!(error.to_string(), "User 9 is missing at store")
        }
        other => panic!("unexpected {:?}", other),
    }
    assert!(!store.is_registered("9"));
}

#[test]
fn start_with_an_empty_id_is_a_store_error() {
    let mut store = Store::new();
    let outcome = start(&mut store, "");
    assert!(outcome.reply.is_none());
    match outcome.error {
        Some(BotError::StoreError(error)) => {
            assert_eq!(error.to_string(), "User id can not be empty")
        }
        other => panic!("unexpected {:?}", other),
    }
}

#[test]
fn add_happy_path() {
    let mut store = registered();

    let prompt = send(&mut store, "/add", USER_ID);
    assert_eq!(text_of(&prompt), "Write amount of money you have spent");
    assert_eq!(
        dialog_of(&store, USER_ID),
        Some(("/add".to_string(), Some("Amount".to_string())))
    );

    let asked = send(&mut store, "30", USER_ID);
    assert_eq!(
        text_of(&asked),
        "Write a category where you have spent 30."
    );
    assert!(text_of(&asked).contains("30"));
    let records = store.get_all_records(USER_ID);
    assert_eq!(records.len(), 1);
    assert_eq!(records[0].1.amount.as_str().parse::<f32>().unwrap(), 30.0);
    assert_eq!(records[0].1.category, None);
    assert_eq!(
        dialog_of(&store, USER_ID),
        Some(("/add".to_string(), Some("Category".to_string())))
    );

    let saved = send(&mut store, "Groceries", USER_ID);
    assert_eq!(text_of(&saved), "Record has been saved");
    assert!(saved.error.is_none());
    let records = store.get_all_records(USER_ID);
    assert_eq!(records.len(), 1);
    assert_eq!(records[0].1.category, Some("Groceries".to_string()));
    assert_eq!(records[0].1.amount.as_str(), "30");
    assert!(records[0].1.updated.is_some());
    assert_eq!(store.get_user_dialog(USER_ID), None);
}

#[test]
fn add_malformed_amount() {
    let mut store = registered();
    send(&mut store, "/add", USER_ID);

    let outcome = send(&mut store, "notanumber", USER_ID);
    assert_eq!(
        text_of(&outcome),
        "Can not parse: notanumber to number. Try /add again."
    );
    match &outcome.error {
        Some(BotError::ParsingError(text)) => assert_eq!(text, "notanumber"),
        other => panic!("unexpected {:?}", other),
    }
    assert!(!outcome.error.as_ref().unwrap().needs_notice());
    assert_eq!(
        dialog_of(&store, USER_ID),
        Some(("/add".to_string(), Some("Amount".to_string())))
    );
    assert_eq!(store.get_all_records(USER_ID).len(), 0);

    let outcome = send(&mut store, "12.5", USER_ID);
    assert_eq!(
        text_of(&outcome),
        "Write a category where you have spent 12.5."
    );
    let records = store.get_all_records(USER_ID);
    assert_eq!(records.len(), 1);
    assert_eq!(records[0].1.amount.as_str(), "12.5");
}

#[test]
fn add_for_a_stranger_is_a_store_error() {
    let mut store = Store::new();
    let outcome = send(&mut store, "/add", "77");
    assert!(outcome.reply.is_none());
    match &outcome.error {
        Some(BotError::StoreError(error)) => {
            assert_eq!(error.to_string(), "Impossible to update nonexisting value")
        }
        other => panic!("unexpected {:?}", other),
    }
    assert!(outcome.error.unwrap().needs_notice());
    assert!(!store.is_registered("77"));
}

#[test]
fn category_without_an_open_record_is_a_store_error() {
    let mut store = registered();
    let outcome = Dialog::<Add>::new_with(Add::Category).handle_current_step(
        &mut store,
        USER_ID,
        "Food",
        None,
        5,
    );
    assert!(outcome.reply.is_none());
    match outcome.error {
        Some(BotError::StoreError(error)) => {
            assert_eq!(error.to_string(), "Can not update latest record")
        }
        other => panic!("unexpected {:?}", other),
    }
    let outcome = Dialog::<Add>::new_with(Add::Category).handle_current_step(
        &mut store,
        "nobody",
        "Food",
        None,
        5,
    );
    match outcome.error {
        Some(BotError::StoreError(error)) => {
            assert_eq!(error.to_string(), "User nobody is missing at store")
        }
        other => panic!("unexpected {:?}", other),
    }
    let outcome = Dialog::<Add>::new_with(Add::Amount).handle_current_step(
        &mut store,
        "nobody",
        "5",
        Some(Amount::new("5".to_string())),
        5,
    );
    match outcome.error {
        Some(BotError::StoreError(error)) => {
            assert_eq!(error.to_string(), "User nobody is missing at store")
        }
        other => panic!("unexpected {:?}", other),
    }
}

#[test]
fn abandoned_amount_is_overwritten_by_the_next() {
    let mut store = registered();
    assert!(handle_message_at(&mut store, "/add", USER_ID, None, 1)
        .error
        .is_none());
    handle_message_at(
        &mut store,
        "10",
        USER_ID,
        Some(Amount::new("10".to_string())),
        2,
    );
    handle_message_at(&mut store, "/add", USER_ID, None, 3);
    handle_message_at(
        &mut store,
        "10",
        USER_ID,
        Some(Amount::new("10".to_string())),
        4,
    );
    let records = store.get_all_records(USER_ID);
    assert_eq!(records.len(), 1);
    assert_eq!(records[0].1.category, None);
    assert_eq!(records[0].1.created, 4);
    let open = records
        .iter()
        .filter(|(_, record)| record.is_open())
        .count();
    assert_eq!(open, 1);
}

#[test]
fn feedback_gating() {
    let mut store = Store::new();
    let outcome = send(&mut store, "/feedback", "5");
    assert_eq!(
        text_of(&outcome),
        "Only available for registered users. Use /start to register."
    );
    assert!(outcome.error.is_none());
    assert_eq!(store.get_user_dialog("5"), None);
    assert!(!store.is_registered("5"));

    let mut store = registered();
    let outcome = send(&mut store, "/feedback", USER_ID);
    assert_eq!(text_of(&outcome), FEEDBACK_TEXT);
    assert_eq!(
        dialog_of(&store, USER_ID),
        Some(("/feedback".to_string(), Some("Input".to_string())))
    );
    let outcome = send(&mut store, "It is great", USER_ID);
    assert_eq!(
        text_of(&outcome),
        "Thanks, 123, for you priceless feedback!"
    );
    assert_eq!(outcome.feedback, Some("It is great".to_string()));
    assert_eq!(store.get_user_dialog(USER_ID), None);
}

#[test]
fn feedback_input_of_a_stranger_is_a_store_error() {
    let mut store = Store::new();
    let outcome = Dialog::<Feedback>::new_with(Feedback::Input).handle_current_step(
        &mut store,
        "5",
        "text",
    );
    match outcome.error {
        Some(BotError::StoreError(error)) => {
            assert_eq!(error.to_string(), "Impossible to update nonexisting value")
        }
        other => panic!("unexpected {:?}", other),
    }
}

#[test]
fn history_lists_in_creation_order() {
    let mut store = registered();
    for (amount, category) in [("30", "A"), ("12.5", "B")] {
        send(&mut store, "/add", USER_ID);
        send(&mut store, amount, USER_ID);
        send(&mut store, category, USER_ID);
    }
    let outcome = send(&mut store, "/history", USER_ID);
    assert!(outcome.error.is_none());
    assert_eq!(text_of(&outcome), "30: A, \n12.5: B");
    assert_eq!(store.get_user_dialog(USER_ID), None);
}

#[test]
fn history_of_no_records_is_the_empty_state() {
    let empty = "You have no records yet. Use /add to write down an expense.";
    let mut store = registered();
    let outcome = send(&mut store, "/history", USER_ID);
    assert_eq!(text_of(&outcome), empty);
    assert!(outcome.error.is_none());
    let outcome = send(&mut store, "/history", "stranger");
    assert_eq!(text_of(&outcome), empty);
    assert!(outcome.error.is_none());
    let outcome = Dialog::<History>::new().handle_current_step(&store, USER_ID);
    assert_eq!(text_of(&outcome), empty);
}

#[test]
fn history_shows_an_open_record() {
    let mut store = registered();
    send(&mut store, "/add", USER_ID);
    send(&mut store, "3", USER_ID);
    let outcome = Dialog::<History>::new().handle_current_step(&store, USER_ID);
    assert_eq!(text_of(&outcome), "3: no category");
}

#[test]
fn free_text_without_a_dialog_is_not_understood() {
    let mut store = Store::new();
    let outcome = send(&mut store, "hello", USER_ID);
    assert_eq!(
        text_of(&outcome),
        "I didn't get that. Use /help to see list of available commands."
    );
    assert!(outcome.error.is_none());
    let mut store = registered();
    let outcome = send(&mut store, "/sendnow", USER_ID);
    assert_eq!(
        text_of(&outcome),
        "I didn't get that. Use /help to see list of available commands."
    );
}

#[test]
fn fresh_command_drops_the_dialog_in_flight() {
    let mut store = registered();
    send(&mut store, "/add", USER_ID);
    let outcome = send(&mut store, "/help", USER_ID);
    assert_eq!(text_of(&outcome), HELP_TEXT);
    assert_eq!(store.get_user_dialog(USER_ID), None);
    send(&mut store, "/feedback", USER_ID);
    let outcome = send(&mut store, "/stop", USER_ID);
    assert_eq!(text_of(&outcome), "User and subscriptions deleted");
    assert_eq!(text_of(&stop()), "User and subscriptions deleted");
    assert_eq!(store.get_user_dialog(USER_ID), None);
    assert!(store.is_registered(USER_ID));
}

#[test]
fn route_decides_by_literal_then_by_dialog() {
    let mut store = Store::new();
    assert!(matches!(
        route(&store, "/add", USER_ID),
        RoutingDecision::StartFresh(Command::Add)
    ));
    assert!(matches!(
        route(&store, "add", USER_ID),
        RoutingDecision::Unrecognized
    ));
    store.save_user(USER_ID).unwrap();
    match route(&store, "€", USER_ID) {
        RoutingDecision::Resume(dialog) => {
            assert_eq!(dialog.command, "/start");
            assert_eq!(dialog.step, Some("CurrencySelection".to_string()));
        }
        other => panic!("unexpected {:?}", other),
    }
    assert!(matches!(
        route(&store, "/history", USER_ID),
        RoutingDecision::StartFresh(Command::History)
    ));
    store.update_dialog(None, USER_ID).unwrap();
    assert!(matches!(
        route(&store, "€", USER_ID),
        RoutingDecision::Unrecognized
    ));
}

#[test]
fn persisted_command_without_a_dialog_is_an_error() {
    let mut store = registered();
    for command in ["/test", "/help", "/history", "/stop"] {
        let dialog = DialogEntity::new_with(command.to_string(), None).unwrap();
        store.update_dialog(Some(dialog), USER_ID).unwrap();
        let outcome = send(&mut store, "hello", USER_ID);
        assert!(outcome.reply.is_none());
        match outcome.error {
            Some(BotError::CustomError(text)) => {
                assert_eq!(text, "can not process such command")
            }
            other => panic!("unexpected {:?}", other),
        }
        assert_eq!(store.get_user_dialog(USER_ID).unwrap().command, command);
    }
}

#[test]
fn persisted_step_that_names_none_is_refused() {
    let mut store = registered();
    for command in ["/start", "/feedback", "/add"] {
        let dialog = DialogEntity::new_with(command.to_string(), Some("foo".to_string())).unwrap();
        let outcome = resume(&mut store, &dialog, USER_ID, "hello", None, 1);
        assert!(outcome.reply.is_none());
        match outcome.error {
            Some(BotError::CustomError(text)) => {
                assert_eq!(text, "can not read the step of the persisted dialog")
            }
            other => panic!("unexpected {:?}", other),
        }
        assert_eq!(store.get_user_dialog(USER_ID), None);
    }

    let dialog = DialogEntity::new_with("/add".to_string(), Some("foo".to_string())).unwrap();
    store.update_dialog(Some(dialog), USER_ID).unwrap();
    let outcome = send(&mut store, "30", USER_ID);
    assert!(outcome.reply.is_none());
    assert!(matches!(outcome.error, Some(BotError::CustomError(_))));
    assert!(outcome.error.unwrap().needs_notice());
    assert_eq!(
        dialog_of(&store, USER_ID),
        Some(("/add".to_string(), Some("foo".to_string())))
    );
    assert_eq!(store.get_all_records(USER_ID).len(), 0);
}

#[test]
fn persisted_dialog_without_a_step_is_at_its_first_step() {
    let mut store = registered();
    let dialog = DialogEntity::new_with("/feedback".to_string(), None).unwrap();
    let outcome = resume(&mut store, &dialog, USER_ID, "hello", None, 1);
    assert_eq!(text_of(&outcome), FEEDBACK_TEXT);
    let dialog = DialogEntity::new_with("/add".to_string(), None).unwrap();
    let outcome = resume(&mut store, &dialog, USER_ID, "hello", None, 1);
    assert_eq!(text_of(&outcome), "Write amount of money you have spent");
}

#[test]
fn repeated_delivery_adds_one_record() {
    let ten = || Some(Amount::new("10".to_string()));

    let mut in_turn = registered();
    handle_message_at(&mut in_turn, "/add", USER_ID, None, 1);
    handle_message_at(&mut in_turn, "10", USER_ID, ten(), 2);
    handle_message_at(&mut in_turn, "/add", USER_ID, None, 3);
    handle_message_at(&mut in_turn, "10", USER_ID, ten(), 4);
    let records = in_turn.get_all_records(USER_ID);
    assert_eq!(records.len(), 1);
    assert_eq!(records[0].1.amount.as_str(), "10");
    assert_eq!(records[0].1.category, None);

    let mut at_once = registered();
    handle_message_at(&mut at_once, "/add", USER_ID, None, 1);
    handle_message_at(&mut at_once, "/add", USER_ID, None, 2);
    handle_message_at(&mut at_once, "10", USER_ID, ten(), 3);
    handle_message_at(&mut at_once, "10", USER_ID, ten(), 4);
    let records = at_once.get_all_records(USER_ID);
    assert_eq!(records.len(), 1);
    assert_eq!(records[0].1.amount.as_str(), "10");
    assert_eq!(records[0].1.category, Some("10".to_string()));
    assert_eq!(records[0].1.created, 3);
    assert_eq!(records[0].1.updated, Some(4));
}

#[test]
fn start_fresh_runs_the_first_step() {
    let mut store = Store::new();
    let outcome = start_fresh(&mut store, Command::Start, USER_ID, 1);
    assert_eq!(text_of(&outcome), "Choose your currency");
    let outcome = start_fresh(&mut store, Command::Add, USER_ID, 2);
    assert_eq!(text_of(&outcome), "Write amount of money you have spent");
}

#[test]
fn conclude_reports_gateway_first() {
    let sent = conclude(None, Ok("text".to_string()));
    assert_eq!(sent.unwrap(), "text");

    let parsing = conclude(
        Some(BotError::ParsingError("x".to_string())),
        Ok("text".to_string()),
    );
    assert!(matches!(parsing, Err(BotError::ParsingError(_))));

    let gateway = conclude(
        Some(BotError::ParsingError("x".to_string())),
        Err(TelegramError::Unsuccessful("down".to_string())),
    );
    match gateway {
        Err(BotError::TelegramError(error)) => assert_eq!(error.to_string(), "down"),
        other => panic!("unexpected {:?}", other),
    }
}

#[test]
fn failure_notice_is_kept_back_for_parsing_errors() {
    assert!(failure_notice(&BotError::ParsingError("x".to_string())).is_none());
    for error in [
        BotError::StoreError(StoreError("gone".to_string())),
        BotError::CustomError("odd".to_string()),
        BotError::TelegramError(TelegramError::Unsuccessful("down".to_string())),
    ] {
        let notice: Reply = failure_notice(&error).expect("no notice");
        assert_eq!(notice.text, ERROR_TEXT);
        assert!(notice.reply_markup.is_none());
    }
}

#[test]
fn bot_errors_say_why() {
    assert_eq!(
        BotError::StoreError(StoreError("gone".to_string())).to_string(),
        "gone"
    );
    assert_eq!(BotError::CustomError("odd".to_string()).to_string(), "odd");
    assert_eq!(
        BotError::ParsingError("abc".to_string()).to_string(),
        "invalid number: abc"
    );
    assert_eq!(
        BotError::TelegramError(TelegramError::Unsuccessful("down".to_string())).to_string(),
        "down"
    );
    let from_store: BotError = StoreError("gone".to_string()).into();
    assert!(matches!(from_store, BotError::StoreError(_)));
    let from_text: BotError = "odd".to_string().into();
    assert!(matches!(from_text, BotError::CustomError(_)));
    let from_gateway: BotError = TelegramError::Unsuccessful("down".to_string()).into();
    assert!(matches!(from_gateway, BotError::TelegramError(_)));
}

#[test]
fn reply_becomes_a_message() {
    let reply = Reply::plain("hello".to_string());
    let message = reply.to_message("123");
    assert_eq!(message.chat_id, "123");
    assert_eq!(message.text, "hello");
    assert!(!message.disable_notification);
    assert!(!message.disable_web_page_preview);
    assert!(message.reply_markup.is_none());

    let mut store = Store::new();
    let outcome = send(&mut store, "/start", USER_ID);
    let reply = outcome.reply.unwrap();
    assert!(reply.to_message(USER_ID).reply_markup.is_some());
}

#[test]
fn updates_bring_texts_and_button_answers() {
    assert_eq!(
        inbound(Update::Message {
            user_id: "1".to_string(),
            text: Some("hi".to_string())
        }),
        Some(Inbound {
            user_id: "1".to_string(),
            payload: "hi".to_string()
        })
    );
    assert_eq!(
        inbound(Update::Message {
            user_id: "1".to_string(),
            text: None
        }),
        None
    );
    assert_eq!(
        inbound(Update::CallbackQuery {
            user_id: "1".to_string(),
            has_message: true,
            data: Some("$".to_string())
        }),
        Some(Inbound {
            user_id: "1".to_string(),
            payload: "$".to_string()
        })
    );
    assert_eq!(
        inbound(Update::CallbackQuery {
            user_id: "1".to_string(),
            has_message: false,
            data: Some("$".to_string())
        }),
        None
    );
    assert_eq!(
        inbound(Update::CallbackQuery {
            user_id: "1".to_string(),
            has_message: true,
            data: None
        }),
        None
    );
    assert_eq!(inbound(Update::Other), None);
}

#[test]
fn outcomes_say_or_fail() {
    let said = Outcome::say("hello".to_string());
    assert_eq!(text_of(&said), "hello");
    assert!(said.error.is_none());
    assert!(said.feedback.is_none());
    let failed = Outcome::fail(BotError::CustomError("odd".to_string()));
    assert!(failed.reply.is_none());
    assert!(matches!(failed.error, Some(BotError::CustomError(_))));
}

#[test]
fn handling_as_of_now_stamps_the_record() {
    let mut store = registered();
    send(&mut store, "/add", USER_ID);
    send(&mut store, "30", USER_ID);
    let records = store.get_all_records(USER_ID);
    assert!(records[0].1.created > 1_500_000_000);
}
