use expenses::store::history::{Amount, ExpenseRecordPatch};
use expenses::store::{DialogEntity, Store, UserData, UserDataPatch};
use fake::{Fake, Faker};

#[test]
fn mod_user_id_cannot_be_empty() {
    let user_data = UserData::new("".to_string());
    assert!(user_data.is_err())
}

#[test]
fn mod_command_cannot_be_empty() {
    let dialog = DialogEntity::new_with("".to_string(), None);
    assert!(dialog.is_err())
}

#[test]
fn mod_is_registered_should_return_false_if_no_such_user_at_store() {
    let store = Store::new();
    assert!(!store.is_registered("user_id"));
}

#[test]
fn mod_is_registered_should_return_true_if_user_at_store() {
    let mut store = Store::new();
    assert!(store.save_user("user_id").is_ok());
    assert!(store.is_registered("user_id"));
}

#[test]
fn mod_user_data_is_saved_at_store() {
    let mut store = Store::new();

    assert!(store.save_user("user_id").is_ok());
    let retrieved_user_data = store
        .get_user_data("user_id")
        .expect("There is no such user");
    assert_eq!(retrieved_user_data.user_id, "user_id".to_string());
    assert!(retrieved_user_data.currency.is_none());
    let option_dialog = &retrieved_user_data.current_dialog;
    assert!(option_dialog.is_some());
    let retrieved_dialog = option_dialog.as_ref().unwrap();
    assert_eq!(retrieved_dialog.command, "/start".to_string());
    assert!(retrieved_dialog.step.is_some());
    assert_eq!(
        retrieved_dialog.step.as_ref().unwrap(),
        &"CurrencySelection"
    );
}

#[test]
fn mod_missing_user() {
    let store = Store::new();
    let user_id = Faker.fake::<String>();

    assert!(store.get_user_data(&user_id).is_none());
}

#[test]
fn mod_update_dialog_works() {
    let mut store = Store::new();
    assert_eq!(Ok("user_id".to_string()), store.save_user("user_id"));

    let dialog =
        DialogEntity::new_with("/test".to_string(), None).expect("Invalid DialogEntity");

    assert!(store.update_dialog(Some(dialog), "user_id").is_ok());

    let updated_dialog_option = store.get_user_dialog("user_id");
    assert!(updated_dialog_option.is_some());
    let updated_dialog = updated_dialog_option.unwrap();
    assert_eq!("/test", updated_dialog.command);
    let step = updated_dialog.step;
    assert!(step.is_none());
}

#[test]
fn mod_update_currency_works() {
    let mut store = Store::new();

    assert!(store.save_user("user_id").is_ok());
    assert_eq!(store.update_currency("$", "user_id"), Some("$".to_string()));
    let user_data = store
        .get_user_data("user_id")
        .expect("No user data for such user");
    assert_eq!(user_data.currency, Some("$".to_string()));
}

#[test]
fn mod_delete_works() {
    let mut store = Store::new();
    assert!(store.save_user("user_id").is_ok());

    assert_eq!((), store.delete("user_id").unwrap());
    assert_eq!(store.get_user_dialog("user_id"), None);
}

#[test]
fn mod_deleting_missing_user_returns_none() {
    let mut store = Store::new();
    let deleted_user = store.delete(&Faker.fake::<String>());
    assert_eq!(None, deleted_user)
}

#[test]
fn simple_store_user_id_cannot_be_empty() {
    let user_data = UserData::new("".to_string());
    assert!(user_data.is_err())
}

#[test]
fn simple_store_command_cannot_be_empty() {
    let dialog = DialogEntity::new_with("".to_string(), None);
    assert!(dialog.is_err())
}

#[test]
fn simple_store_is_registered_should_return_false_if_no_such_user_at_store() {
    let store = Store::new();
    assert!(!store.is_registered("user_id"));
}

#[test]
fn simple_store_is_registered_should_return_true_if_user_at_store() {
    let mut store = Store::new();
    assert!(store.save_user("user_id").is_ok());
    assert!(store.is_registered("user_id"));
}

#[test]
fn simple_store_user_data_is_saved_at_store() {
    let mut store = Store::new();

    assert!(store.save_user("user_id").is_ok());
    let retrieved_user_data = store
        .get_user_data("user_id")
        .expect("There is no such user");
    assert_eq!(retrieved_user_data.user_id, "user_id".to_string());
    assert!(retrieved_user_data.currency.is_none());
    let option_dialog = &retrieved_user_data.current_dialog;
    assert!(option_dialog.is_some());
    let retrieved_dialog = option_dialog.as_ref().unwrap();
    assert_eq!(retrieved_dialog.command, "/start".to_string());
    assert!(retrieved_dialog.step.is_some());
    assert_eq!(
        retrieved_dialog.step.as_ref().unwrap(),
        &"CurrencySelection"
    );
}

#[test]
fn simple_store_missing_user() {
    let store = Store::new();
    let user_id = Faker.fake::<String>();

    assert!(store.get_user_data(&user_id).is_none());
}

#[test]
fn simple_store_update_dialog_works() {
    let mut store = Store::new();
    assert_eq!(Ok("user_id".to_string()), store.save_user("user_id"));

    let dialog =
        DialogEntity::new_with("/test".to_string(), None).expect("Invalid DialogEntity");

    assert!(store.update_dialog(Some(dialog), "user_id").is_ok());

    let updated_dialog_option = store.get_user_dialog("user_id");
    assert!(updated_dialog_option.is_some());
    let updated_dialog = updated_dialog_option.unwrap();
    assert_eq!("/test", updated_dialog.command);
    let step = updated_dialog.step;
    assert!(step.is_none());
}

#[test]
fn simple_store_update_currency_works() {
    let mut store = Store::new();

    assert!(store.save_user("user_id").is_ok());
    assert_eq!(store.update_currency("$", "user_id"), Some("$".to_string()));
    let user_data = store
        .get_user_data("user_id")
        .expect("No user data for such user");
    assert_eq!(user_data.currency, Some("$".to_string()));
}

#[test]
fn simple_store_delete_works() {
    let mut store = Store::new();
    assert!(store.save_user("user_id").is_ok());

    assert_eq!((), store.delete("user_id").unwrap());
    assert_eq!(store.get_user_dialog("user_id"), None);
}

#[test]
fn simple_store_deleting_missing_user_returns_none() {
    let mut store = Store::new();
    let deleted_user = store.delete(&Faker.fake::<String>());
    assert_eq!(None, deleted_user)
}

#[test]
fn save_user_refuses_a_known_user() {
    let mut store = Store::new();
    assert_eq!(store.save_user("7"), Ok("7".to_string()));
    assert!(store.update_currency("$", "7").is_some());
    let error = store.save_user("7").unwrap_err();
    assert_eq!(error.to_string(), "User 7 is already at store");
    assert_eq!(
        store.get_user_data("7").unwrap().currency,
        Some("$".to_string())
    );
}

#[test]
fn save_user_refuses_an_empty_id() {
    let mut store = Store::new();
    let error = store.save_user("").unwrap_err();
    assert_eq!(error.to_string(), "User id can not be empty");
    assert!(!store.is_registered(""));
}

#[test]
fn validation_errors_say_why() {
    assert_eq!(
        UserData::new("".to_string()).unwrap_err().to_string(),
        "User id can not be empty"
    );
    assert_eq!(
        DialogEntity::new_with("".to_string(), None)
            .unwrap_err()
            .to_string(),
        "Can not create dialog patch with empty command."
    );
}

#[test]
fn default_dialog_is_the_registration() {
    let dialog = DialogEntity::new();
    assert_eq!(dialog.command(), "/start");
    assert_eq!(dialog.step(), &None);
    assert_eq!(DialogEntity::default(), dialog);
    assert_eq!(dialog.clone(), dialog);
}

#[test]
fn update_dialog_fails_for_a_stranger() {
    let mut store = Store::new();
    let error = store.update_dialog(None, "nobody").unwrap_err();
    assert_eq!(error.to_string(), "Impossible to update nonexisting value");
    assert!(!store.is_registered("nobody"));
}

#[test]
fn update_dialog_with_none_clears() {
    let mut store = Store::new();
    store.save_user("1").unwrap();
    assert!(store.get_user_dialog("1").is_some());
    assert!(store.update_dialog(None, "1").is_ok());
    assert_eq!(store.get_user_dialog("1"), None);
}

#[test]
fn update_currency_of_a_stranger_is_none() {
    let mut store = Store::new();
    assert_eq!(store.update_currency("$", "nobody"), None);
    assert!(!store.is_registered("nobody"));
}

#[test]
fn users_do_not_touch_each_other() {
    let mut store = Store::new();
    store.save_user("1").unwrap();
    store.save_user("2").unwrap();
    store.update_currency("$", "1").unwrap();
    store
        .add_expense_record_at("2", Amount::new("5".to_string()), 10)
        .unwrap();
    assert_eq!(store.get_user_data("2").unwrap().currency, None);
    assert_eq!(store.get_all_records("1").len(), 0);
    assert_eq!(store.get_all_records("2").len(), 1);
    assert_eq!(store.delete("1"), Some(()));
    assert!(store.is_registered("2"));
    assert!(!store.is_registered("1"));
}

#[test]
fn add_expense_record_needs_the_user() {
    let mut store = Store::new();
    let error = store
        .add_expense_record("nobody", Amount::new("5".to_string()))
        .unwrap_err();
    assert_eq!(error.to_string(), "User nobody is missing at store");
    assert_eq!(store.get_all_records("nobody").len(), 0);
}

#[test]
fn add_expense_record_opens_a_record() {
    let mut store = Store::new();
    store.save_user("1").unwrap();
    assert_eq!(
        store.add_expense_record("1", Amount::new("30".to_string())),
        Ok(0)
    );
    let records = store.get_all_records("1");
    assert_eq!(records.len(), 1);
    assert_eq!(records[0].0, 0);
    assert_eq!(records[0].1.amount.as_str(), "30");
    assert_eq!(records[0].1.category, None);
}

#[test]
fn update_latest_record_needs_an_open_record() {
    let mut store = Store::new();
    let error = store
        .update_latest_record("1", ExpenseRecordPatch::new(Some("A".to_string())))
        .unwrap_err();
    assert_eq!(error.to_string(), "User 1 is missing at store");
    store.save_user("1").unwrap();
    let error = store
        .update_latest_record_at("1", ExpenseRecordPatch::new(Some("A".to_string())), 3)
        .unwrap_err();
    assert_eq!(error.to_string(), "Can not update latest record");
    store
        .add_expense_record_at("1", Amount::new("30".to_string()), 2)
        .unwrap();
    assert!(store
        .update_latest_record("1", ExpenseRecordPatch::new(Some("A".to_string())))
        .is_ok());
    let records = store.get_all_records("1");
    assert_eq!(records[0].1.category, Some("A".to_string()));
    assert_eq!(records[0].1.created, 2);
}

#[test]
fn update_user_data_lays_the_patch_over() {
    let mut store = Store::new();
    store.save_user("1").unwrap();
    assert!(store
        .update_user_data(UserDataPatch::new_with(None, Some("€".to_string())), "1")
        .is_ok());
    let user = store.get_user_data("1").unwrap();
    assert_eq!(user.currency, Some("€".to_string()));
    assert_eq!(
        user.current_dialog.unwrap().step,
        Some("CurrencySelection".to_string())
    );
    let dialog = DialogEntity::new_with("/add".to_string(), Some("Amount".to_string())).unwrap();
    assert!(store
        .update_user_data(UserDataPatch::new_with(Some(dialog), None), "1")
        .is_ok());
    let user = store.get_user_data("1").unwrap();
    assert_eq!(user.currency, Some("€".to_string()));
    assert_eq!(user.current_dialog.unwrap().command, "/add");
    assert!(store.update_user_data(UserDataPatch::new(), "1").is_ok());
    assert_eq!(
        store.get_user_data("1").unwrap().currency,
        Some("€".to_string())
    );
    let error = store
        .update_user_data(UserDataPatch::default(), "2")
        .unwrap_err();
    assert_eq!(error.to_string(), "Impossible to update not existing user");
}

#[test]
fn default_store_is_empty() {
    let store = Store::default();
    assert!(!store.is_registered("user_id"));
    assert_eq!(store.get_user_dialog("user_id"), None);
}
