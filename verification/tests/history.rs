use expenses::store::history::{Amount, ExpenseRecord, ExpenseRecordPatch, History};

fn amount(value: f32) -> Amount {
    Amount::new(format!("{}", value))
}

fn number(amount: &Amount) -> f32 {
    amount.as_str().parse().unwrap()
}

#[test]
fn user_record_saved_at_store() {
    let mut history = History::new();
    let key = history.save_record(ExpenseRecord::new(amount(30.00)));
    let option_record = history.get_record(key);
    assert!(option_record.is_some());
    let record = option_record.unwrap();
    assert_eq!(number(&record.amount), 30.00);
    assert_eq!(record.category, None);
}

#[test]
fn get_records_list_should_return_value() {
    let mut history = History::new();
    let key = history.save_record(ExpenseRecord::new(amount(30.00)));

    let vec = history.get_records_list();
    assert_eq!(vec.len(), 1);
    let tuple = vec.get(0).unwrap();
    assert_eq!(tuple.0, key);
    assert_eq!(tuple.1.category, None);
    assert_eq!(number(&tuple.1.amount), 30.00);
}

#[test]
fn get_records_list_should_return_empty_vec() {
    let history = History::new();

    let vec = history.get_records_list();
    assert!(vec.is_empty());
}

#[test]
fn amount_keeps_its_text() {
    let amount = Amount::new("12.5".to_string());
    assert_eq!(amount.as_str(), "12.5");
    assert_eq!(amount.clone(), amount);
}

#[test]
fn saved_record_is_stamped() {
    let mut history = History::new();
    let place = history.save_record_at(
        ExpenseRecord::new_with(Amount::new("7".to_string()), "Tea".to_string()),
        1_600_000_000,
    );
    assert_eq!(place, 0);
    let record = history.get_record(0).unwrap();
    assert_eq!(record.created, 1_600_000_000);
    assert_eq!(record.updated, None);
    assert_eq!(record.category, Some("Tea".to_string()));
    assert!(!record.is_open());
    assert_eq!(history.get_record(1), None);
}

#[test]
fn open_record_is_a_draft() {
    let mut history = History::new();
    assert_eq!(
        history.save_record_at(ExpenseRecord::new(Amount::new("10".to_string())), 5),
        0
    );
    assert_eq!(
        history.save_record_at(ExpenseRecord::new(Amount::new("20".to_string())), 6),
        0
    );
    let list = history.get_records_list();
    assert_eq!(list.len(), 1);
    assert_eq!(list[0].1.amount.as_str(), "20");
    assert_eq!(list[0].1.created, 6);
    assert!(list[0].1.is_open());
}

#[test]
fn closed_records_stay_and_places_count_up() {
    let mut history = History::new();
    for (i, category) in ["A", "B", "C"].iter().enumerate() {
        let place = history.save_record_at(
            ExpenseRecord::new(Amount::new(format!("{}", i + 1))),
            100 + i as i64,
        );
        assert_eq!(place, i as u64);
        assert!(history
            .update_latest_record_at(
                ExpenseRecordPatch::new(Some(category.to_string())),
                200 + i as i64
            )
            .is_ok());
    }
    let list = history.get_records_list();
    assert_eq!(list.len(), 3);
    for (i, category) in ["A", "B", "C"].iter().enumerate() {
        assert_eq!(list[i].0, i as u64);
        assert_eq!(list[i].1.category, Some(category.to_string()));
        assert_eq!(list[i].1.amount.as_str(), format!("{}", i + 1));
        assert_eq!(list[i].1.created, 100 + i as i64);
        assert_eq!(list[i].1.updated, Some(200 + i as i64));
    }
}

#[test]
fn nothing_to_close_is_an_error() {
    let mut history = History::new();
    let error = history
        .update_latest_record_at(ExpenseRecordPatch::new(Some("A".to_string())), 1)
        .unwrap_err();
    assert_eq!(error.to_string(), "Can not update latest record");

    history.save_record_at(
        ExpenseRecord::new_with(Amount::new("1".to_string()), "B".to_string()),
        2,
    );
    assert!(history
        .update_latest_record(ExpenseRecordPatch::new(Some("A".to_string())))
        .is_err());
    assert_eq!(
        history.get_record(0).unwrap().category,
        Some("B".to_string())
    );
}

#[test]
fn update_latest_record_closes_the_open_record() {
    let mut history = History::new();
    history.save_record(ExpenseRecord::new(Amount::new("3".to_string())));
    assert!(history
        .update_latest_record(ExpenseRecordPatch::new(Some("Bus".to_string())))
        .is_ok());
    let record = history.get_record(0).unwrap();
    assert_eq!(record.category, Some("Bus".to_string()));
    assert!(record.updated.is_some());
}

#[test]
fn record_prints_as_a_line() {
    let open = ExpenseRecord::new(Amount::new("30".to_string()));
    assert_eq!(open.print(), "30: no category");
    let closed = ExpenseRecord::new_with(Amount::new("12.5".to_string()), "Groceries".to_string());
    assert_eq!(closed.print(), "12.5: Groceries");
}

#[test]
fn history_clone_holds_the_same_records() {
    let mut history = History::new();
    history.save_record_at(ExpenseRecord::new(Amount::new("3".to_string())), 9);
    let copy = history.clone();
    assert_eq!(copy, history);
    assert_eq!(History::default().get_records_list().len(), 0);
}
