//! The in-memory store of users, their dialogs and their expenses.

use vstd::hash_map::StringHashMap;
use vstd::prelude::*;
use vstd::string::StringExecFns;

use crate::store::error::{StoreError, ValidationError};
use crate::store::history::{
    current_timestamp, has_open, is_listing, ledger_patched, ledger_saved, ledger_wf, next_place,
    open_record, Amount, ExpenseRecord, ExpenseRecordPatch, History, RecordView, NO_OPEN_RECORD,
};
use crate::text::opt_text;

pub mod error;
pub mod history;

verus! {

/// The dialog that a user is in, as it is persisted: the command's literal
/// and the name of the step. A missing step stands for the command's first
/// step.
#[derive(Debug, PartialEq)]
pub struct DialogEntity {
    pub command: String,
    pub step: Option<String>,
}

/// What a persisted dialog says, as plain values.
pub struct DialogView {
    pub command: Seq<char>,
    pub step: Option<Seq<char>>,
}

impl View for DialogEntity {
    type V = DialogView;

    open spec fn view(&self) -> DialogView {
        DialogView { command: self.command@, step: opt_text(self.step) }
    }
}

/// The view of an optional dialog.
pub open spec fn opt_dialog(dialog: Option<DialogEntity>) -> Option<DialogView> {
    match dialog {
        Some(d) => Some(d@),
        None => None,
    }
}

impl Clone for DialogEntity {
    fn clone(&self) -> (r: Self)
        ensures
            r@ == self@,
    {
        let step = match &self.step {
            Some(s) => Some(s.clone()),
            None => None,
        };
        DialogEntity { command: self.command.clone(), step }
    }
}

impl Default for DialogEntity {
    fn default() -> (r: Self)
        ensures
            r@ == (DialogView { command: "/start"@, step: None }),
    {
        Self::new()
    }
}

impl DialogEntity {
    pub fn command(&self) -> (r: &String)
        ensures
            r@ == self@.command,
    {
        &self.command
    }

    pub fn step(&self) -> (r: &Option<String>)
        ensures
            opt_text(*r) == self@.step,
    {
        &self.step
    }

    /// The dialog of the registration command at its first step.
    pub fn new() -> (r: DialogEntity)
        ensures
            r@ == (DialogView { command: "/start"@, step: None }),
    {
        DialogEntity { command: String::from_str("/start"), step: None }
    }

    /// The dialog of `command` at `step`. An empty command is refused.
    pub fn new_with(command: String, step: Option<String>) -> (r: Result<
        DialogEntity,
        ValidationError,
    >)
        ensures
            r is Ok <==> command@.len() > 0,
            r is Ok ==> r->Ok_0@ == (DialogView { command: command@, step: opt_text(step) }),
            r is Err ==> r->Err_0@ == EMPTY_COMMAND@,
    {
        if command.as_str().is_empty() {
            return Err(ValidationError(String::from_str(EMPTY_COMMAND)));
        }
        Ok(DialogEntity { command, step })
    }
}

/// What the store holds of one user.
#[derive(Debug, PartialEq)]
pub struct UserData {
    pub user_id: String,
    pub current_dialog: Option<DialogEntity>,
    pub currency: Option<String>,
    pub history: History,
}

/// What the store holds of one user, as plain values.
pub struct UserView {
    pub user_id: Seq<char>,
    pub current_dialog: Option<DialogView>,
    pub currency: Option<Seq<char>>,
    pub history: Seq<RecordView>,
}

impl View for UserData {
    type V = UserView;

    open spec fn view(&self) -> UserView {
        UserView {
            user_id: self.user_id@,
            current_dialog: opt_dialog(self.current_dialog),
            currency: opt_text(self.currency),
            history: self.history@,
        }
    }
}

impl Clone for UserData {
    fn clone(&self) -> (r: Self)
        ensures
            r@ == self@,
    {
        let current_dialog = match &self.current_dialog {
            Some(d) => Some(d.clone()),
            None => None,
        };
        let currency = match &self.currency {
            Some(c) => Some(c.clone()),
            None => None,
        };
        UserData {
            user_id: self.user_id.clone(),
            current_dialog,
            currency,
            history: self.history.clone(),
        }
    }
}

/// A user as the store holds them right after registration: in the
/// registration dialog at the choice of a currency, with no currency and no
/// expenses yet.
pub open spec fn fresh_user(user_id: Seq<char>) -> UserView {
    UserView {
        user_id: user_id,
        current_dialog: Some(
            DialogView { command: "/start"@, step: Some("CurrencySelection"@) },
        ),
        currency: None,
        history: Seq::empty(),
    }
}

impl UserData {
    /// The data of a user who has just registered. An empty id is refused.
    pub fn new(user_id: String) -> (r: Result<UserData, ValidationError>)
        ensures
            r is Ok <==> user_id@.len() > 0,
            r is Ok ==> r->Ok_0@ == fresh_user(user_id@),
            r is Err ==> r->Err_0@ == EMPTY_USER_ID@,
    {
        if user_id.as_str().is_empty() {
            return Err(ValidationError(String::from_str(EMPTY_USER_ID)));
        }
        Ok(
            UserData {
                user_id,
                current_dialog: Some(
                    DialogEntity {
                        command: String::from_str("/start"),
                        step: Some(String::from_str("CurrencySelection")),
                    },
                ),
                currency: None,
                history: History::new(),
            },
        )
    }
}

/// A change to a user's data: what is `None` stays as it is.
#[derive(Debug, PartialEq)]
pub struct UserDataPatch {
    pub current_dialog: Option<DialogEntity>,
    pub currency: Option<String>,
}

impl Default for UserDataPatch {
    fn default() -> (r: Self)
        ensures
            r.current_dialog is None,
            r.currency is None,
    {
        Self::new()
    }
}

impl UserDataPatch {
    /// The patch that changes nothing.
    pub fn new() -> (r: UserDataPatch)
        ensures
            r.current_dialog is None,
            r.currency is None,
    {
        UserDataPatch { currency: None, current_dialog: None }
    }

    pub fn new_with(current_dialog: Option<DialogEntity>, currency: Option<String>) -> (r:
        UserDataPatch)
        ensures
            r.current_dialog == current_dialog,
            r.currency == currency,
    {
        UserDataPatch { current_dialog, currency }
    }
}

/// A store is in order when each user is held under their own id and each
/// ledger is in order.
pub open spec fn store_wf(users: Map<Seq<char>, UserView>) -> bool {
    forall|id: Seq<char>|
        users.contains_key(id) ==> (#[trigger] users[id]).user_id == id && ledger_wf(
            users[id].history,
        )
}

/// The store after `id` has registered.
pub open spec fn with_user(users: Map<Seq<char>, UserView>, id: Seq<char>) -> Map<
    Seq<char>,
    UserView,
> {
    users.insert(id, fresh_user(id))
}

/// The store after the dialog of `id` became `dialog`.
pub open spec fn with_dialog(
    users: Map<Seq<char>, UserView>,
    id: Seq<char>,
    dialog: Option<DialogView>,
) -> Map<Seq<char>, UserView>
    recommends
        users.contains_key(id),
{
    users.insert(id, UserView { current_dialog: dialog, ..users[id] })
}

/// The store after the currency of `id` became `currency`.
pub open spec fn with_currency(
    users: Map<Seq<char>, UserView>,
    id: Seq<char>,
    currency: Seq<char>,
) -> Map<Seq<char>, UserView>
    recommends
        users.contains_key(id),
{
    users.insert(id, UserView { currency: Some(currency), ..users[id] })
}

/// The store after `id` got the ledger `history`.
pub open spec fn with_history(
    users: Map<Seq<char>, UserView>,
    id: Seq<char>,
    history: Seq<RecordView>,
) -> Map<Seq<char>, UserView>
    recommends
        users.contains_key(id),
{
    users.insert(id, UserView { history: history, ..users[id] })
}

/// The store after `patch` was laid over the data of `id`: what the patch
/// leaves out stays.
pub open spec fn with_patch(
    users: Map<Seq<char>, UserView>,
    id: Seq<char>,
    current_dialog: Option<DialogView>,
    currency: Option<Seq<char>>,
) -> Map<Seq<char>, UserView>
    recommends
        users.contains_key(id),
{
    users.insert(
        id,
        UserView {
            current_dialog: if current_dialog is Some {
                current_dialog
            } else {
                users[id].current_dialog
            },
            currency: if currency is Some {
                currency
            } else {
                users[id].currency
            },
            ..users[id]
        },
    )
}

/// The dialog that the store holds for `id`: none for a stranger.
pub open spec fn dialog_of(users: Map<Seq<char>, UserView>, id: Seq<char>) -> Option<DialogView> {
    if users.contains_key(id) {
        users[id].current_dialog
    } else {
        None
    }
}

/// The ledger that the store holds for `id`: an empty one for a stranger.
pub open spec fn ledger_of(users: Map<Seq<char>, UserView>, id: Seq<char>) -> Seq<RecordView> {
    if users.contains_key(id) {
        users[id].history
    } else {
        Seq::empty()
    }
}

/// The message of the failure to find `id` in the store.
pub open spec fn missing_user_message(id: Seq<char>) -> Seq<char> {
    "User "@ + id + " is missing at store"@
}

/// The message of the failure to register `id` a second time.
pub open spec fn known_user_message(id: Seq<char>) -> Seq<char> {
    "User "@ + id + " is already at store"@
}

/// The users of the bot with their dialogs and expenses, by user id.
pub struct Store {
    data: StringHashMap<UserData>,
}

impl View for Store {
    type V = Map<Seq<char>, UserView>;

    closed spec fn view(&self) -> Map<Seq<char>, UserView> {
        Map::new(|id: Seq<char>| self.data@.contains_key(id), |id: Seq<char>| self.data@[id]@)
    }
}

impl Default for Store {
    fn default() -> (r: Self)
        ensures
            r@ == Map::<Seq<char>, UserView>::empty(),
            r.wf(),
    {
        Self::new()
    }
}

impl Store {
    /// Whether each user is held under their own id, with a ledger in order.
    pub open spec fn wf(&self) -> bool {
        store_wf(self@)
    }

    /// A store without users.
    pub fn new() -> (r: Store)
        ensures
            r@ == Map::<Seq<char>, UserView>::empty(),
            r.wf(),
    {
        let r = Store { data: StringHashMap::new() };
        assert(r@ =~= Map::<Seq<char>, UserView>::empty());
        r
    }

    /// Whether the store knows `id`.
    pub fn is_registered(&self, id: &str) -> (r: bool)
        ensures
            r == self@.contains_key(id@),
    {
        self.data.contains_key(id)
    }

    /// Registers `id` and returns it. Fails, and changes nothing, when the id
    /// is empty or the user is registered already.
    pub fn save_user(&mut self, id: &str) -> (r: Result<String, StoreError>)
        requires
            old(self).wf(),
        ensures
            final(self).wf(),
            r is Ok <==> id@.len() > 0 && !old(self)@.contains_key(id@),
            r is Ok ==> final(self)@ == with_user(old(self)@, id@) && r->Ok_0@ == id@,
            r is Err ==> final(self)@ == old(self)@,
            r is Err ==> r->Err_0@ == if id@.len() == 0 {
                EMPTY_USER_ID@
            } else {
                known_user_message(id@)
            },
    {
        if id.is_empty() {
            return Err(StoreError(String::from_str(EMPTY_USER_ID)));
        }
        if self.data.contains_key(id) {
            let mut message = String::from_str("User ");
            message.append(id);
            message.append(" is already at store");
            return Err(StoreError(message));
        }
        match UserData::new(id.to_owned()) {
            Ok(user_data) => {
                self.data.insert(id.to_owned(), user_data);
                assert(self@ =~= with_user(old(self)@, id@));
                Ok(id.to_owned())
            },
            Err(error) => Err(StoreError(error.0)),
        }
    }

    /// The dialog that `id` is in, if the user is known and in one.
    pub fn get_user_dialog(&self, id: &str) -> (r: Option<DialogEntity>)
        ensures
            opt_dialog(r) == dialog_of(self@, id@),
    {
        match self.data.get(id) {
            Some(user_data) => match &user_data.current_dialog {
                Some(current_dialog) => Some(current_dialog.clone()),
                None => None,
            },
            None => None,
        }
    }

    /// What the store holds of `id`.
    pub fn get_user_data(&self, id: &str) -> (r: Option<UserData>)
        ensures
            r is Some <==> self@.contains_key(id@),
            r is Some ==> r->Some_0@ == self@[id@],
    {
        match self.data.get(id) {
            Some(user_data) => Some(user_data.clone()),
            None => None,
        }
    }

    /// Sets the dialog of `id`, or clears it with `None`. Fails, and changes
    /// nothing, when the user is unknown.
    pub fn update_dialog(&mut self, dialog: Option<DialogEntity>, id: &str) -> (r: Result<
        (),
        StoreError,
    >)
        requires
            old(self).wf(),
        ensures
            final(self).wf(),
            r is Ok <==> old(self)@.contains_key(id@),
            r is Ok ==> final(self)@ == with_dialog(old(self)@, id@, opt_dialog(dialog)),
            r is Err ==> final(self)@ == old(self)@ && r->Err_0@ == UNKNOWN_DIALOG_OWNER@,
    {
        match self.data.get(id) {
            Some(user_data) => {
                let mut updated = user_data.clone();
                updated.current_dialog = dialog;
                self.data.insert(id.to_owned(), updated);
                assert(self@ =~= with_dialog(old(self)@, id@, opt_dialog(dialog)));
                Ok(())
            },
            None => Err(StoreError(String::from_str(UNKNOWN_DIALOG_OWNER))),
        }
    }

    /// Sets the currency of `id` and returns it; `None`, and no change, when
    /// the user is unknown.
    pub fn update_currency(&mut self, new_currency: &str, id: &str) -> (r: Option<String>)
        requires
            old(self).wf(),
        ensures
            final(self).wf(),
            r is Some <==> old(self)@.contains_key(id@),
            r is Some ==> final(self)@ == with_currency(old(self)@, id@, new_currency@)
                && r->Some_0@ == new_currency@,
            r is None ==> final(self)@ == old(self)@,
    {
        match self.data.get(id) {
            Some(user_data) => {
                let mut updated = user_data.clone();
                updated.currency = Some(new_currency.to_owned());
                self.data.insert(id.to_owned(), updated);
                assert(self@ =~= with_currency(old(self)@, id@, new_currency@));
                Some(new_currency.to_owned())
            },
            None => None,
        }
    }

    /// Saves an open record of `amount` for `id` as of now and returns its
    /// place in the ledger. Fails, and changes nothing, when the user is
    /// unknown.
    ///
    /// A user has one open record at most. Where the ledger holds one
    /// already, the new record takes its place and nothing is added: an open
    /// record is an amount that never got its category, and the amount that
    /// comes after it stands for it.
    pub fn add_expense_record(&mut self, id: &str, amount: Amount) -> (r: Result<u64, StoreError>)
        requires
            old(self).wf(),
        ensures
            final(self).wf(),
            r is Ok <==> old(self)@.contains_key(id@),
            r is Ok ==> r->Ok_0 == next_place(old(self)@[id@].history),
            r is Ok ==> exists|time_stamp: i64|
                final(self)@ == with_history(
                    old(self)@,
                    id@,
                    ledger_saved(old(self)@[id@].history, open_record(amount@), time_stamp),
                ),
            r is Err ==> final(self)@ == old(self)@ && r->Err_0@ == missing_user_message(id@),
    {
        let time_stamp = current_timestamp();
        self.add_expense_record_at(id, amount, time_stamp)
    }

    /// Closes the open record of `id` with `patch` as of now. Fails, and
    /// changes nothing, when the user is unknown or has no open record.
    pub fn update_latest_record(&mut self, id: &str, patch: ExpenseRecordPatch) -> (r: Result<
        (),
        StoreError,
    >)
        requires
            old(self).wf(),
        ensures
            final(self).wf(),
            r is Ok <==> old(self)@.contains_key(id@) && has_open(old(self)@[id@].history),
            r is Ok ==> exists|time_stamp: i64|
                final(self)@ == with_history(
                    old(self)@,
                    id@,
                    ledger_patched(old(self)@[id@].history, opt_text(patch.category), time_stamp),
                ),
            r is Err ==> final(self)@ == old(self)@,
            r is Err ==> r->Err_0@ == if old(self)@.contains_key(id@) {
                NO_OPEN_RECORD@
            } else {
                missing_user_message(id@)
            },
    {
        let time_stamp = current_timestamp();
        self.update_latest_record_at(id, patch, time_stamp)
    }

    /// Saves an open record of `amount` for `id` as of `time_stamp` and
    /// returns its place in the ledger. Fails, and changes nothing, when the
    /// user is unknown.
    ///
    /// A user has one open record at most. Where the ledger holds one
    /// already, the new record takes its place and nothing is added.
    pub fn add_expense_record_at(&mut self, id: &str, amount: Amount, time_stamp: i64) -> (r: Result<u64, StoreError>)
        requires
            old(self).wf(),
        ensures
            final(self).wf(),
            r is Ok <==> old(self)@.contains_key(id@),
            r is Ok ==> r->Ok_0 == next_place(old(self)@[id@].history) && final(self)@
                == with_history(
                old(self)@,
                id@,
                ledger_saved(
                    old(self)@[id@].history,
                    open_record(amount@),
                    time_stamp,
                ),
            ),
            r is Err ==> final(self)@ == old(self)@ && r->Err_0@ == missing_user_message(id@),
    {
        match self.data.get(id) {
            Some(user_data) => {
                let mut updated = user_data.clone();
                let place = updated.history.save_record_at(ExpenseRecord::new(amount), time_stamp);
                self.data.insert(id.to_owned(), updated);
                assert(self@ =~= with_history(
                    old(self)@,
                    id@,
                    ledger_saved(
                        old(self)@[id@].history,
                        open_record(amount@),
                        time_stamp,
                    ),
                ));
                Ok(place)
            },
            None => Err(missing_user(id)),
        }
    }

    /// Closes the open record of `id` with `patch` as of `time_stamp`. Fails,
    /// and changes nothing, when the user is unknown or has no open record.
    pub fn update_latest_record_at(&mut self, id: &str, patch: ExpenseRecordPatch, time_stamp: i64) -> (r: Result<(), StoreError>)
        requires
            old(self).wf(),
        ensures
            final(self).wf(),
            r is Ok <==> old(self)@.contains_key(id@) && has_open(old(self)@[id@].history),
            r is Ok ==> final(self)@ == with_history(
                old(self)@,
                id@,
                ledger_patched(old(self)@[id@].history, opt_text(patch.category), time_stamp),
            ),
            r is Err ==> final(self)@ == old(self)@,
            r is Err ==> r->Err_0@ == if old(self)@.contains_key(id@) {
                NO_OPEN_RECORD@
            } else {
                missing_user_message(id@)
            },
    {
        match self.data.get(id) {
            Some(user_data) => {
                let mut updated = user_data.clone();
                match updated.history.update_latest_record_at(patch, time_stamp) {
                    Ok(()) => {
                        self.data.insert(id.to_owned(), updated);
                        assert(self@ =~= with_history(
                            old(self)@,
                            id@,
                            ledger_patched(
                                old(self)@[id@].history,
                                opt_text(patch.category),
                                time_stamp,
                            ),
                        ));
                        Ok(())
                    },
                    Err(error) => Err(error),
                }
            },
            None => Err(missing_user(id)),
        }
    }

    /// The records of `id` with their places, oldest first; none for a
    /// stranger.
    pub fn get_all_records(&self, id: &str) -> (r: Vec<(u64, ExpenseRecord)>)
        ensures
            is_listing(r@, ledger_of(self@, id@)),
    {
        match self.data.get(id) {
            Some(user_data) => user_data.history.get_records_list(),
            None => {
                let list: Vec<(u64, ExpenseRecord)> = Vec::new();
                assert(crate::store::history::listed(list@) =~= Seq::<RecordView>::empty());
                list
            },
        }
    }

    /// Lays `user_data_patch` over the data of `id`. Fails, and changes
    /// nothing, when the user is unknown.
    pub fn update_user_data(&mut self, user_data_patch: UserDataPatch, id: &str) -> (r: Result<
        (),
        StoreError,
    >)
        requires
            old(self).wf(),
        ensures
            final(self).wf(),
            r is Ok <==> old(self)@.contains_key(id@),
            r is Ok ==> final(self)@ == with_patch(
                old(self)@,
                id@,
                opt_dialog(user_data_patch.current_dialog),
                opt_text(user_data_patch.currency),
            ),
            r is Err ==> final(self)@ == old(self)@ && r->Err_0@ == UNKNOWN_PATCH_OWNER@,
    {
        match self.data.get(id) {
            Some(user_data) => {
                let mut updated = user_data.clone();
                if let Some(currency) = user_data_patch.currency {
                    updated.currency = Some(currency);
                }
                if let Some(current_dialog) = user_data_patch.current_dialog {
                    updated.current_dialog = Some(current_dialog);
                }
                self.data.insert(id.to_owned(), updated);
                assert(self@ =~= with_patch(
                    old(self)@,
                    id@,
                    opt_dialog(user_data_patch.current_dialog),
                    opt_text(user_data_patch.currency),
                ));
                Ok(())
            },
            None => Err(StoreError(String::from_str(UNKNOWN_PATCH_OWNER))),
        }
    }

    /// Forgets `id`; `None`, and no change, when the user is unknown.
    pub fn delete(&mut self, id: &str) -> (r: Option<()>)
        requires
            old(self).wf(),
        ensures
            final(self).wf(),
            r is Some <==> old(self)@.contains_key(id@),
            final(self)@ == old(self)@.remove(id@),
    {
        if self.data.contains_key(id) {
            self.data.remove(id);
            assert(self@ =~= old(self)@.remove(id@));
            Some(())
        } else {
            assert(self@ =~= old(self)@.remove(id@));
            None
        }
    }

}

/// The failure that tells that the store does not know `id`.
pub fn missing_user(id: &str) -> (r: StoreError)
    ensures
        r@ == missing_user_message(id@),
{
    let mut message = String::from_str("User ");
    message.append(id);
    message.append(" is missing at store");
    StoreError(message)
}

/// The message of the refusal of an empty user id.
pub const EMPTY_USER_ID: &'static str = "User id can not be empty";

/// The message of the refusal of an empty command.
pub const EMPTY_COMMAND: &'static str = "Can not create dialog patch with empty command.";

/// The message of the failure to set the dialog of an unknown user.
pub const UNKNOWN_DIALOG_OWNER: &'static str = "Impossible to update nonexisting value";

/// The message of the failure to patch the data of an unknown user.
pub const UNKNOWN_PATCH_OWNER: &'static str = "Impossible to update not existing user";

} // verus!
