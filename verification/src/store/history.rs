//! The expense ledger of one user.

use vstd::prelude::*;

use crate::store::error::StoreError;
use crate::text::opt_text;
use vstd::string::StringExecFns;

verus! {

/// An amount of money, kept as the decimal text of the number it stands for.
///
/// The library stores amounts and shows them; it never computes with them.
/// The text is made where the user's input is read as a number.
#[derive(Debug, PartialEq)]
pub struct Amount {
    pub text: String,
}

impl View for Amount {
    type V = Seq<char>;

    open spec fn view(&self) -> Seq<char> {
        self.text@
    }
}

impl Clone for Amount {
    fn clone(&self) -> (r: Self)
        ensures
            r@ == self@,
    {
        Amount { text: self.text.clone() }
    }
}

impl Amount {
    pub fn new(text: String) -> (r: Self)
        ensures
            r@ == text@,
    {
        Amount { text }
    }

    pub fn as_str(&self) -> (r: &str)
        ensures
            r@ == self@,
    {
        self.text.as_str()
    }
}

/// What an expense record says, as plain values.
pub struct RecordView {
    pub amount: Seq<char>,
    pub category: Option<Seq<char>>,
    pub created: i64,
    pub updated: Option<i64>,
}

/// One expense. A record without a category is open.
#[derive(Debug, PartialEq)]
pub struct ExpenseRecord {
    pub amount: Amount,
    pub category: Option<String>,
    /// When the ledger took the record, in seconds since the epoch.
    pub created: i64,
    /// When the record got its category.
    pub updated: Option<i64>,
}

impl View for ExpenseRecord {
    type V = RecordView;

    open spec fn view(&self) -> RecordView {
        RecordView {
            amount: self.amount@,
            category: opt_text(self.category),
            created: self.created,
            updated: self.updated,
        }
    }
}

impl Clone for ExpenseRecord {
    fn clone(&self) -> (r: Self)
        ensures
            r@ == self@,
    {
        let category = match &self.category {
            Some(c) => Some(c.clone()),
            None => None,
        };
        ExpenseRecord {
            amount: self.amount.clone(),
            category,
            created: self.created,
            updated: self.updated,
        }
    }
}

/// An open record of `amount` that no ledger has taken yet.
pub open spec fn open_record(amount: Seq<char>) -> RecordView {
    RecordView { amount: amount, category: None, created: 0, updated: None }
}

impl ExpenseRecord {
    /// An open record of `amount`, not yet in any ledger.
    pub fn new(amount: Amount) -> (r: Self)
        ensures
            r@ == open_record(amount@),
    {
        ExpenseRecord { amount, category: None, created: 0, updated: None }
    }

    /// A record of `amount` spent on `category`, not yet in any ledger.
    pub fn new_with(amount: Amount, category: String) -> (r: Self)
        ensures
            r@ == (RecordView {
                amount: amount@,
                category: Some(category@),
                created: 0,
                updated: None,
            }),
    {
        ExpenseRecord { amount, category: Some(category), created: 0, updated: None }
    }

    /// Whether the record still waits for its category.
    pub fn is_open(&self) -> (r: bool)
        ensures
            r == (self@.category is None),
    {
        self.category.is_none()
    }

    /// The record as one line of a listing.
    pub fn print(&self) -> (r: String)
        ensures
            r@ == record_line(self@),
    {
        let mut line = self.amount.text.clone();
        line.append(": ");
        match &self.category {
            Some(category) => line.append(category.as_str()),
            None => line.append("no category"),
        }
        line
    }
}

/// One line of a listing: the amount, a colon, and the category.
pub open spec fn record_line(record: RecordView) -> Seq<char> {
    record.amount + ": "@ + match record.category {
        Some(category) => category,
        None => "no category"@,
    }
}

/// The change that closes an open record.
#[derive(Debug, PartialEq)]
pub struct ExpenseRecordPatch {
    pub category: Option<String>,
}

impl ExpenseRecordPatch {
    pub fn new(category: Option<String>) -> (r: Self)
        ensures
            r.category == category,
    {
        ExpenseRecordPatch { category }
    }
}

/// A ledger is in order when only its newest record may be open.
pub open spec fn ledger_wf(ledger: Seq<RecordView>) -> bool {
    forall|i: int| 0 <= i < ledger.len() - 1 ==> (#[trigger] ledger[i]).category is Some
}

/// Whether the newest record of the ledger is open. In a ledger that is in
/// order no other record can be.
pub open spec fn has_open(ledger: Seq<RecordView>) -> bool {
    ledger.len() > 0 && ledger.last().category is None
}

/// The place that the next saved record takes: that of the open record, if
/// there is one, else the end of the ledger.
pub open spec fn next_place(ledger: Seq<RecordView>) -> int {
    if has_open(ledger) {
        ledger.len() - 1
    } else {
        ledger.len() as int
    }
}

/// The ledger after `record` was saved at `time_stamp`. An open record is a
/// draft: the saved record takes its place.
pub open spec fn ledger_saved(
    ledger: Seq<RecordView>,
    record: RecordView,
    time_stamp: i64,
) -> Seq<RecordView> {
    let stamped = RecordView { created: time_stamp, updated: None, ..record };
    if has_open(ledger) {
        ledger.update(ledger.len() - 1, stamped)
    } else {
        ledger.push(stamped)
    }
}

/// The ledger after its open record took `category` at `time_stamp`.
pub open spec fn ledger_patched(
    ledger: Seq<RecordView>,
    category: Option<Seq<char>>,
    time_stamp: i64,
) -> Seq<RecordView>
    recommends
        has_open(ledger),
{
    ledger.update(
        ledger.len() - 1,
        RecordView { category: category, updated: Some(time_stamp), ..ledger.last() },
    )
}

/// The expenses of one user, oldest first. A record is known by its place.
#[derive(Debug, PartialEq)]
pub struct History {
    records: Vec<ExpenseRecord>,
}

impl View for History {
    type V = Seq<RecordView>;

    closed spec fn view(&self) -> Seq<RecordView> {
        self.records@.map_values(|r: ExpenseRecord| r@)
    }
}

impl Clone for History {
    fn clone(&self) -> (r: Self)
        ensures
            r@ == self@,
    {
        let mut records: Vec<ExpenseRecord> = Vec::new();
        let mut i: usize = 0;
        while i < self.records.len()
            invariant
                i <= self.records.len(),
                records@.len() == i,
                forall|j: int| 0 <= j < i ==> (#[trigger] records@[j])@ == self.records@[j]@,
            decreases self.records.len() - i,
        {
            records.push(self.records[i].clone());
            i += 1;
        }
        let r = History { records };
        assert(r@ =~= self@);
        r
    }
}

impl Default for History {
    fn default() -> (r: Self)
        ensures
            r@ == Seq::<RecordView>::empty(),
    {
        Self::new()
    }
}

impl History {
    /// Whether only the newest record may be open.
    pub open spec fn wf(&self) -> bool {
        ledger_wf(self@)
    }

    /// An empty ledger.
    pub fn new() -> (r: History)
        ensures
            r@ == Seq::<RecordView>::empty(),
            r.wf(),
    {
        let r = History { records: Vec::new() };
        assert(r@ =~= Seq::<RecordView>::empty());
        r
    }

    /// Saves `expenses_record` as of now and returns its place.
    pub fn save_record(&mut self, expenses_record: ExpenseRecord) -> (r: u64)
        requires
            old(self).wf(),
        ensures
            final(self).wf(),
            r == next_place(old(self)@),
            exists|time_stamp: i64|
                final(self)@ == ledger_saved(old(self)@, expenses_record@, time_stamp),
    {
        let time_stamp = current_timestamp();
        self.save_record_at(expenses_record, time_stamp)
    }

    /// Saves `expenses_record` as created at `time_stamp` and returns its
    /// place. The record takes the place of an open one, if there is one.
    pub fn save_record_at(&mut self, expenses_record: ExpenseRecord, time_stamp: i64) -> (r: u64)
        requires
            old(self).wf(),
        ensures
            final(self).wf(),
            r == next_place(old(self)@),
            final(self)@ == ledger_saved(old(self)@, expenses_record@, time_stamp),
    {
        let stamped = ExpenseRecord {
            amount: expenses_record.amount,
            category: expenses_record.category,
            created: time_stamp,
            updated: None,
        };
        let len = self.records.len();
        if len > 0 && self.records[len - 1].is_open() {
            self.records.set(len - 1, stamped);
            assert(self@ =~= ledger_saved(old(self)@, expenses_record@, time_stamp));
            (len - 1) as u64
        } else {
            self.records.push(stamped);
            assert(self@ =~= ledger_saved(old(self)@, expenses_record@, time_stamp));
            len as u64
        }
    }

    /// The record at place `id`.
    pub fn get_record(&self, id: u64) -> (r: Option<ExpenseRecord>)
        ensures
            match r {
                Some(record) => id < self@.len() && record@ == self@[id as int],
                None => id >= self@.len(),
            },
    {
        if id < self.records.len() as u64 {
            Some(self.records[id as usize].clone())
        } else {
            None
        }
    }

    /// Closes the open record with `patch` as of now.
    pub fn update_latest_record(&mut self, patch: ExpenseRecordPatch) -> (r: Result<(), StoreError>)
        requires
            old(self).wf(),
        ensures
            final(self).wf(),
            r is Ok <==> has_open(old(self)@),
            r is Err ==> final(self)@ == old(self)@ && r->Err_0@ == NO_OPEN_RECORD@,
            r is Ok ==> exists|time_stamp: i64|
                final(self)@ == ledger_patched(old(self)@, opt_text(patch.category), time_stamp),
    {
        let time_stamp = current_timestamp();
        self.update_latest_record_at(patch, time_stamp)
    }

    /// Gives the open record the category of `patch` and marks it as updated
    /// at `time_stamp`. Fails, and changes nothing, when no record is open.
    pub fn update_latest_record_at(&mut self, patch: ExpenseRecordPatch, time_stamp: i64) -> (r:
        Result<(), StoreError>)
        requires
            old(self).wf(),
        ensures
            final(self).wf(),
            r is Ok <==> has_open(old(self)@),
            r is Err ==> final(self)@ == old(self)@ && r->Err_0@ == NO_OPEN_RECORD@,
            r is Ok ==> final(self)@ == ledger_patched(
                old(self)@,
                opt_text(patch.category),
                time_stamp,
            ),
    {
        let len = self.records.len();
        if len > 0 && self.records[len - 1].is_open() {
            let patched = ExpenseRecord {
                amount: self.records[len - 1].amount.clone(),
                category: patch.category,
                created: self.records[len - 1].created,
                updated: Some(time_stamp),
            };
            self.records.set(len - 1, patched);
            assert(self@ =~= ledger_patched(old(self)@, opt_text(patch.category), time_stamp));
            Ok(())
        } else {
            Err(StoreError(String::from_str(NO_OPEN_RECORD)))
        }
    }

    /// Every record with its place, oldest first.
    pub fn get_records_list(&self) -> (r: Vec<(u64, ExpenseRecord)>)
        ensures
            is_listing(r@, self@),
    {
        let mut list: Vec<(u64, ExpenseRecord)> = Vec::new();
        let mut i: usize = 0;
        while i < self.records.len()
            invariant
                i <= self.records.len(),
                list@.len() == i,
                forall|j: int|
                    0 <= j < i ==> (#[trigger] list@[j]).0 == j && list@[j].1@
                        == self.records@[j]@,
            decreases self.records.len() - i,
        {
            list.push((i as u64, self.records[i].clone()));
            i += 1;
        }
        assert(listed(list@) =~= self@);
        list
    }
}

/// The records of a listing, without their places.
pub open spec fn listed(list: Seq<(u64, ExpenseRecord)>) -> Seq<RecordView> {
    list.map_values(|entry: (u64, ExpenseRecord)| entry.1@)
}

/// Whether `list` holds the records of `ledger` in their order, each with
/// its place.
pub open spec fn is_listing(list: Seq<(u64, ExpenseRecord)>, ledger: Seq<RecordView>) -> bool {
    &&& listed(list) == ledger
    &&& forall|i: int| 0 <= i < list.len() ==> (#[trigger] list[i]).0 == i
}

/// The message of the failure to close a record when none is open.
pub const NO_OPEN_RECORD: &'static str = "Can not update latest record";

/// The time of the system's clock, as `chrono` counts it: the clock's
/// instant turned into a `chrono::DateTime<chrono::Utc>`, and of that the
/// `timestamp`, the seconds since the Unix epoch. A clock that stands before
/// the epoch gives a negative number. Nothing is claimed of the number.
#[verifier::external_body]
pub(crate) fn current_timestamp() -> (r: i64) {
    chrono::DateTime::<chrono::Utc>::from(std::time::SystemTime::now()).timestamp()
}

} // verus!
