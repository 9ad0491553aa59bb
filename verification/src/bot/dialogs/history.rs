//! The listing of a user's expenses.

use vstd::prelude::*;

use crate::bot::dialogs::{Command, Dialog, Step};
use crate::bot::reply::{said, Outcome, Turn};
use crate::store::history::{listed, record_line, ExpenseRecord, RecordView};
use crate::store::{ledger_of, Store, UserView};
use crate::text::same_text;
use vstd::string::StringExecFns;

verus! {

/// The one step of the listing.
#[derive(Debug, Clone, Copy, PartialEq, Eq, Hash, Structural)]
pub enum History {
    List,
}

impl Step for History {
    open spec fn name(self) -> Seq<char> {
        "List"@
    }

    open spec fn named(name: Seq<char>) -> Option<Self> {
        if name == "List"@ {
            Some(History::List)
        } else {
            None
        }
    }

    fn parse(name: &str) -> (r: Option<Self>) {
        if same_text(name, "List") {
            Some(History::List)
        } else {
            None
        }
    }

    fn to_string(&self) -> (r: String) {
        "List".to_owned()
    }
}

impl Default for Dialog<History> {
    fn default() -> (r: Self)
        ensures
            r == (Dialog::<History> { command: Command::History, current_step: None }),
    {
        Self::new()
    }
}

impl Dialog<History> {
    /// The listing.
    pub fn new() -> (r: Self)
        ensures
            r == (Dialog::<History> { command: Command::History, current_step: None }),
    {
        Dialog { command: Command::History, current_step: None }
    }

    /// The step that the listing starts at.
    pub fn initial_step() -> (r: History)
        ensures
            r == History::List,
    {
        History::List
    }
}

/// What a user without expenses reads in place of a listing.
pub const NO_RECORDS: &'static str = "You have no records yet. Use /add to write down an expense.";

/// The lines of `ledger`, oldest first, with a comma and a line break
/// between two of them.
pub open spec fn listing(ledger: Seq<RecordView>) -> Seq<char>
    decreases ledger.len(),
{
    if ledger.len() == 0 {
        Seq::empty()
    } else if ledger.len() == 1 {
        record_line(ledger[0])
    } else {
        listing(ledger.drop_last()) + ", \n"@ + record_line(ledger.last())
    }
}

/// What a user reads of `ledger`: its listing, or the word that it is empty.
pub open spec fn history_text(ledger: Seq<RecordView>) -> Seq<char> {
    if ledger.len() == 0 {
        NO_RECORDS@
    } else {
        listing(ledger)
    }
}

/// The listing of the expenses of `id`. It changes nothing, and a stranger
/// reads what a user without expenses reads.
pub open spec fn history_turn(users: Map<Seq<char>, UserView>, id: Seq<char>) -> Turn {
    Turn { users: users, outcome: said(history_text(ledger_of(users, id))) }
}

/// The text of a listing.
pub fn render(records: &Vec<(u64, ExpenseRecord)>) -> (r: String)
    ensures
        r@ == history_text(listed(records@)),
{
    if records.len() == 0 {
        return NO_RECORDS.to_owned();
    }
    let ghost ledger = listed(records@);
    let mut text = records[0].1.print();
    let mut i: usize = 1;
    assert(ledger.take(1)[0] == ledger[0]);
    while i < records.len()
        invariant
            1 <= i <= records.len(),
            ledger == listed(records@),
            text@ == listing(ledger.take(i as int)),
        decreases records.len() - i,
    {
        text.append(", \n");
        let line = records[i].1.print();
        text.append(line.as_str());
        proof {
            let next = ledger.take(i + 1);
            assert(next.drop_last() =~= ledger.take(i as int));
            assert(next.last() == ledger[i as int]);
        }
        i += 1;
    }
    assert(ledger.take(i as int) =~= ledger);
    text
}

impl Dialog<History> {
    /// Lists the expenses of `user_id`.
    pub fn handle_current_step(&self, store: &Store, user_id: &str) -> (out: Outcome)
        ensures
            out@ == history_turn(store@, user_id@).outcome,
    {
        let records = store.get_all_records(user_id);
        Outcome::say(render(&records))
    }
}

} // verus!
