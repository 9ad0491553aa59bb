//! The commands that need no more than the user's id.

use vstd::prelude::*;

use crate::bot::dialogs::feedback::feedback_turn;
use crate::bot::dialogs::start::start_turn;
use crate::bot::dialogs::{Dialog, Feedback, Start};
use crate::bot::reply::{said, Outcome};
use crate::bot::{HELP_TEXT, STOP_TEXT};
use crate::store::Store;

verus! {

/// Takes the first step of the registration for `user_id`.
pub fn start(store: &mut Store, user_id: &str) -> (out: Outcome)
    requires
        old(store).wf(),
    ensures
        final(store).wf(),
        final(store)@ == start_turn(old(store)@, None, user_id@, Seq::empty()).users,
        out@ == start_turn(old(store)@, None, user_id@, Seq::empty()).outcome,
{
    proof {
        reveal_strlit("");
        assert(""@ =~= Seq::<char>::empty());
    }
    Dialog::<Start>::new().handle_current_step(store, user_id, "")
}

/// Answers the command that ends what the user was in.
pub fn stop() -> (out: Outcome)
    ensures
        out@ == said(STOP_TEXT@),
{
    Outcome::say(STOP_TEXT.to_owned())
}

/// Takes the first step of the feedback dialog for `user_id`.
pub fn feedback(store: &mut Store, user_id: &str) -> (out: Outcome)
    requires
        old(store).wf(),
    ensures
        final(store).wf(),
        final(store)@ == feedback_turn(
            old(store)@,
            Some(Feedback::Start),
            user_id@,
            Seq::empty(),
        ).users,
        out@ == feedback_turn(old(store)@, Some(Feedback::Start), user_id@, Seq::empty()).outcome,
{
    proof {
        reveal_strlit("");
        assert(""@ =~= Seq::<char>::empty());
    }
    Dialog::<Feedback>::new().handle_current_step(store, user_id, "")
}

/// Answers with the list of the commands.
pub fn help() -> (out: Outcome)
    ensures
        out@ == said(HELP_TEXT@),
{
    Outcome::say(HELP_TEXT.to_owned())
}

} // verus!
