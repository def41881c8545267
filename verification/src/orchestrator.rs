//! The answer-key workflow on the store: which statement serves which
//! action, and which event its answer makes.
//!
//! The run of the solver is not here. It is the one action for which the
//! store is not needed, and whoever runs the workflow performs it without
//! holding the store.

use crate::answer_key::{Action, ActionView, Event, EventView};
use crate::archive::{
    answer_key_statement, save_answer_key_statement, test_questions_statement,
};
use crate::error::{viewed, StorageErrorView};
use crate::history::{
    executed, last_answer, looked_up_answer, ran, read_answer, Answer, Exchange,
};
use crate::query::StatementView;
use crate::question::Question;
use crate::setting::get_setting_statement;
use crate::store::Database;
use crate::worker::CREDENTIAL_SETTING;
use vstd::prelude::*;

verus! {

/// What a statement that returns no rows is answered, as the result of
/// running it.
pub open spec fn settled(answer: Answer) -> Result<(), StorageErrorView> {
    match answer {
        Ok(_) => Ok(()),
        Err(e) => Err(e),
    }
}

/// The statement that serves an action of the workflow, for the actions
/// that go to the store.
pub open spec fn statement_for(test_id: i32, action: ActionView) -> Option<StatementView> {
    match action {
        ActionView::ReadCache => Some(answer_key_statement(test_id)),
        ActionView::ReadMembers => Some(test_questions_statement(test_id)),
        ActionView::ReadCredential => Some(get_setting_statement(CREDENTIAL_SETTING@)),
        ActionView::StoreKey { key } => Some(save_answer_key_statement(test_id, key)),
        _ => None,
    }
}

/// The event that the answer to an action's statement makes.
pub open spec fn event_of(action: ActionView, answer: Answer) -> Option<EventView> {
    match action {
        ActionView::ReadCache => Some(EventView::CacheRead(looked_up_answer(answer))),
        ActionView::ReadMembers => Some(EventView::MembersRead(read_answer::<Question>(answer))),
        ActionView::ReadCredential => Some(EventView::CredentialRead(looked_up_answer(answer))),
        ActionView::StoreKey { .. } => Some(EventView::KeyStored(settled(answer))),
        _ => None,
    }
}

/// The mathematical value of what performing an action returns.
pub open spec fn performed(r: Result<Event, Action>) -> Result<EventView, ActionView> {
    match r {
        Ok(event) => Ok(event@),
        Err(action) => Err(action@),
    }
}

/// How an action is served. An action that goes to the store runs one
/// statement, [`statement_for`] it, and the result is the event made from
/// the answer: [`event_of`]. Any other action comes back as it is, and
/// nothing is asked of the store.
pub open spec fn served(
    before: Seq<Exchange>,
    after: Seq<Exchange>,
    test_id: i32,
    action: ActionView,
    result: Result<EventView, ActionView>,
) -> bool {
    match (statement_for(test_id, action), event_of(action, last_answer(after))) {
        (Some(statement), Some(event)) => {
            ran(before, after, statement) && result == Ok::<EventView, ActionView>(event)
        },
        _ => after == before && result == Err::<EventView, ActionView>(action),
    }
}

/// Performs an action of the workflow on the store and returns the event
/// to hand back to the workflow: [`served`].
pub fn perform_on_store(db: &mut Database, test_id: i32, action: Action) -> (r: Result<
    Event,
    Action,
>)
    ensures
        served(old(db).history(), final(db).history(), test_id, action@, performed(r)),
{
    match action {
        Action::ReadCache => Ok(Event::CacheRead(db.get_test_answer_key(test_id))),
        Action::ReadMembers => Ok(Event::MembersRead(db.get_test_questions(test_id))),
        Action::ReadCredential => Ok(Event::CredentialRead(db.get_setting(CREDENTIAL_SETTING))),
        Action::StoreKey { key } => {
            let stored = db.save_test_answer_key(test_id, key);
            assert(db.history().last() == executed(
                save_answer_key_statement(test_id, key@),
                viewed(stored),
            ));
            Ok(Event::KeyStored(stored))
        },
        other => Err(other),
    }
}

} // verus!
