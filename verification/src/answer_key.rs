//! The answer-key workflow of one test, as a state machine.
//!
//! The machine decides; it does nothing itself. Its caller performs each
//! [`Action`] (a read or a write on the store, or a run of the solver) and
//! hands the result back as an [`Event`]. The store is busy only while
//! one such action runs, and not at all while the solver does.

use crate::error::{returned, Failure, FailureView, StorageError, StorageErrorView};
use crate::payload::{payload_text, solver_inputs, solver_inputs_of, solver_payload};
use crate::question::{Question, QuestionView};
use crate::worker::{credential, credential_text, solve, solve_arguments};
use vstd::prelude::*;

verus! {

/// Where the workflow stands: what it waits for.
#[derive(Debug, Clone, PartialEq, Eq)]
pub enum Stage {
    /// For the cached answer key of the test.
    CheckingCache,
    /// No key is cached: for the member questions.
    Preparing,
    /// The payload is made: for the credential.
    Marshalling { payload: String },
    /// The solver was called: for its outcome.
    Solving,
    /// The solver succeeded: for the store to take the key.
    Persisting { key: String },
    /// For nothing: the result has been given.
    Finished,
}

/// The mathematical value of a [`Stage`].
pub enum StageView {
    CheckingCache,
    Preparing,
    Marshalling { payload: Seq<char> },
    Solving,
    Persisting { key: Seq<char> },
    Finished,
}

impl DeepView for Stage {
    type V = StageView;

    open spec fn deep_view(&self) -> StageView {
        match self {
            Stage::CheckingCache => StageView::CheckingCache,
            Stage::Preparing => StageView::Preparing,
            Stage::Marshalling { payload } => StageView::Marshalling { payload: payload@ },
            Stage::Solving => StageView::Solving,
            Stage::Persisting { key } => StageView::Persisting { key: key@ },
            Stage::Finished => StageView::Finished,
        }
    }
}

impl View for Stage {
    type V = StageView;

    open spec fn view(&self) -> StageView {
        self.deep_view()
    }
}

/// How a run of the solver ended.
#[derive(Debug, Clone, PartialEq, Eq)]
pub enum SolverOutcome {
    /// The solver could not be started, or the exchange with it broke off.
    NotRun(String),
    /// The solver ran to its end. `output` is all it wrote to standard
    /// output, `diagnostics` all it wrote to standard error; `success`
    /// tells whether it exited with status zero.
    Exited { success: bool, output: String, diagnostics: String },
}

/// The mathematical value of a [`SolverOutcome`].
pub enum SolverOutcomeView {
    NotRun(Seq<char>),
    Exited { success: bool, output: Seq<char>, diagnostics: Seq<char> },
}

impl DeepView for SolverOutcome {
    type V = SolverOutcomeView;

    open spec fn deep_view(&self) -> SolverOutcomeView {
        match self {
            SolverOutcome::NotRun(reason) => SolverOutcomeView::NotRun(reason@),
            SolverOutcome::Exited { success, output, diagnostics } => SolverOutcomeView::Exited {
                success: *success,
                output: output@,
                diagnostics: diagnostics@,
            },
        }
    }
}

impl View for SolverOutcome {
    type V = SolverOutcomeView;

    open spec fn view(&self) -> SolverOutcomeView {
        self.deep_view()
    }
}

/// What the caller hands back after an action.
#[derive(Debug, PartialEq, Eq)]
pub enum Event {
    /// The cached answer key was read.
    CacheRead(Result<Option<String>, StorageError>),
    /// The member questions were read.
    MembersRead(Result<Vec<Question>, StorageError>),
    /// The stored credential was read.
    CredentialRead(Result<Option<String>, StorageError>),
    /// The solver returned.
    SolverReturned(SolverOutcome),
    /// The store was asked to take the answer key.
    KeyStored(Result<(), StorageError>),
}

/// The mathematical value of an [`Event`].
pub enum EventView {
    CacheRead(Result<Option<Seq<char>>, StorageErrorView>),
    MembersRead(Result<Seq<QuestionView>, StorageErrorView>),
    CredentialRead(Result<Option<Seq<char>>, StorageErrorView>),
    SolverReturned(SolverOutcomeView),
    KeyStored(Result<(), StorageErrorView>),
}

impl DeepView for Event {
    type V = EventView;

    open spec fn deep_view(&self) -> EventView {
        match self {
            Event::CacheRead(Ok(key)) => EventView::CacheRead(Ok(key.deep_view())),
            Event::CacheRead(Err(e)) => EventView::CacheRead(Err(e@)),
            Event::MembersRead(Ok(members)) => EventView::MembersRead(Ok(members.deep_view())),
            Event::MembersRead(Err(e)) => EventView::MembersRead(Err(e@)),
            Event::CredentialRead(Ok(c)) => EventView::CredentialRead(Ok(c.deep_view())),
            Event::CredentialRead(Err(e)) => EventView::CredentialRead(Err(e@)),
            Event::SolverReturned(outcome) => EventView::SolverReturned(outcome@),
            Event::KeyStored(Ok(_)) => EventView::KeyStored(Ok(())),
            Event::KeyStored(Err(e)) => EventView::KeyStored(Err(e@)),
        }
    }
}

impl View for Event {
    type V = EventView;

    open spec fn view(&self) -> EventView {
        self.deep_view()
    }
}

/// What the caller is to do next.
#[derive(Debug, PartialEq, Eq)]
pub enum Action {
    /// Read the cached answer key of the test.
    ReadCache,
    /// Read the member questions of the test.
    ReadMembers,
    /// Read the setting that holds the credential.
    ReadCredential,
    /// Run the solver with these arguments and this credential, without
    /// holding the store.
    RunSolver { arguments: Vec<String>, credential: String },
    /// Store this answer key for the test.
    StoreKey { key: String },
    /// Give this result to whoever asked.
    Finish(Result<String, Failure>),
    /// Nothing: the event was not the one awaited.
    Ignore,
}

/// The mathematical value of an [`Action`].
pub enum ActionView {
    ReadCache,
    ReadMembers,
    ReadCredential,
    RunSolver { arguments: Seq<Seq<char>>, credential: Seq<char> },
    StoreKey { key: Seq<char> },
    Finish(Result<Seq<char>, FailureView>),
    Ignore,
}

impl DeepView for Action {
    type V = ActionView;

    open spec fn deep_view(&self) -> ActionView {
        match self {
            Action::ReadCache => ActionView::ReadCache,
            Action::ReadMembers => ActionView::ReadMembers,
            Action::ReadCredential => ActionView::ReadCredential,
            Action::RunSolver { arguments, credential } => ActionView::RunSolver {
                arguments: arguments.deep_view(),
                credential: credential@,
            },
            Action::StoreKey { key } => ActionView::StoreKey { key: key@ },
            Action::Finish(Ok(key)) => ActionView::Finish(Ok(key@)),
            Action::Finish(Err(e)) => ActionView::Finish(Err(e@)),
            Action::Ignore => ActionView::Ignore,
        }
    }
}

impl View for Action {
    type V = ActionView;

    open spec fn view(&self) -> ActionView {
        self.deep_view()
    }
}

/// The verdict on a run of the solver: its output where it succeeded and
/// wrote any, else the failure.
pub open spec fn judged(outcome: SolverOutcomeView) -> Result<Seq<char>, FailureView> {
    match outcome {
        SolverOutcomeView::NotRun(reason) => Err(FailureView::Transport(reason)),
        SolverOutcomeView::Exited { success, output, diagnostics } => {
            if success && output.len() > 0 {
                Ok(output)
            } else {
                Err(FailureView::SolveFailed(diagnostics))
            }
        },
    }
}

/// The transition of the machine: the stage after an event, and the
/// action that the event calls for.
///
/// A cached key ends the run at once. Without one, the members are read;
/// a test without members fails. Then the credential is read and the
/// solver is called with the members as its payload. Its output, where it
/// succeeded, is stored as it is and then returned. Any failure of the
/// store or of the solver ends the run with that failure. An event that
/// the stage does not wait for changes nothing.
pub open spec fn next(stage: StageView, event: EventView) -> (StageView, ActionView) {
    match (stage, event) {
        (StageView::CheckingCache, EventView::CacheRead(Ok(Some(key)))) => (
            StageView::Finished,
            ActionView::Finish(Ok(key)),
        ),
        (StageView::CheckingCache, EventView::CacheRead(Ok(None))) => (
            StageView::Preparing,
            ActionView::ReadMembers,
        ),
        (StageView::CheckingCache, EventView::CacheRead(Err(e))) => (
            StageView::Finished,
            ActionView::Finish(Err(FailureView::Storage(e))),
        ),
        (StageView::Preparing, EventView::MembersRead(Ok(members))) => if members.len() == 0 {
            (StageView::Finished, ActionView::Finish(Err(FailureView::EmptyTest)))
        } else {
            (
                StageView::Marshalling { payload: payload_text(solver_inputs_of(members)) },
                ActionView::ReadCredential,
            )
        },
        (StageView::Preparing, EventView::MembersRead(Err(e))) => (
            StageView::Finished,
            ActionView::Finish(Err(FailureView::Storage(e))),
        ),
        (StageView::Marshalling { payload }, EventView::CredentialRead(Ok(stored))) => (
            StageView::Solving,
            ActionView::RunSolver {
                arguments: solve_arguments(payload),
                credential: credential_text(stored),
            },
        ),
        (StageView::Marshalling { .. }, EventView::CredentialRead(Err(e))) => (
            StageView::Finished,
            ActionView::Finish(Err(FailureView::Storage(e))),
        ),
        (StageView::Solving, EventView::SolverReturned(outcome)) => match judged(outcome) {
            Ok(key) => (StageView::Persisting { key }, ActionView::StoreKey { key }),
            Err(failure) => (StageView::Finished, ActionView::Finish(Err(failure))),
        },
        (StageView::Persisting { key }, EventView::KeyStored(Ok(_))) => (
            StageView::Finished,
            ActionView::Finish(Ok(key)),
        ),
        (StageView::Persisting { .. }, EventView::KeyStored(Err(e))) => (
            StageView::Finished,
            ActionView::Finish(Err(FailureView::Storage(e))),
        ),
        _ => (stage, ActionView::Ignore),
    }
}

/// How often the solver is called while the machine takes `events`, one
/// after the other, from `stage`.
pub open spec fn solver_runs(stage: StageView, events: Seq<EventView>) -> nat
    decreases events.len(),
{
    if events.len() == 0 {
        0
    } else {
        let (then, action) = next(stage, events[0]);
        let here: nat = if action is RunSolver {
            1
        } else {
            0
        };
        here + solver_runs(then, events.drop_first())
    }
}

/// The keys that the machine hands to the store while it takes `events`
/// from `stage`, in order.
pub open spec fn stored_keys(stage: StageView, events: Seq<EventView>) -> Seq<Seq<char>>
    decreases events.len(),
{
    if events.len() == 0 {
        Seq::empty()
    } else {
        let (then, action) = next(stage, events[0]);
        let here = match action {
            ActionView::StoreKey { key } => seq![key],
            _ => Seq::empty(),
        };
        here + stored_keys(then, events.drop_first())
    }
}

/// The result that the machine gives while it takes `events` from
/// `stage`, if it gives one.
pub open spec fn outcome(stage: StageView, events: Seq<EventView>) -> Option<
    Result<Seq<char>, FailureView>,
>
    decreases events.len(),
{
    if events.len() == 0 {
        None
    } else {
        let (then, action) = next(stage, events[0]);
        match action {
            ActionView::Finish(result) => Some(result),
            _ => outcome(then, events.drop_first()),
        }
    }
}

/// Once the result has been given, no event leads to anything.
pub proof fn law_finished_is_final(events: Seq<EventView>)
    ensures
        solver_runs(StageView::Finished, events) == 0,
        stored_keys(StageView::Finished, events) == Seq::<Seq<char>>::empty(),
        outcome(StageView::Finished, events) is None,
    decreases events.len(),
{
    if events.len() > 0 {
        law_finished_is_final(events.drop_first());
    }
}

/// A cached key is returned as it is, whatever follows: the solver is
/// not called and nothing is written.
pub proof fn law_cached_key_ends_the_run(key: Seq<char>, rest: Seq<EventView>)
    ensures
        ({
            let events = seq![EventView::CacheRead(Ok(Some(key)))] + rest;
            &&& outcome(StageView::CheckingCache, events) == Some(Ok::<_, FailureView>(key))
            &&& solver_runs(StageView::CheckingCache, events) == 0
            &&& stored_keys(StageView::CheckingCache, events) == Seq::<Seq<char>>::empty()
        }),
{
    let events = seq![EventView::CacheRead(Ok(Some(key)))] + rest;
    assert(events.drop_first() =~= rest);
    law_finished_is_final(rest);
}

/// A test without member questions fails as an empty test, whatever
/// follows: the solver is not called and nothing is written.
pub proof fn law_empty_test_is_refused(rest: Seq<EventView>)
    ensures
        ({
            let events = seq![
                EventView::CacheRead(Ok(None)),
                EventView::MembersRead(Ok(Seq::empty())),
            ] + rest;
            &&& outcome(StageView::CheckingCache, events) == Some(
                Err::<Seq<char>, _>(FailureView::EmptyTest),
            )
            &&& solver_runs(StageView::CheckingCache, events) == 0
            &&& stored_keys(StageView::CheckingCache, events) == Seq::<Seq<char>>::empty()
        }),
{
    let events = seq![EventView::CacheRead(Ok(None)), EventView::MembersRead(Ok(Seq::empty()))]
        + rest;
    let tail = seq![EventView::MembersRead(Ok(Seq::<QuestionView>::empty()))] + rest;
    assert(events.drop_first() =~= tail);
    assert(tail.drop_first() =~= rest);
    law_finished_is_final(rest);
    assert(next(StageView::CheckingCache, events[0]) == (
        StageView::Preparing,
        ActionView::ReadMembers,
    ));
    assert(next(StageView::Preparing, tail[0]) == (
        StageView::Finished,
        ActionView::Finish(Err(FailureView::EmptyTest)),
    ));
    assert(solver_runs(StageView::Preparing, tail) == 0);
    assert(stored_keys(StageView::Preparing, tail) =~= Seq::<Seq<char>>::empty());
    assert(outcome(StageView::Preparing, tail) == Some(
        Err::<Seq<char>, _>(FailureView::EmptyTest),
    ));
    assert(solver_runs(StageView::CheckingCache, events) == 0);
    assert(stored_keys(StageView::CheckingCache, events) =~= Seq::<Seq<char>>::empty());
}

/// A test with members and without a cached key reaches the solver: when
/// the store has answered the three reads, the solver is called, with the
/// members as its payload and with the stored credential, and it is
/// called once, whatever follows.
pub proof fn law_members_reach_the_solver(
    members: Seq<QuestionView>,
    stored: Option<Seq<char>>,
    rest: Seq<EventView>,
)
    requires
        members.len() > 0,
    ensures
        ({
            let payload = payload_text(solver_inputs_of(members));
            let events = seq![
                EventView::CacheRead(Ok(None)),
                EventView::MembersRead(Ok(members)),
                EventView::CredentialRead(Ok(stored)),
            ] + rest;
            &&& next(
                StageView::Marshalling { payload },
                EventView::CredentialRead(Ok(stored)),
            ).1 == (ActionView::RunSolver {
                arguments: solve_arguments(payload),
                credential: credential_text(stored),
            })
            &&& solver_runs(StageView::CheckingCache, events) == 1
        }),
{
    let payload = payload_text(solver_inputs_of(members));
    let events = seq![
        EventView::CacheRead(Ok(None)),
        EventView::MembersRead(Ok(members)),
        EventView::CredentialRead(Ok(stored)),
    ] + rest;
    let second = events.drop_first();
    let third = second.drop_first();
    assert(third.drop_first() =~= rest);
    assert(events[0] == EventView::CacheRead(Ok(None)));
    assert(second[0] == EventView::MembersRead(Ok(members)));
    assert(third[0] == EventView::CredentialRead(Ok(stored)));
    law_solver_runs_at_most_once(StageView::Solving, rest);
    assert(solver_runs(StageView::Marshalling { payload }, third) == 1);
    assert(solver_runs(StageView::Preparing, second) == 1);
}

/// How often the solver can still be called from a stage.
pub open spec fn solver_runs_left(stage: StageView) -> nat {
    match stage {
        StageView::CheckingCache | StageView::Preparing | StageView::Marshalling { .. } => 1,
        _ => 0,
    }
}

/// Whatever the events, one run of the workflow calls the solver at most
/// once, and not at all once it has been called.
pub proof fn law_solver_runs_at_most_once(stage: StageView, events: Seq<EventView>)
    ensures
        solver_runs(stage, events) <= solver_runs_left(stage),
    decreases events.len(),
{
    if events.len() > 0 {
        let (then, action) = next(stage, events[0]);
        law_solver_runs_at_most_once(then, events.drop_first());
    }
}

/// What a run that returns `key` has done, by the stage it started from.
pub open spec fn accounts_for(stage: StageView, events: Seq<EventView>, key: Seq<char>) -> bool {
    match stage {
        StageView::CheckingCache => {
            ||| solver_runs(stage, events) == 0 && stored_keys(stage, events) == Seq::<
                Seq<char>,
            >::empty()
            ||| solver_runs(stage, events) == 1 && stored_keys(stage, events) == seq![key]
        },
        StageView::Preparing | StageView::Marshalling { .. } => {
            solver_runs(stage, events) == 1 && stored_keys(stage, events) == seq![key]
        },
        StageView::Solving => {
            solver_runs(stage, events) == 0 && stored_keys(stage, events) == seq![key]
        },
        StageView::Persisting { key: held } => {
            held == key && solver_runs(stage, events) == 0 && stored_keys(stage, events) == Seq::<
                Seq<char>,
            >::empty()
        },
        StageView::Finished => false,
    }
}

/// A run that returns a key either found it cached, and then neither
/// called the solver nor wrote anything, or called the solver once and
/// wrote that key, and no other, to the store.
pub proof fn law_returned_key_was_cached_or_stored(
    stage: StageView,
    events: Seq<EventView>,
    key: Seq<char>,
)
    requires
        outcome(stage, events) == Some(Ok::<_, FailureView>(key)),
    ensures
        accounts_for(stage, events, key),
    decreases events.len(),
{
    let (then, action) = next(stage, events[0]);
    let rest = events.drop_first();
    match action {
        ActionView::Finish(result) => {
            law_finished_is_final(rest);
        },
        _ => {
            law_returned_key_was_cached_or_stored(then, rest, key);
            assert(seq![key] + Seq::<Seq<char>>::empty() =~= seq![key]);
            assert(Seq::<Seq<char>>::empty() + seq![key] =~= seq![key]);
        },
    }
}

/// The credential is not among the arguments of the solver: whatever the
/// credential, the arguments are the same.
pub proof fn law_credential_stays_out_of_arguments(
    payload: Seq<char>,
    one: Option<Seq<char>>,
    other: Option<Seq<char>>,
)
    ensures
        ({
            let stage = StageView::Marshalling { payload };
            let with_one = next(stage, EventView::CredentialRead(Ok(one))).1;
            let with_other = next(stage, EventView::CredentialRead(Ok(other))).1;
            &&& with_one is RunSolver
            &&& with_other is RunSolver
            &&& with_one->arguments == with_other->arguments
            &&& with_one->arguments == solve_arguments(payload)
        }),
{
}

/// Two runs on one test call the solver at most once between them: where
/// the first run returned a key and the store then answers the second
/// run's look at the cache with that key, the second run returns the same
/// key and does not call the solver.
pub proof fn law_second_run_is_served_from_cache(
    first: Seq<EventView>,
    key: Seq<char>,
    rest: Seq<EventView>,
)
    requires
        outcome(StageView::CheckingCache, first) == Some(Ok::<_, FailureView>(key)),
    ensures
        ({
            let second = seq![EventView::CacheRead(Ok(Some(key)))] + rest;
            &&& outcome(StageView::CheckingCache, second) == Some(Ok::<_, FailureView>(key))
            &&& solver_runs(StageView::CheckingCache, first) + solver_runs(
                StageView::CheckingCache,
                second,
            ) <= 1
        }),
{
    law_cached_key_ends_the_run(key, rest);
    law_solver_runs_at_most_once(StageView::CheckingCache, first);
}

/// Gives the verdict on a run of the solver: [`judged`].
pub fn judge(outcome: SolverOutcome) -> (r: Result<String, Failure>)
    ensures
        returned(r) == judged(outcome@),
{
    match outcome {
        SolverOutcome::NotRun(reason) => Err(Failure::Transport(reason)),
        SolverOutcome::Exited { success, output, diagnostics } => {
            if success && !output.as_str().is_empty() {
                Ok(output)
            } else {
                Err(Failure::SolveFailed(diagnostics))
            }
        },
    }
}

/// The workflow of one test.
#[derive(Debug, Clone, PartialEq, Eq)]
pub struct Flow {
    pub test_id: i32,
    pub stage: Stage,
}

impl Flow {
    /// Starts the workflow of a test: the first thing to do is to look
    /// for a cached key.
    pub fn start(test_id: i32) -> (r: (Flow, Action))
        ensures
            r.0.test_id == test_id,
            r.0.stage@ == StageView::CheckingCache,
            r.1@ == ActionView::ReadCache,
    {
        (Flow { test_id, stage: Stage::CheckingCache }, Action::ReadCache)
    }

    /// Takes an event: [`next`].
    pub fn step(self, event: Event) -> (r: (Flow, Action))
        ensures
            r.0.test_id == self.test_id,
            (r.0.stage@, r.1@) == next(self.stage@, event@),
    {
        let test_id = self.test_id;
        match (self.stage, event) {
            (Stage::CheckingCache, Event::CacheRead(Ok(Some(key)))) => (
                Flow { test_id, stage: Stage::Finished },
                Action::Finish(Ok(key)),
            ),
            (Stage::CheckingCache, Event::CacheRead(Ok(None))) => (
                Flow { test_id, stage: Stage::Preparing },
                Action::ReadMembers,
            ),
            (Stage::CheckingCache, Event::CacheRead(Err(e))) => (
                Flow { test_id, stage: Stage::Finished },
                Action::Finish(Err(Failure::Storage(e))),
            ),
            (Stage::Preparing, Event::MembersRead(Ok(members))) => {
                if members.len() == 0 {
                    (
                        Flow { test_id, stage: Stage::Finished },
                        Action::Finish(Err(Failure::EmptyTest)),
                    )
                } else {
                    let inputs = solver_inputs(&members);
                    let payload = solver_payload(&inputs);
                    (
                        Flow { test_id, stage: Stage::Marshalling { payload } },
                        Action::ReadCredential,
                    )
                }
            },
            (Stage::Preparing, Event::MembersRead(Err(e))) => (
                Flow { test_id, stage: Stage::Finished },
                Action::Finish(Err(Failure::Storage(e))),
            ),
            (Stage::Marshalling { payload }, Event::CredentialRead(Ok(stored))) => (
                Flow { test_id, stage: Stage::Solving },
                Action::RunSolver {
                    arguments: solve(payload.as_str()),
                    credential: credential(stored),
                },
            ),
            (Stage::Marshalling { .. }, Event::CredentialRead(Err(e))) => (
                Flow { test_id, stage: Stage::Finished },
                Action::Finish(Err(Failure::Storage(e))),
            ),
            (Stage::Solving, Event::SolverReturned(outcome)) => match judge(outcome) {
                Ok(key) => (
                    Flow { test_id, stage: Stage::Persisting { key: key.clone() } },
                    Action::StoreKey { key },
                ),
                Err(failure) => (
                    Flow { test_id, stage: Stage::Finished },
                    Action::Finish(Err(failure)),
                ),
            },
            (Stage::Persisting { key }, Event::KeyStored(Ok(_))) => (
                Flow { test_id, stage: Stage::Finished },
                Action::Finish(Ok(key)),
            ),
            (Stage::Persisting { .. }, Event::KeyStored(Err(e))) => (
                Flow { test_id, stage: Stage::Finished },
                Action::Finish(Err(Failure::Storage(e))),
            ),
            (stage, _) => (Flow { test_id, stage }, Action::Ignore),
        }
    }
}

} // verus!
