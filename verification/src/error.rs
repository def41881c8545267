//! The kinds of failure, kept apart until the outermost boundary flattens
//! them into a message.

use vstd::prelude::*;

verus! {

/// What a malformed row is reported as.
pub const MALFORMED_ROW: &'static str = "malformed row in result";

/// What an empty test is reported as.
pub const EMPTY_TEST: &'static str = "Testte soru yok";

/// What the report of a failed solve begins with.
pub const SOLVE_FAILED: &'static str = "AI Çözüm hatası: ";

/// What the report of a solver that could not be run begins with.
pub const NOT_RUN: &'static str = "Python (Sidecar) hatası: ";

/// A failure of the persistence layer.
#[derive(Debug, Clone, PartialEq, Eq)]
pub enum StorageError {
    /// The store refused a write that would break a constraint, such as a
    /// second student of the same name. Carries the store's message.
    Constraint(String),
    /// A row came back in a shape that its reader does not accept; `row`
    /// is the position of the first such row in the result.
    MalformedRow { row: usize },
    /// Any other failure of the connection or of a statement. Carries the
    /// store's message.
    Failed(String),
}

/// The mathematical value of a [`StorageError`].
pub enum StorageErrorView {
    Constraint(Seq<char>),
    MalformedRow { row: usize },
    Failed(Seq<char>),
}

impl DeepView for StorageError {
    type V = StorageErrorView;

    open spec fn deep_view(&self) -> StorageErrorView {
        match self {
            StorageError::Constraint(m) => StorageErrorView::Constraint(m@),
            StorageError::MalformedRow { row } => StorageErrorView::MalformedRow { row: *row },
            StorageError::Failed(m) => StorageErrorView::Failed(m@),
        }
    }
}

impl View for StorageError {
    type V = StorageErrorView;

    open spec fn view(&self) -> StorageErrorView {
        self.deep_view()
    }
}

/// The mathematical value of what an operation on the store returns.
pub open spec fn viewed<T: DeepView>(r: Result<T, StorageError>) -> Result<T::V, StorageErrorView> {
    match r {
        Ok(v) => Ok(v.deep_view()),
        Err(e) => Err(e@),
    }
}

/// What [`StorageError::message`] returns.
pub open spec fn storage_message(e: StorageErrorView) -> Seq<char> {
    match e {
        StorageErrorView::Constraint(m) => m,
        StorageErrorView::MalformedRow { .. } => MALFORMED_ROW@,
        StorageErrorView::Failed(m) => m,
    }
}

/// The failure that stands for what the connection reported: whether a
/// constraint was broken, and the message.
pub open spec fn reported_failure(constraint: bool, message: Seq<char>) -> StorageErrorView {
    if constraint {
        StorageErrorView::Constraint(message)
    } else {
        StorageErrorView::Failed(message)
    }
}

/// The failure is one that a connection reports: a broken constraint or
/// another failure, with the connection's message. A malformed row is
/// none: it is found in reading an answer, not reported with it.
pub open spec fn reported_by_connection(e: StorageErrorView) -> bool {
    exists|constraint: bool, message: Seq<char>|
        e == #[trigger] reported_failure(constraint, message)
}

/// Where the result is a failure, it is one that the connection reported.
pub open spec fn fails_as_reported<T>(r: Result<T, StorageErrorView>) -> bool {
    r matches Err(e) ==> reported_by_connection(e)
}

impl StorageError {
    /// Builds [`reported_failure`].
    pub fn reported(constraint: bool, message: String) -> (e: StorageError)
        ensures
            e@ == reported_failure(constraint, message@),
    {
        if constraint {
            StorageError::Constraint(message)
        } else {
            StorageError::Failed(message)
        }
    }

    /// The failure as one line of text.
    pub fn message(&self) -> (m: String)
        ensures
            m@ == storage_message(self@),
    {
        match self {
            StorageError::Constraint(detail) => detail.clone(),
            StorageError::MalformedRow { .. } => String::from_str(MALFORMED_ROW),
            StorageError::Failed(detail) => detail.clone(),
        }
    }
}

/// A failure of an operation, by kind.
#[derive(Debug, Clone, PartialEq, Eq)]
pub enum Failure {
    /// The persistence layer failed.
    Storage(StorageError),
    /// An answer key was asked for a test without member questions.
    EmptyTest,
    /// The solver ran and reported failure, or returned nothing. Carries
    /// the solver's diagnostic output.
    SolveFailed(String),
    /// The solver could not be run, or the exchange with it broke off.
    Transport(String),
}

/// The mathematical value of a [`Failure`].
pub enum FailureView {
    Storage(StorageErrorView),
    EmptyTest,
    SolveFailed(Seq<char>),
    Transport(Seq<char>),
}

impl DeepView for Failure {
    type V = FailureView;

    open spec fn deep_view(&self) -> FailureView {
        match self {
            Failure::Storage(e) => FailureView::Storage(e@),
            Failure::EmptyTest => FailureView::EmptyTest,
            Failure::SolveFailed(m) => FailureView::SolveFailed(m@),
            Failure::Transport(m) => FailureView::Transport(m@),
        }
    }
}

impl View for Failure {
    type V = FailureView;

    open spec fn view(&self) -> FailureView {
        self.deep_view()
    }
}

/// The mathematical value of what the workflow returns.
pub open spec fn returned(r: Result<String, Failure>) -> Result<Seq<char>, FailureView> {
    match r {
        Ok(key) => Ok(key@),
        Err(failure) => Err(failure@),
    }
}

/// What [`Failure::message`] returns.
pub open spec fn failure_message(e: FailureView) -> Seq<char> {
    match e {
        FailureView::Storage(inner) => storage_message(inner),
        FailureView::EmptyTest => EMPTY_TEST@,
        FailureView::SolveFailed(m) => SOLVE_FAILED@ + m,
        FailureView::Transport(m) => NOT_RUN@ + m,
    }
}

impl Failure {
    /// The failure as one line of text in the language of the
    /// application's users, for a boundary that passes on nothing but a
    /// message.
    pub fn message(&self) -> (m: String)
        ensures
            m@ == failure_message(self@),
    {
        match self {
            Failure::Storage(inner) => inner.message(),
            Failure::EmptyTest => String::from_str(EMPTY_TEST),
            Failure::SolveFailed(detail) => {
                let mut m = String::from_str(SOLVE_FAILED);
                m.append(detail.as_str());
                m
            },
            Failure::Transport(detail) => {
                let mut m = String::from_str(NOT_RUN);
                m.append(detail.as_str());
                m
            },
        }
    }
}

} // verus!
