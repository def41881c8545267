//! The persistence engine of a question bank, and the workflow that makes
//! the answer key of a test.
//!
//! Questions, templates, students, tests and settings live in one SQLite
//! file behind one connection. [`query`] builds the parameterized
//! statements over questions from optional predicates; [`question`],
//! [`template`], [`student`], [`archive`] and [`setting`] hold the
//! statements and the row readers of each record; [`schema`] holds the
//! tables. [`store`] is the repository: every operation hands statements
//! to the connection and reads the answers, and its contract says which
//! statements, and how the result follows from the answers ([`history`]).
//! A test and its memberships are written in one [`transaction`].
//!
//! An answer key is made once by an external solver and then kept.
//! [`answer_key`] is the workflow as a state machine that decides and
//! leaves the doing to its caller; [`orchestrator`] performs its actions
//! on the store; [`payload`] renders what the solver is given, and
//! [`worker`] the arguments of every call of the external worker.

pub mod answer_key;
pub mod archive;
mod clock;
mod connection;
pub mod db;
pub mod error;
pub mod history;
pub mod orchestrator;
pub mod paging;
pub mod payload;
pub mod query;
pub mod question;
pub mod row;
pub mod schema;
pub mod setting;
pub mod store;
pub mod student;
pub mod template;
pub mod text;
pub mod transaction;
pub mod value;
pub mod worker;
