//! The repository and its records, under one name.

pub use crate::question::Question;
pub use crate::store::Database;
pub use crate::template::Template;
