//! Plain values that cross the boundary to the store: what is bound to a
//! statement's placeholders, and what a result row holds.

use vstd::prelude::*;

verus! {

/// A value bound to one `?` placeholder of a statement.
#[derive(Debug, Clone, PartialEq, Eq)]
pub enum Param {
    Null,
    Integer(i64),
    Text(String),
}

/// The mathematical value of a [`Param`].
pub enum ParamView {
    Null,
    Integer(i64),
    Text(Seq<char>),
}

impl DeepView for Param {
    type V = ParamView;

    open spec fn deep_view(&self) -> ParamView {
        match self {
            Param::Null => ParamView::Null,
            Param::Integer(i) => ParamView::Integer(*i),
            Param::Text(s) => ParamView::Text(s@),
        }
    }
}

impl View for Param {
    type V = ParamView;

    open spec fn view(&self) -> ParamView {
        self.deep_view()
    }
}

/// The parameter that stands for an optional integer: `NULL` when absent.
pub open spec fn optional_integer_param(v: Option<i32>) -> ParamView {
    match v {
        Some(i) => ParamView::Integer(i as i64),
        None => ParamView::Null,
    }
}

/// The parameter that stands for an optional text: `NULL` when absent.
pub open spec fn optional_text_param(v: Option<Seq<char>>) -> ParamView {
    match v {
        Some(s) => ParamView::Text(s),
        None => ParamView::Null,
    }
}

impl Param {
    pub fn integer(v: i32) -> (p: Param)
        ensures
            p@ == ParamView::Integer(v as i64),
    {
        Param::Integer(v as i64)
    }

    pub fn optional_integer(v: Option<i32>) -> (p: Param)
        ensures
            p@ == optional_integer_param(v),
    {
        match v {
            Some(i) => Param::Integer(i as i64),
            None => Param::Null,
        }
    }

    pub fn text(v: &str) -> (p: Param)
        ensures
            p@ == ParamView::Text(v@),
    {
        Param::Text(String::from_str(v))
    }

    pub fn optional_text(v: &Option<String>) -> (p: Param)
        ensures
            p@ == optional_text_param(v.deep_view()),
    {
        match v {
            Some(s) => Param::Text(s.clone()),
            None => Param::Null,
        }
    }
}

/// One cell of a result row, by storage class. The schema of this store
/// writes integers and text only, so a floating-point cell and a blob are
/// kept as marks without their payload: no reader accepts either.
#[derive(Debug, Clone, PartialEq, Eq)]
pub enum Cell {
    Null,
    Integer(i64),
    Real,
    Text(String),
    Blob,
}

/// The mathematical value of a [`Cell`].
pub enum CellView {
    Null,
    Integer(i64),
    Real,
    Text(Seq<char>),
    Blob,
}

impl DeepView for Cell {
    type V = CellView;

    open spec fn deep_view(&self) -> CellView {
        match self {
            Cell::Null => CellView::Null,
            Cell::Integer(i) => CellView::Integer(*i),
            Cell::Real => CellView::Real,
            Cell::Text(s) => CellView::Text(s@),
            Cell::Blob => CellView::Blob,
        }
    }
}

impl View for Cell {
    type V = CellView;

    open spec fn view(&self) -> CellView {
        self.deep_view()
    }
}

} // verus!
