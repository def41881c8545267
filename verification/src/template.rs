//! Page templates: the record, its statements, and the reader of its rows.

use crate::query::{Statement, StatementView};
use crate::row::{
    optional_int_at, optional_text_at, read_optional_int, read_optional_text, read_text, text_at,
    FromRow,
};
use crate::value::{optional_text_param, Cell, CellView, Param, ParamView};
use vstd::prelude::*;

verus! {

/// Inserts a template.
pub const INSERT_TEMPLATE: &'static str = "INSERT INTO user_templates \
    (name, path, preview_image, margins_json) \
    VALUES (?1, ?2, ?3, ?4)";

/// Renames a template and replaces its margins.
pub const UPDATE_TEMPLATE: &'static str =
    "UPDATE user_templates SET name = ?1, margins_json = ?2 WHERE id = ?3";

/// Reads every template, newest first.
pub const SELECT_TEMPLATES: &'static str = "SELECT id, name, path, preview_image, margins_json \
    FROM user_templates \
    ORDER BY created_at DESC, id DESC";

/// Deletes one template.
pub const DELETE_TEMPLATE: &'static str = "DELETE FROM user_templates WHERE id = ?1";

/// A page template. The margins are layout data serialized as text; the
/// preview is an encoded image.
#[derive(Debug, Clone, PartialEq, Eq)]
pub struct Template {
    pub id: Option<i32>,
    pub name: String,
    pub path: String,
    pub preview_image: Option<String>,
    pub margins_json: String,
}

/// The mathematical value of a [`Template`].
pub struct TemplateView {
    pub id: Option<i32>,
    pub name: Seq<char>,
    pub path: Seq<char>,
    pub preview_image: Option<Seq<char>>,
    pub margins_json: Seq<char>,
}

impl DeepView for Template {
    type V = TemplateView;

    open spec fn deep_view(&self) -> TemplateView {
        TemplateView {
            id: self.id,
            name: self.name@,
            path: self.path@,
            preview_image: self.preview_image.deep_view(),
            margins_json: self.margins_json@,
        }
    }
}

impl View for Template {
    type V = TemplateView;

    open spec fn view(&self) -> TemplateView {
        self.deep_view()
    }
}

/// The statement that inserts a template.
pub open spec fn insert_template_statement(t: TemplateView) -> StatementView {
    StatementView {
        sql: INSERT_TEMPLATE@,
        params: seq![
            ParamView::Text(t.name),
            ParamView::Text(t.path),
            optional_text_param(t.preview_image),
            ParamView::Text(t.margins_json),
        ],
    }
}

/// The statement that renames a template and replaces its margins. Path
/// and preview are not among its columns: they never change.
pub open spec fn update_template_statement(
    id: i32,
    name: Seq<char>,
    margins_json: Seq<char>,
) -> StatementView {
    StatementView {
        sql: UPDATE_TEMPLATE@,
        params: seq![
            ParamView::Text(name),
            ParamView::Text(margins_json),
            ParamView::Integer(id as i64),
        ],
    }
}

/// The statement that reads every template, newest first.
pub open spec fn templates_statement() -> StatementView {
    StatementView {
        sql: SELECT_TEMPLATES@,
        params: Seq::empty(),
    }
}

/// The statement that deletes one template.
pub open spec fn delete_template_statement(id: i32) -> StatementView {
    StatementView {
        sql: DELETE_TEMPLATE@,
        params: seq![ParamView::Integer(id as i64)],
    }
}

/// Whether a row can be read as a template.
pub open spec fn is_template_row(row: Seq<CellView>) -> bool {
    &&& optional_int_at(row, 0) is Some
    &&& text_at(row, 1) is Some
    &&& text_at(row, 2) is Some
    &&& optional_text_at(row, 3) is Some
    &&& text_at(row, 4) is Some
}

/// The template that a readable row holds.
pub open spec fn template_of_row(row: Seq<CellView>) -> TemplateView
    recommends
        is_template_row(row),
{
    TemplateView {
        id: optional_int_at(row, 0).unwrap(),
        name: text_at(row, 1).unwrap(),
        path: text_at(row, 2).unwrap(),
        preview_image: optional_text_at(row, 3).unwrap(),
        margins_json: text_at(row, 4).unwrap(),
    }
}

/// Builds [`insert_template_statement`].
pub fn insert_template(t: &Template) -> (s: Statement)
    ensures
        s@ == insert_template_statement(t@),
{
    let mut params: Vec<Param> = Vec::new();
    params.push(Param::text(t.name.as_str()));
    params.push(Param::text(t.path.as_str()));
    params.push(Param::optional_text(&t.preview_image));
    params.push(Param::text(t.margins_json.as_str()));
    assert(params.deep_view() =~= insert_template_statement(t@).params);
    Statement::new(INSERT_TEMPLATE, params)
}

/// Builds [`update_template_statement`].
pub fn update_template(id: i32, name: &str, margins_json: &str) -> (s: Statement)
    ensures
        s@ == update_template_statement(id, name@, margins_json@),
{
    let mut params: Vec<Param> = Vec::new();
    params.push(Param::text(name));
    params.push(Param::text(margins_json));
    params.push(Param::integer(id));
    assert(params.deep_view() =~= update_template_statement(id, name@, margins_json@).params);
    Statement::new(UPDATE_TEMPLATE, params)
}

/// Builds [`templates_statement`].
pub fn select_templates() -> (s: Statement)
    ensures
        s@ == templates_statement(),
{
    let params: Vec<Param> = Vec::new();
    assert(params.deep_view() =~= Seq::empty());
    Statement::new(SELECT_TEMPLATES, params)
}

/// Builds [`delete_template_statement`].
pub fn delete_template(id: i32) -> (s: Statement)
    ensures
        s@ == delete_template_statement(id),
{
    let mut params: Vec<Param> = Vec::new();
    params.push(Param::integer(id));
    assert(params.deep_view() =~= delete_template_statement(id).params);
    Statement::new(DELETE_TEMPLATE, params)
}

impl FromRow for Template {
    open spec fn readable(row: Seq<CellView>) -> bool {
        is_template_row(row)
    }

    open spec fn of_row(row: Seq<CellView>) -> TemplateView {
        template_of_row(row)
    }

    fn from_row(row: &Vec<Cell>) -> (r: Option<Template>) {
        let id = match read_optional_int(row, 0) {
            Some(v) => v,
            None => { return None; },
        };
        let name = match read_text(row, 1) {
            Some(v) => v,
            None => { return None; },
        };
        let path = match read_text(row, 2) {
            Some(v) => v,
            None => { return None; },
        };
        let preview_image = match read_optional_text(row, 3) {
            Some(v) => v,
            None => { return None; },
        };
        let margins_json = match read_text(row, 4) {
            Some(v) => v,
            None => { return None; },
        };
        Some(Template { id, name, path, preview_image, margins_json })
    }
}

} // verus!
