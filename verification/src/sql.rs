//! The parameterized SQL statements the service issues. Each builder returns
//! fixed statement text and the values bound to its `?` placeholders in
//! order; user input only ever travels as a parameter, never inside the text.

use vstd::prelude::*;
use crate::models::NewArticle;
use crate::models::UpdateArticle;
use crate::models::clone_opt_string;

verus! {

/// A value bound positionally into a statement. An omitted optional field
/// binds `Null`.
#[derive(Debug, PartialEq)]
pub enum SqlValue {
    Null,
    Text(String),
    Uint(u32),
}

/// A parameterized statement: the SQL text with `?` placeholders, and the
/// values bound to them, in placeholder order.
#[derive(Debug, PartialEq)]
pub struct Statement {
    pub text: String,
    pub params: Vec<SqlValue>,
}

/// The parameter that an optional text field binds: its text, or NULL.
pub open spec fn opt_text_param(t: Option<String>) -> SqlValue {
    match t {
        Some(s) => SqlValue::Text(s),
        None => SqlValue::Null,
    }
}

/// Binds an optional text field positionally.
fn bind_opt_text(t: &Option<String>) -> (v: SqlValue)
    ensures
        v == opt_text_param(*t),
{
    match clone_opt_string(t) {
        Some(s) => SqlValue::Text(s),
        None => SqlValue::Null,
    }
}

/// The statement behind listing: selects every row, binds nothing.
pub fn select_all_statement() -> (s: Statement)
    ensures
        s.text@ == "SELECT * FROM articles"@,
        s.params@ == Seq::<SqlValue>::empty(),
{
    Statement { text: "SELECT * FROM articles".to_owned(), params: Vec::new() }
}

/// The statement behind a single-row fetch: binds only the id.
pub fn select_by_id_statement(id: u32) -> (s: Statement)
    ensures
        s.text@ == "SELECT * FROM articles WHERE id = ?"@,
        s.params@ == seq![SqlValue::Uint(id)],
{
    let mut params: Vec<SqlValue> = Vec::new();
    params.push(SqlValue::Uint(id));
    proof {
        assert(params@ =~= seq![SqlValue::Uint(id)]);
    }
    Statement { text: "SELECT * FROM articles WHERE id = ?".to_owned(), params: params }
}

/// The statement behind creation: binds title then content, both required.
pub fn insert_statement(new: &NewArticle) -> (s: Statement)
    ensures
        s.text@ == "INSERT INTO articles (title, content) VALUES (?, ?)"@,
        s.params@ == seq![SqlValue::Text(new.title), SqlValue::Text(new.content)],
{
    let mut params: Vec<SqlValue> = Vec::new();
    params.push(SqlValue::Text(new.title.clone()));
    params.push(SqlValue::Text(new.content.clone()));
    proof {
        assert(params@ =~= seq![SqlValue::Text(new.title), SqlValue::Text(new.content)]);
    }
    Statement {
        text: "INSERT INTO articles (title, content) VALUES (?, ?)".to_owned(),
        params: params,
    }
}

/// The statement behind an update: binds title and content unconditionally
/// (an omitted field binds NULL and overwrites its column), then the id. The
/// remaining request fields are never bound.
pub fn update_statement(id: u32, up: &UpdateArticle) -> (s: Statement)
    ensures
        s.text@ == "UPDATE articles SET title = ?, content = ? WHERE id = ?"@,
        s.params@ == seq![
            opt_text_param(up.title),
            opt_text_param(up.content),
            SqlValue::Uint(id),
        ],
{
    let mut params: Vec<SqlValue> = Vec::new();
    params.push(bind_opt_text(&up.title));
    params.push(bind_opt_text(&up.content));
    params.push(SqlValue::Uint(id));
    proof {
        assert(params@ =~= seq![
            opt_text_param(up.title),
            opt_text_param(up.content),
            SqlValue::Uint(id),
        ]);
    }
    Statement {
        text: "UPDATE articles SET title = ?, content = ? WHERE id = ?".to_owned(),
        params: params,
    }
}

/// The statement behind deletion: binds only the id; no existence check.
pub fn delete_statement(id: u32) -> (s: Statement)
    ensures
        s.text@ == "DELETE FROM articles WHERE id = ?"@,
        s.params@ == seq![SqlValue::Uint(id)],
{
    let mut params: Vec<SqlValue> = Vec::new();
    params.push(SqlValue::Uint(id));
    proof {
        assert(params@ =~= seq![SqlValue::Uint(id)]);
    }
    Statement { text: "DELETE FROM articles WHERE id = ?".to_owned(), params: params }
}

} // verus!
