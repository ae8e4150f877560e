//! The shapes of an article row and of the two request bodies.

use vstd::prelude::*;

verus! {

/// A persisted article row. The database assigns `id`; every other column is
/// nullable. Timestamps are carried as epoch-second values; turning them into
/// a calendar form is the caller's concern at the I/O boundary.
#[derive(Debug, PartialEq)]
pub struct Article {
    pub id: u32,
    pub title: Option<String>,
    pub content: Option<String>,
    pub view_num: Option<u32>,
    pub created_at: Option<i64>,
    pub updated_at: Option<i64>,
    pub deleted_at: Option<i64>,
}

/// The body of a creation request: both fields are required.
#[derive(Debug, PartialEq)]
pub struct NewArticle {
    pub title: String,
    pub content: String,
}

/// The body of an update request: every field is optional. Only `title` and
/// `content` reach the table; the remaining fields are accepted and ignored,
/// as the update statement never binds them. `created_at` is absent because
/// creation time is immutable.
#[derive(Debug, PartialEq)]
pub struct UpdateArticle {
    pub title: Option<String>,
    pub content: Option<String>,
    pub view_num: Option<u32>,
    pub updated_at: Option<i64>,
    pub deleted_at: Option<i64>,
}

/// An exact copy of an optional text field.
pub(crate) fn clone_opt_string(s: &Option<String>) -> (r: Option<String>)
    ensures
        r == *s,
{
    match s {
        Some(x) => Some(x.clone()),
        None => None,
    }
}

impl Article {
    /// An exact copy of the row.
    pub fn duplicate(&self) -> (r: Article)
        ensures
            r == *self,
    {
        Article {
            id: self.id,
            title: clone_opt_string(&self.title),
            content: clone_opt_string(&self.content),
            view_num: self.view_num,
            created_at: self.created_at,
            updated_at: self.updated_at,
            deleted_at: self.deleted_at,
        }
    }
}

} // verus!
