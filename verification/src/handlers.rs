//! The request handlers as decisions: each takes the parsed pieces of a
//! request together with the table, applies the one statement the operation
//! issues, and returns the HTTP response. The edge only parses bytes into
//! these inputs and serializes the response back out.

use vstd::prelude::*;
use crate::models::Article;
use crate::models::NewArticle;
use crate::models::UpdateArticle;
use crate::store::ArticleTable;
use crate::store::first_with_id;
use crate::store::has_id;
use crate::store::inserted_row;
use crate::store::rows_without;
use crate::store::updated_rows;

verus! {

/// A response body: nothing, one row, or every row. The edge serializes a
/// row body as JSON.
#[derive(Debug, PartialEq)]
pub enum Body {
    Empty,
    Item(Article),
    List(Vec<Article>),
}

/// What a handler hands back: the HTTP status code and the body.
#[derive(Debug, PartialEq)]
pub struct Response {
    pub status: u16,
    pub body: Body,
}

/// The five operations, named so a database failure can be mapped to the
/// status code its handler answers with.
pub enum Operation {
    ListAll,
    GetById,
    Insert,
    Update,
    Delete,
}

/// `GET /Article`: 200 with every row, in storage order.
pub fn get_all_article(table: &ArticleTable) -> (r: Response)
    ensures
        r.status == 200,
        r.body matches Body::List(rows) && rows@ == table.rows@,
{
    Response { status: 200, body: Body::List(table.list_all()) }
}

/// `GET /Article/{id}`: 200 with the row carrying `id`, or 404 with an empty
/// body when no row carries it. A missing row is an expected outcome, not an
/// error.
pub fn get_article_by_id(table: &ArticleTable, id: u32) -> (r: Response)
    ensures
        has_id(table.rows@, id) ==> r.status == 200
            && (r.body matches Body::Item(a) && Some(a) == first_with_id(table.rows@, id)),
        !has_id(table.rows@, id) ==> r.status == 404 && r.body is Empty,
{
    match table.get_by_id(id) {
        Some(a) => Response { status: 200, body: Body::Item(a) },
        None => Response { status: 404, body: Body::Empty },
    }
}

/// `POST /Article`: a body that failed to parse is rejected with 400 before
/// any statement is issued, so the table is untouched; a parsed body inserts
/// one row and answers 201 with an empty body.
pub fn add_article(table: &mut ArticleTable, body: Option<NewArticle>) -> (r: Response)
    requires
        old(table).wf(),
        old(table).next_id < u32::MAX,
    ensures
        final(table).wf(),
        body is None ==> r.status == 400 && r.body is Empty && *final(table) == *old(table),
        body matches Some(new) ==> r.status == 201 && r.body is Empty
            && final(table).rows@ == old(table).rows@.push(
                inserted_row(old(table).next_id, new.title, new.content),
            )
            && final(table).next_id == old(table).next_id + 1,
{
    match body {
        None => Response { status: 400, body: Body::Empty },
        Some(new) => {
            table.insert(new);
            Response { status: 201, body: Body::Empty }
        },
    }
}

/// `PUT /Article/{id}`: a body that failed to parse is rejected with 400 and
/// the table is untouched; a parsed body overwrites `title` and `content` of
/// every row carrying `id` — omitted fields overwrite with NULL — and
/// answers 201 with an empty body. The 201 "Created" on an update is a
/// deliberate quirk of this service's API, kept because clients see it.
pub fn update_article(table: &mut ArticleTable, id: u32, body: Option<UpdateArticle>) -> (r: Response)
    requires
        old(table).wf(),
    ensures
        final(table).wf(),
        body is None ==> r.status == 400 && r.body is Empty && *final(table) == *old(table),
        body matches Some(up) ==> r.status == 201 && r.body is Empty
            && final(table).rows@ == updated_rows(old(table).rows@, id, up)
            && final(table).next_id == old(table).next_id,
{
    match body {
        None => Response { status: 400, body: Body::Empty },
        Some(up) => {
            table.update(id, &up);
            Response { status: 201, body: Body::Empty }
        },
    }
}

/// `DELETE /Article/{id}`: removes the row carrying `id` if there is one and
/// answers 201 with an empty body either way; the affected-row count is
/// never inspected, so deletion is idempotent. The 201 "Created" on a
/// deletion is the same deliberate quirk as on an update.
pub fn delete_article(table: &mut ArticleTable, id: u32) -> (r: Response)
    requires
        old(table).wf(),
    ensures
        r.status == 201,
        r.body is Empty,
        final(table).wf(),
        final(table).rows@ == rows_without(old(table).rows@, id),
        final(table).next_id == old(table).next_id,
{
    table.delete(id);
    Response { status: 201, body: Body::Empty }
}

/// The status a handler answers when its one statement fails at the
/// database: the single-row fetch collapses every failure into 404, every
/// other operation answers 500 and leaks no detail.
pub fn db_error_response(op: Operation) -> (r: Response)
    ensures
        r.body is Empty,
        op is GetById ==> r.status == 404,
        !(op is GetById) ==> r.status == 500,
{
    match op {
        Operation::GetById => Response { status: 404, body: Body::Empty },
        Operation::ListAll => Response { status: 500, body: Body::Empty },
        Operation::Insert => Response { status: 500, body: Body::Empty },
        Operation::Update => Response { status: 500, body: Body::Empty },
        Operation::Delete => Response { status: 500, body: Body::Empty },
    }
}

} // verus!
