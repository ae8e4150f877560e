//! The guarantees the service keeps across operations, proved over the same
//! spec functions that the handlers' contracts use.

use vstd::prelude::*;
use crate::models::Article;
use crate::models::NewArticle;
use crate::models::UpdateArticle;
use crate::store::ArticleTable;
use crate::store::has_id;
use crate::store::inserted_row;
use crate::store::rows_without;
use crate::store::updated_rows;

verus! {

/// Creating an article and then listing the table shows a row whose title
/// and content match the request exactly, whatever the table held before.
pub proof fn law_created_article_is_listed(rows: Seq<Article>, id: u32, new: NewArticle)
    ensures
        ({
            let after = rows.push(inserted_row(id, new.title, new.content));
            exists|i: int|
                0 <= i < after.len() && (#[trigger] after[i]).title == Some(new.title)
                    && after[i].content == Some(new.content)
        }),
{
    let after = rows.push(inserted_row(id, new.title, new.content));
    assert(after[rows.len() as int].title == Some(new.title));
    assert(after[rows.len() as int].content == Some(new.content));
}

/// An id that no row carries is not found: the single-row fetch comes back
/// empty, so its handler answers 404.
pub proof fn law_missing_id_is_not_found(rows: Seq<Article>, id: u32)
    requires
        forall|i: int| 0 <= i < rows.len() ==> (#[trigger] rows[i].id) != id,
    ensures
        !has_id(rows, id),
    decreases rows.len(),
{
    if rows.len() > 0 {
        assert(rows.first() == rows[0]);
        let rest = rows.drop_first();
        assert(forall|i: int| 0 <= i < rest.len() ==> #[trigger] rest[i] == rows[i + 1]);
        law_missing_id_is_not_found(rest, id);
    }
}

/// Deleting an id that no row carries leaves the table exactly as it was;
/// together with `delete_article` always answering 201, deletion is
/// idempotent by design.
pub proof fn law_delete_of_missing_id_changes_nothing(rows: Seq<Article>, id: u32)
    requires
        forall|i: int| 0 <= i < rows.len() ==> (#[trigger] rows[i].id) != id,
    ensures
        rows_without(rows, id) == rows,
    decreases rows.len(),
{
    if rows.len() == 0 {
        assert(rows_without(rows, id) =~= rows);
    } else {
        assert(rows.first() == rows[0]);
        let rest = rows.drop_first();
        assert(forall|i: int| 0 <= i < rest.len() ==> #[trigger] rest[i] == rows[i + 1]);
        law_delete_of_missing_id_changes_nothing(rest, id);
        assert(rows_without(rows, id) =~= rows);
    }
}

/// An update is a full overwrite, never a merge: on every row carrying the
/// id, `title` and `content` become exactly what the request supplied — an
/// omitted field overwrites its column with NULL — while the id, the view
/// counter and the timestamps survive; every other row is untouched.
pub proof fn law_update_overwrites_title_and_content(rows: Seq<Article>, id: u32, up: UpdateArticle)
    ensures
        updated_rows(rows, id, up).len() == rows.len(),
        forall|i: int|
            0 <= i < rows.len() && (#[trigger] rows[i].id) == id ==> {
                let row = updated_rows(rows, id, up)[i];
                row.title == up.title && row.content == up.content && row.id == rows[i].id
                    && row.view_num == rows[i].view_num && row.created_at == rows[i].created_at
                    && row.updated_at == rows[i].updated_at && row.deleted_at == rows[i].deleted_at
            },
        forall|i: int|
            0 <= i < rows.len() && (#[trigger] rows[i].id) != id
                ==> updated_rows(rows, id, up)[i] == rows[i],
{
}

/// Every creation gets a fresh id: the assigned id differs from the id of
/// every row already in the table, so no two creations — in whatever order
/// the pool lets them land — touch each other's rows.
pub proof fn law_inserted_id_is_fresh(t: ArticleTable, new: NewArticle)
    requires
        t.wf(),
    ensures
        ({
            let after = t.rows@.push(inserted_row(t.next_id, new.title, new.content));
            forall|i: int| 0 <= i < t.rows@.len() ==> (#[trigger] after[i]).id != t.next_id
        }),
{
}

/// Two creations in a row land as two distinct rows with distinct ids, each
/// holding its own payload: neither corrupts the other's data.
pub proof fn law_two_creations_are_distinct_rows(t: ArticleTable, first: NewArticle, second: NewArticle)
    requires
        t.wf(),
        t.next_id + 1 < u32::MAX,
    ensures
        ({
            let after = t.rows@.push(inserted_row(t.next_id, first.title, first.content)).push(
                inserted_row((t.next_id + 1) as u32, second.title, second.content),
            );
            let n = t.rows@.len() as int;
            after[n].id != after[n + 1].id && after[n].title == Some(first.title)
                && after[n].content == Some(first.content) && after[n + 1].title == Some(
                second.title,
            ) && after[n + 1].content == Some(second.content)
        }),
{
}

} // verus!
