//! An in-memory model of the article table and of the five statements the
//! service issues against it: list, lookup by id, insert, update, delete.

use vstd::prelude::*;
use crate::models::Article;
use crate::models::NewArticle;
use crate::models::UpdateArticle;
use crate::models::clone_opt_string;

verus! {

/// The row that inserting `title` and `content` produces once the counter
/// hands out `id`: only those two columns are populated, the rest keep the
/// column defaults.
pub open spec fn inserted_row(id: u32, title: String, content: String) -> Article {
    Article {
        id: id,
        title: Some(title),
        content: Some(content),
        view_num: None,
        created_at: None,
        updated_at: None,
        deleted_at: None,
    }
}

/// The row after the update statement ran over it: `title` and `content`
/// are overwritten with exactly what the request supplied (an omitted field
/// becomes NULL); every other column is untouched.
pub open spec fn overwritten_row(row: Article, up: UpdateArticle) -> Article {
    Article {
        id: row.id,
        title: up.title,
        content: up.content,
        view_num: row.view_num,
        created_at: row.created_at,
        updated_at: row.updated_at,
        deleted_at: row.deleted_at,
    }
}

/// Every row whose id matches is overwritten; every other row is untouched.
pub open spec fn updated_rows(rows: Seq<Article>, id: u32, up: UpdateArticle) -> Seq<Article> {
    Seq::new(rows.len(), |i: int| if rows[i].id == id { overwritten_row(rows[i], up) } else { rows[i] })
}

/// The rows that remain after deleting id `id`: every matching row is gone,
/// the rest keep their order.
pub open spec fn rows_without(rows: Seq<Article>, id: u32) -> Seq<Article>
    decreases rows.len(),
{
    if rows.len() == 0 {
        Seq::<Article>::empty()
    } else if rows.first().id == id {
        rows_without(rows.drop_first(), id)
    } else {
        seq![rows.first()] + rows_without(rows.drop_first(), id)
    }
}

/// The first row carrying `id`, in storage order, if any.
pub open spec fn first_with_id(rows: Seq<Article>, id: u32) -> Option<Article>
    decreases rows.len(),
{
    if rows.len() == 0 {
        None
    } else if rows.first().id == id {
        Some(rows.first())
    } else {
        first_with_id(rows.drop_first(), id)
    }
}

/// True when some row of `rows` carries `id`.
pub open spec fn has_id(rows: Seq<Article>, id: u32) -> bool {
    first_with_id(rows, id) is Some
}

/// The article table: the rows in storage order, and the id that the
/// auto-increment counter will hand to the next insertion.
pub struct ArticleTable {
    pub rows: Vec<Article>,
    pub next_id: u32,
}

impl ArticleTable {
    /// Every stored id was handed out by the counter, so ids never repeat.
    pub open spec fn wf(self) -> bool {
        &&& 1 <= self.next_id
        &&& forall|i: int| 0 <= i < self.rows@.len() ==> (#[trigger] self.rows@[i].id) < self.next_id
        &&& forall|i: int, j: int|
            0 <= i < j < self.rows@.len() ==> (#[trigger] self.rows@[i].id) != (#[trigger] self.rows@[j].id)
    }

    /// An empty table; the counter starts at the database's first
    /// auto-increment value.
    pub fn new() -> (t: ArticleTable)
        ensures
            t.wf(),
            t.rows@ == Seq::<Article>::empty(),
            t.next_id == 1,
    {
        ArticleTable { rows: Vec::new(), next_id: 1 }
    }

    /// `SELECT * FROM articles`: every row, in storage order.
    pub fn list_all(&self) -> (r: Vec<Article>)
        ensures
            r@ == self.rows@,
    {
        let mut out: Vec<Article> = Vec::new();
        let mut i: usize = 0;
        while i < self.rows.len()
            invariant
                i <= self.rows@.len(),
                out@ == self.rows@.subrange(0, i as int),
            decreases self.rows@.len() - i,
        {
            out.push(self.rows[i].duplicate());
            proof {
                assert(out@ =~= self.rows@.subrange(0, i + 1));
            }
            i += 1;
        }
        proof {
            assert(out@ =~= self.rows@);
        }
        out
    }

    /// `SELECT * FROM articles WHERE id = ?` fetching a single row: the
    /// first row carrying `id`, if any.
    pub fn get_by_id(&self, id: u32) -> (r: Option<Article>)
        ensures
            r == first_with_id(self.rows@, id),
    {
        let ghost all = self.rows@;
        let mut i: usize = 0;
        proof {
            assert(all.skip(0) =~= all);
        }
        while i < self.rows.len()
            invariant
                i <= all.len(),
                all == self.rows@,
                first_with_id(all, id) == first_with_id(all.skip(i as int), id),
            decreases all.len() - i,
        {
            proof {
                assert(all.skip(i as int).first() == all[i as int]);
            }
            if self.rows[i].id == id {
                return Some(self.rows[i].duplicate());
            }
            proof {
                assert(all.skip(i as int).drop_first() =~= all.skip(i + 1));
            }
            i += 1;
        }
        proof {
            assert(all.skip(i as int) =~= Seq::<Article>::empty());
        }
        None
    }

    /// `INSERT INTO articles (title, content) VALUES (?, ?)`: appends a row
    /// with only `title` and `content` populated; the counter assigns its id
    /// and moves on.
    pub fn insert(&mut self, new: NewArticle)
        requires
            old(self).wf(),
            old(self).next_id < u32::MAX,
        ensures
            final(self).wf(),
            final(self).rows@ == old(self).rows@.push(
                inserted_row(old(self).next_id, new.title, new.content),
            ),
            final(self).next_id == old(self).next_id + 1,
    {
        let id = self.next_id;
        let row = Article {
            id: id,
            title: Some(new.title),
            content: Some(new.content),
            view_num: None,
            created_at: None,
            updated_at: None,
            deleted_at: None,
        };
        self.rows.push(row);
        self.next_id = self.next_id + 1;
    }

    /// `UPDATE articles SET title = ?, content = ? WHERE id = ?`: overwrites
    /// `title` and `content` of every row carrying `id` with exactly the
    /// supplied values, omitted fields included.
    pub fn update(&mut self, id: u32, up: &UpdateArticle)
        requires
            old(self).wf(),
        ensures
            final(self).wf(),
            final(self).rows@ == updated_rows(old(self).rows@, id, *up),
            final(self).next_id == old(self).next_id,
    {
        let ghost target = updated_rows(old(self).rows@, id, *up);
        let mut out: Vec<Article> = Vec::new();
        let mut i: usize = 0;
        while i < self.rows.len()
            invariant
                *self == *old(self),
                i <= self.rows@.len(),
                out@.len() == i,
                forall|j: int| 0 <= j < i ==> out@[j] == target[j],
                target == updated_rows(old(self).rows@, id, *up),
            decreases self.rows@.len() - i,
        {
            if self.rows[i].id == id {
                out.push(Article {
                    id: self.rows[i].id,
                    title: clone_opt_string(&up.title),
                    content: clone_opt_string(&up.content),
                    view_num: self.rows[i].view_num,
                    created_at: self.rows[i].created_at,
                    updated_at: self.rows[i].updated_at,
                    deleted_at: self.rows[i].deleted_at,
                });
            } else {
                out.push(self.rows[i].duplicate());
            }
            i += 1;
        }
        proof {
            assert(out@ =~= target);
        }
        self.rows = out;
    }

    /// `DELETE FROM articles WHERE id = ?`: removes every row carrying `id`
    /// and inspects nothing, so a missing row deletes nothing and still
    /// succeeds.
    pub fn delete(&mut self, id: u32)
        requires
            old(self).wf(),
        ensures
            final(self).wf(),
            final(self).rows@ == rows_without(old(self).rows@, id),
            final(self).next_id == old(self).next_id,
    {
        let ghost all = old(self).rows@;
        let mut out: Vec<Article> = Vec::new();
        let mut i: usize = 0;
        proof {
            assert(all.skip(0) =~= all);
            assert(out@ + rows_without(all, id) =~= rows_without(all, id));
        }
        while i < self.rows.len()
            invariant
                *self == *old(self),
                all == self.rows@,
                i <= all.len(),
                rows_without(all, id) == out@ + rows_without(all.skip(i as int), id),
            decreases all.len() - i,
        {
            proof {
                assert(all.skip(i as int).first() == all[i as int]);
                assert(all.skip(i as int).drop_first() =~= all.skip(i + 1));
            }
            if self.rows[i].id != id {
                let ghost before = out@;
                out.push(self.rows[i].duplicate());
                proof {
                    assert(out@ + rows_without(all.skip(i + 1), id)
                        =~= before + rows_without(all.skip(i as int), id));
                }
            }
            i += 1;
        }
        proof {
            assert(all.skip(i as int) =~= Seq::<Article>::empty());
            assert(out@ + rows_without(all.skip(i as int), id) =~= out@);
            lemma_rows_without_wf(all, id, old(self).next_id);
        }
        self.rows = out;
    }
}

/// Deleting preserves the table invariant: the surviving ids are drawn from
/// the old rows, stay below the counter, and stay pairwise distinct.
proof fn lemma_rows_without_wf(rows: Seq<Article>, id: u32, bound: u32)
    requires
        forall|i: int| 0 <= i < rows.len() ==> (#[trigger] rows[i].id) < bound,
        forall|i: int, j: int|
            0 <= i < j < rows.len() ==> (#[trigger] rows[i].id) != (#[trigger] rows[j].id),
    ensures
        forall|i: int| 0 <= i < rows_without(rows, id).len()
            ==> (#[trigger] rows_without(rows, id)[i].id) < bound,
        forall|i: int, j: int|
            0 <= i < j < rows_without(rows, id).len()
                ==> (#[trigger] rows_without(rows, id)[i].id) != (#[trigger] rows_without(rows, id)[j].id),
        forall|i: int| 0 <= i < rows_without(rows, id).len()
            ==> (#[trigger] rows_without(rows, id)[i].id) != id,
        forall|i: int| 0 <= i < rows_without(rows, id).len()
            ==> rows.contains(#[trigger] rows_without(rows, id)[i]),
    decreases rows.len(),
{
    if rows.len() == 0 {
    } else {
        let rest = rows.drop_first();
        assert(forall|i: int| 0 <= i < rest.len() ==> #[trigger] rest[i] == rows[i + 1]);
        lemma_rows_without_wf(rest, id, bound);
        let tail = rows_without(rest, id);
        assert(forall|i: int| 0 <= i < tail.len() ==> rest.contains(#[trigger] tail[i])
            ==> rows.contains(tail[i])) by {
            assert(forall|i: int| 0 <= i < rest.len() ==> rows.contains(#[trigger] rest[i]));
        }
        if rows.first().id == id {
            assert(rows_without(rows, id) == tail);
        } else {
            let whole = rows_without(rows, id);
            assert(whole == seq![rows.first()] + tail);
            assert(whole[0] == rows.first());
            assert(forall|i: int| 1 <= i < whole.len() ==> #[trigger] whole[i] == tail[i - 1]);
            assert(rows.contains(rows.first())) by {
                assert(rows[0] == rows.first());
            }
            assert(forall|i: int| 1 <= i < whole.len() ==> (#[trigger] whole[i].id) != rows.first().id) by {
                assert(forall|i: int| 0 <= i < tail.len() ==> rest.contains(#[trigger] tail[i]));
                assert(forall|k: int| 0 <= k < rest.len() ==> (#[trigger] rest[k].id) != rows.first().id) by {
                    assert(forall|k: int| 0 <= k < rest.len() ==> rest[k] == rows[k + 1]);
                }
            }
        }
    }
}

} // verus!
