//! The posts table: its rows, kept newest first, and what each statement of
//! the service does to them.
//!
//! `TableView` is the table as a mathematical value. The operations of the
//! service state what they do in its terms, and the lemmas here show that
//! each of them keeps a table well formed.

use crate::models::{Post, PostView};
use vstd::prelude::*;

verus! {

/// Why a statement failed.
#[derive(Debug, PartialEq, Eq)]
pub enum StoreError {
    /// The posts table has not been created.
    MissingTable,
    /// A row with the same id is already stored.
    DuplicateId,
    /// A statement that must give back a row gave none.
    RowNotFound,
    /// The store could not be reached or refused the statement.
    Backend { detail: String },
}

/// The views of a sequence of posts, in the same order.
pub open spec fn views(posts: Seq<Post>) -> Seq<PostView> {
    posts.map_values(|p: Post| p@)
}

/// The view of a post that may be absent.
pub open spec fn found_view(found: Option<Post>) -> Option<PostView> {
    match found {
        Some(p) => Some(p@),
        None => None,
    }
}

/// No two rows share an id.
pub open spec fn ids_distinct(rows: Seq<PostView>) -> bool {
    forall|i: int, j: int| 0 <= i < j < rows.len() ==> rows[i].id != rows[j].id
}

/// Every row was created no earlier than the rows behind it.
pub open spec fn newest_first(rows: Seq<PostView>) -> bool {
    forall|i: int, j: int| 0 <= i < j < rows.len() ==> rows[i].created_at >= rows[j].created_at
}

/// How many of the rows were created later than `at`.
pub open spec fn newer_count(rows: Seq<PostView>, at: i64) -> nat
    decreases rows.len(),
{
    if rows.len() == 0 {
        0
    } else {
        newer_count(rows.drop_last(), at) + if rows.last().created_at > at {
            1nat
        } else {
            0nat
        }
    }
}

/// The posts table as a value: whether it has been created, and its rows in
/// the order in which a listing gives them.
#[verifier::ext_equal]
pub struct TableView {
    pub present: bool,
    pub rows: Seq<PostView>,
}

impl TableView {
    /// The state before the table is created.
    pub open spec fn missing() -> TableView {
        TableView { present: false, rows: Seq::empty() }
    }

    /// A created table without rows.
    pub open spec fn empty() -> TableView {
        TableView { present: true, rows: Seq::empty() }
    }

    /// A table that is missing has no rows; ids are unique; the rows stand
    /// newest first.
    pub open spec fn wf(self) -> bool {
        &&& !self.present ==> self.rows.len() == 0
        &&& ids_distinct(self.rows)
        &&& newest_first(self.rows)
    }

    /// Creating the table where it is missing; nothing where it exists.
    pub open spec fn created(self) -> TableView {
        if self.present {
            self
        } else {
            TableView::empty()
        }
    }

    /// A row with this id is stored.
    pub open spec fn holds(self, id: u128) -> bool {
        exists|i: int| 0 <= i < self.rows.len() && (#[trigger] self.rows[i]).id == id
    }

    /// Where the row with this id stands, if one is stored.
    pub open spec fn slot(self, id: u128) -> int {
        choose|i: int| 0 <= i < self.rows.len() && (#[trigger] self.rows[i]).id == id
    }

    /// The row with this id, if one is stored.
    pub open spec fn find(self, id: u128) -> Option<PostView> {
        if self.holds(id) {
            Some(self.rows[self.slot(id)])
        } else {
            None
        }
    }

    /// Where a row created at `at` is put: behind the rows created later,
    /// ahead of all others.
    pub open spec fn landing(self, at: i64) -> int {
        newer_count(self.rows, at) as int
    }

    /// The table with `row` added.
    pub open spec fn with_row(self, row: PostView) -> TableView {
        TableView {
            present: self.present,
            rows: self.rows.insert(self.landing(row.created_at), row),
        }
    }

    /// The stored row `id` after an update statement: title, content,
    /// published and the update time are written, the rest is kept.
    pub open spec fn rewritten(
        self,
        id: u128,
        title: Seq<char>,
        content: Seq<char>,
        published: bool,
        updated_at: Option<i64>,
    ) -> PostView {
        let stored = self.rows[self.slot(id)];
        PostView {
            id: stored.id,
            title: title,
            content: content,
            author: stored.author,
            published: published,
            created_at: stored.created_at,
            updated_at: updated_at,
        }
    }

    /// The table with the row of `row`'s id replaced by `row`.
    pub open spec fn with_change(self, row: PostView) -> TableView {
        TableView { present: self.present, rows: self.rows.update(self.slot(row.id), row) }
    }

    /// The table without the row `id`; the same table if no such row is
    /// stored.
    pub open spec fn without(self, id: u128) -> TableView {
        if self.holds(id) {
            TableView { present: self.present, rows: self.rows.remove(self.slot(id)) }
        } else {
            self
        }
    }
}

/// In a table with unique ids, a row stands where its id is looked up.
pub proof fn lemma_slot_is(table: TableView, at: int)
    requires
        ids_distinct(table.rows),
        0 <= at < table.rows.len(),
    ensures
        table.holds(table.rows[at].id),
        table.slot(table.rows[at].id) == at,
        table.find(table.rows[at].id) == Some(table.rows[at]),
{
    let id = table.rows[at].id;
    assert(table.holds(id));
    let chosen = table.slot(id);
    assert(0 <= chosen < table.rows.len() && table.rows[chosen].id == id);
    if chosen < at {
        assert(table.rows[chosen].id != table.rows[at].id);
    } else if at < chosen {
        assert(table.rows[at].id != table.rows[chosen].id);
    }
}

/// In rows that stand newest first, the rows created later than `at` are
/// exactly the first `newer_count` of them.
pub proof fn lemma_newer_count(rows: Seq<PostView>, at: i64)
    requires
        newest_first(rows),
    ensures
        0 <= newer_count(rows, at) <= rows.len(),
        forall|i: int| 0 <= i < newer_count(rows, at) ==> (#[trigger] rows[i]).created_at > at,
        forall|i: int|
            newer_count(rows, at) <= i < rows.len() ==> (#[trigger] rows[i]).created_at <= at,
    decreases rows.len(),
{
    if rows.len() > 0 {
        let front = rows.drop_last();
        assert forall|i: int, j: int| 0 <= i < j < front.len() implies front[i].created_at
            >= front[j].created_at by {
            assert(front[i] == rows[i] && front[j] == rows[j]);
        }
        lemma_newer_count(front, at);
        let k = newer_count(front, at) as int;
        assert forall|i: int| 0 <= i < newer_count(rows, at) implies (#[trigger] rows[i]).created_at
            > at by {
            if i < front.len() {
                assert(front[i] == rows[i]);
                if i >= k {
                    // the last row is newer than `at`, and row i is no older
                    assert(rows.last().created_at > at);
                    assert(rows[i].created_at >= rows[rows.len() - 1].created_at);
                }
            }
        }
        assert forall|i: int| newer_count(rows, at) <= i < rows.len() implies (
        #[trigger] rows[i]).created_at <= at by {
            if i < front.len() {
                assert(front[i] == rows[i]);
            }
        }
    }
}

/// A position that parts the rows created later than `at` from the others is
/// the landing position.
pub proof fn lemma_landing_is(rows: Seq<PostView>, at: i64, k: int)
    requires
        newest_first(rows),
        0 <= k <= rows.len(),
        forall|i: int| 0 <= i < k ==> (#[trigger] rows[i]).created_at > at,
        forall|i: int| k <= i < rows.len() ==> (#[trigger] rows[i]).created_at <= at,
    ensures
        newer_count(rows, at) == k,
{
    lemma_newer_count(rows, at);
    let n = newer_count(rows, at) as int;
    if n < k {
        assert(rows[n].created_at > at);
        assert(rows[n].created_at <= at);
    } else if k < n {
        assert(rows[k].created_at > at);
        assert(rows[k].created_at <= at);
    }
}

/// Adding a row whose id is not stored keeps the table well formed.
pub proof fn lemma_with_row_wf(table: TableView, row: PostView)
    requires
        table.wf(),
        table.present,
        !table.holds(row.id),
    ensures
        table.with_row(row).wf(),
        table.with_row(row).rows.len() == table.rows.len() + 1,
        table.with_row(row).rows[table.landing(row.created_at)] == row,
        table.with_row(row).find(row.id) == Some(row),
{
    let rows = table.rows;
    let k = table.landing(row.created_at);
    lemma_newer_count(rows, row.created_at);
    let after = rows.insert(k, row);
    assert forall|i: int| 0 <= i < after.len() implies #[trigger] after[i] == (if i < k {
        rows[i]
    } else if i == k {
        row
    } else {
        rows[i - 1]
    }) by {}
    assert forall|i: int, j: int| 0 <= i < j < after.len() implies after[i].id
        != after[j].id by {
        if i == k {
            assert(rows[j - 1].id != row.id);
        } else if j == k {
            assert(rows[i].id != row.id);
        } else {
            let a = if i < k { i } else { i - 1 };
            let b = if j < k { j } else { j - 1 };
            assert(rows[a].id != rows[b].id);
        }
    }
    assert forall|i: int, j: int| 0 <= i < j < after.len() implies after[i].created_at
        >= after[j].created_at by {
        if i == k {
            assert(rows[j - 1].created_at <= row.created_at);
        } else if j == k {
            assert(rows[i].created_at > row.created_at);
        } else {
            let a = if i < k { i } else { i - 1 };
            let b = if j < k { j } else { j - 1 };
            assert(rows[a].created_at >= rows[b].created_at);
        }
    }
    lemma_slot_is(table.with_row(row), k);
}

/// Replacing a stored row by one with the same id and creation time keeps
/// the table well formed.
pub proof fn lemma_with_change_wf(table: TableView, row: PostView)
    requires
        table.wf(),
        table.holds(row.id),
        row.created_at == table.rows[table.slot(row.id)].created_at,
    ensures
        table.with_change(row).wf(),
        table.with_change(row).rows.len() == table.rows.len(),
        table.with_change(row).find(row.id) == Some(row),
{
    let rows = table.rows;
    let k = table.slot(row.id);
    let after = rows.update(k, row);
    assert forall|i: int, j: int| 0 <= i < j < after.len() implies after[i].id
        != after[j].id by {
        assert(rows[i].id != rows[j].id);
    }
    assert forall|i: int, j: int| 0 <= i < j < after.len() implies after[i].created_at
        >= after[j].created_at by {
        assert(rows[i].created_at >= rows[j].created_at);
    }
    lemma_slot_is(table.with_change(row), k);
}

/// Removing a row keeps the table well formed, and the row is not found in
/// it afterwards.
pub proof fn lemma_without_wf(table: TableView, id: u128)
    requires
        table.wf(),
    ensures
        table.without(id).wf(),
        table.without(id).rows.len() == table.rows.len() - if table.holds(id) {
            1int
        } else {
            0int
        },
        !table.without(id).holds(id),
        table.without(id).find(id) is None,
{
    if table.holds(id) {
        let rows = table.rows;
        let k = table.slot(id);
        let after = rows.remove(k);
        assert forall|i: int| 0 <= i < after.len() implies #[trigger] after[i] == (if i < k {
            rows[i]
        } else {
            rows[i + 1]
        }) by {}
        assert forall|i: int, j: int| 0 <= i < j < after.len() implies after[i].id
            != after[j].id by {
            let a = if i < k { i } else { i + 1 };
            let b = if j < k { j } else { j + 1 };
            assert(rows[a].id != rows[b].id);
        }
        assert forall|i: int, j: int| 0 <= i < j < after.len() implies after[i].created_at
            >= after[j].created_at by {
            let a = if i < k { i } else { i + 1 };
            let b = if j < k { j } else { j + 1 };
            assert(rows[a].created_at >= rows[b].created_at);
        }
        if table.without(id).holds(id) {
            let j = table.without(id).slot(id);
            let i = if j < k {
                j
            } else {
                j + 1
            };
            assert(rows[i] == after[j]);
            if i < k {
                assert(rows[i].id != rows[k].id);
            } else {
                assert(rows[k].id != rows[i].id);
            }
        }
    }
}

} // verus!
