//! What holds of the posts table across operations.
//!
//! Each law is stated over `TableView`, in the terms in which the operations
//! of `db` and `handlers` state what they do to a table.

use crate::db::{drafted, merged};
use crate::models::{CreatePostRequestView, PostView, UpdatePostRequestView};
use crate::store::{
    lemma_newer_count, lemma_slot_is, lemma_with_change_wf, lemma_with_row_wf, lemma_without_wf,
    newest_first, TableView,
};
use vstd::prelude::*;

verus! {

/// A post that was never updated has no update time, and an update at a
/// time that is not before the post's creation leaves the update time at or
/// after the creation time. The creation time is the same after any update.
pub proof fn law_timestamps(
    id: u128,
    created_at: i64,
    create: CreatePostRequestView,
    update: UpdatePostRequestView,
    now: i64,
)
    ensures
        drafted(id, created_at, create).updated_at is None,
        drafted(id, created_at, create).timestamps_ordered(),
        merged(drafted(id, created_at, create), update, now).created_at == created_at,
        created_at <= now ==> merged(
            drafted(id, created_at, create),
            update,
            now,
        ).timestamps_ordered(),
{
}

/// Creating the table twice is creating it once, and a table that exists
/// keeps its rows.
pub proof fn law_init_is_idempotent(table: TableView)
    requires
        table.wf(),
    ensures
        table.created().created() == table.created(),
        table.created().present,
        table.created().rows == table.rows,
        table.created().wf(),
{
}

/// A post that was just created is found under its id, equal to the row
/// that the create gave back, and the table holds one row more.
pub proof fn law_created_is_found(before: TableView, row: PostView)
    requires
        before.wf(),
        before.present,
        !before.holds(row.id),
    ensures
        before.with_row(row).wf(),
        before.with_row(row).find(row.id) == Some(row),
        before.with_row(row).rows.len() == before.rows.len() + 1,
{
    lemma_with_row_wf(before, row);
}

/// Creating a post leaves every other post as it was.
pub proof fn law_create_keeps_others(before: TableView, row: PostView, other: u128)
    requires
        before.wf(),
        before.present,
        !before.holds(row.id),
        other != row.id,
    ensures
        before.with_row(row).find(other) == before.find(other),
{
    let after = before.with_row(row);
    let k = before.landing(row.created_at);
    lemma_with_row_wf(before, row);
    lemma_newer_count(before.rows, row.created_at);
    if before.holds(other) {
        let i = before.slot(other);
        let j = if i < k {
            i
        } else {
            i + 1
        };
        assert(after.rows[j] == before.rows[i]);
        lemma_slot_is(after, j);
    } else if after.holds(other) {
        let j = after.slot(other);
        let i = if j < k {
            j
        } else {
            j - 1
        };
        assert(before.rows[i] == after.rows[j]);
    }
}

/// The table after creating `posts` one by one in an empty table.
pub open spec fn created_all(posts: Seq<PostView>) -> TableView
    decreases posts.len(),
{
    if posts.len() == 0 {
        TableView::empty()
    } else {
        created_all(posts.drop_last()).with_row(posts.last())
    }
}

/// After creating N posts in an empty table the table lists exactly N
/// posts, newest first, and they are the posts that were created.
pub proof fn law_listing_after_creates(posts: Seq<PostView>)
    requires
        forall|i: int, j: int| 0 <= i < j < posts.len() ==> posts[i].id != posts[j].id,
    ensures
        created_all(posts).wf(),
        created_all(posts).present,
        created_all(posts).rows.len() == posts.len(),
        newest_first(created_all(posts).rows),
        forall|i: int|
            0 <= i < posts.len() ==> created_all(posts).find((#[trigger] posts[i]).id) == Some(
                posts[i],
            ),
        forall|id: u128|
            #[trigger] created_all(posts).holds(id) ==> exists|i: int|
                0 <= i < posts.len() && (#[trigger] posts[i]).id == id,
    decreases posts.len(),
{
    if posts.len() > 0 {
        let front = posts.drop_last();
        let last = posts.last();
        let before = created_all(front);
        assert forall|i: int, j: int| 0 <= i < j < front.len() implies front[i].id
            != front[j].id by {
            assert(front[i] == posts[i] && front[j] == posts[j]);
        }
        law_listing_after_creates(front);
        if before.holds(last.id) {
            let i = choose|i: int| 0 <= i < front.len() && (#[trigger] front[i]).id == last.id;
            assert(front[i] == posts[i]);
            assert(posts[i].id != posts[posts.len() - 1].id);
        }
        law_created_is_found(before, last);
        let after = before.with_row(last);
        assert forall|i: int| 0 <= i < posts.len() implies after.find((#[trigger] posts[i]).id)
            == Some(posts[i]) by {
            if i < front.len() {
                assert(front[i] == posts[i]);
                assert(posts[i].id != posts[posts.len() - 1].id);
                law_create_keeps_others(before, last, posts[i].id);
            }
        }
        assert forall|id: u128| #[trigger] after.holds(id) implies exists|i: int|
            0 <= i < posts.len() && (#[trigger] posts[i]).id == id by {
            if id == last.id {
                assert(posts[posts.len() - 1].id == id);
            } else {
                law_create_keeps_others(before, last, id);
                assert(before.holds(id));
                let i = choose|i: int| 0 <= i < front.len() && (#[trigger] front[i]).id == id;
                assert(front[i] == posts[i]);
            }
        }
    }
}

/// An update of a post that is stored puts the merged row in its place and
/// leaves the number of rows unchanged.
pub proof fn law_updated_is_found(
    before: TableView,
    id: u128,
    request: UpdatePostRequestView,
    now: i64,
)
    requires
        before.wf(),
        before.holds(id),
    ensures
        before.with_change(merged(before.rows[before.slot(id)], request, now)).wf(),
        before.with_change(merged(before.rows[before.slot(id)], request, now)).find(id) == Some(
            merged(before.rows[before.slot(id)], request, now),
        ),
        before.with_change(merged(before.rows[before.slot(id)], request, now)).rows.len()
            == before.rows.len(),
{
    lemma_with_change_wf(before, merged(before.rows[before.slot(id)], request, now));
}

/// An update with only a title changes the title and the update time of the
/// stored post and nothing else of it.
pub proof fn law_title_only_update(stored: PostView, title: Seq<char>, now: i64)
    ensures
        merged(
            stored,
            UpdatePostRequestView { title: Some(title), content: None, published: None },
            now,
        ) == (PostView { title: title, updated_at: Some(now), ..stored }),
{
}

/// Updating a post leaves every other post as it was.
pub proof fn law_update_keeps_others(before: TableView, row: PostView, other: u128)
    requires
        before.wf(),
        before.holds(row.id),
        row.created_at == before.rows[before.slot(row.id)].created_at,
        other != row.id,
    ensures
        before.with_change(row).find(other) == before.find(other),
{
    let after = before.with_change(row);
    let k = before.slot(row.id);
    lemma_with_change_wf(before, row);
    if before.holds(other) {
        let i = before.slot(other);
        assert(after.rows[i] == before.rows[i]);
        lemma_slot_is(after, i);
    } else if after.holds(other) {
        let j = after.slot(other);
        assert(before.rows[j] == after.rows[j]);
    }
}

/// After a delete no post is found under the id, whether one was stored or
/// not.
pub proof fn law_deleted_is_gone(before: TableView, id: u128)
    requires
        before.wf(),
    ensures
        before.without(id).wf(),
        !before.without(id).holds(id),
        before.without(id).find(id) is None,
        !before.holds(id) ==> before.without(id) == before,
{
    lemma_without_wf(before, id);
}

/// Deleting a post leaves every other post as it was.
pub proof fn law_delete_keeps_others(before: TableView, id: u128, other: u128)
    requires
        before.wf(),
        other != id,
    ensures
        before.without(id).find(other) == before.find(other),
{
    lemma_without_wf(before, id);
    let after = before.without(id);
    if before.holds(id) {
        let k = before.slot(id);
        if before.holds(other) {
            let i = before.slot(other);
            let j = if i < k {
                i
            } else {
                i - 1
            };
            assert(after.rows[j] == before.rows[i]);
            lemma_slot_is(after, j);
        } else if after.holds(other) {
            let j = after.slot(other);
            let i = if j < k {
                j
            } else {
                j + 1
            };
            assert(before.rows[i] == after.rows[j]);
        }
    }
}

/// Create, get, update, get, delete, get: the post is found as created,
/// then as updated, then not at all, and the table ends as it began.
pub proof fn law_round_trip(
    before: TableView,
    row: PostView,
    request: UpdatePostRequestView,
    now: i64,
)
    requires
        before.wf(),
        before.present,
        !before.holds(row.id),
    ensures
        before.with_row(row).find(row.id) == Some(row),
        before.with_row(row).with_change(merged(row, request, now)).find(row.id) == Some(
            merged(row, request, now),
        ),
        before.with_row(row).with_change(merged(row, request, now)).without(row.id).find(row.id)
            is None,
        before.with_row(row).with_change(merged(row, request, now)).without(row.id) == before,
{
    let created = before.with_row(row);
    let k = before.landing(row.created_at);
    law_created_is_found(before, row);
    lemma_newer_count(before.rows, row.created_at);
    lemma_slot_is(created, k);
    let change = merged(row, request, now);
    let updated = created.with_change(change);
    lemma_with_change_wf(created, change);
    lemma_slot_is(updated, k);
    let deleted = updated.without(row.id);
    law_deleted_is_gone(updated, row.id);
    assert(deleted.rows =~= before.rows);
}

} // verus!
