//! The persistence operations of the service, on a posts table.
//!
//! An operation that needs a fresh id or the time of day draws it and hands
//! it to a twin that takes it as an argument; the twin's contract is exact.

use crate::clock::utc_now_micros;
use crate::ident::random_uuid;
use crate::models::{
    CreatePostRequest, CreatePostRequestView, Post, PostView, UpdatePostRequest,
    UpdatePostRequestView,
};
use crate::store::{found_view, newest_first, views, StoreError, TableView};
use crate::table::PostTable;
use vstd::prelude::*;

verus! {

/// The row that a create request turns into: the request's texts, its
/// `published` flag or `false` where it names none, no update time.
pub open spec fn drafted(id: u128, now: i64, request: CreatePostRequestView) -> PostView {
    PostView {
        id: id,
        title: request.title,
        content: request.content,
        author: request.author,
        published: match request.published {
            Some(flag) => flag,
            None => false,
        },
        created_at: now,
        updated_at: None,
    }
}

/// The row that an update request makes of a stored row: each field that the
/// request names is replaced, each other field is kept, and the update time
/// is set to `now`.
pub open spec fn merged(stored: PostView, request: UpdatePostRequestView, now: i64) -> PostView {
    PostView {
        id: stored.id,
        title: match request.title {
            Some(title) => title,
            None => stored.title,
        },
        content: match request.content {
            Some(content) => content,
            None => stored.content,
        },
        author: stored.author,
        published: match request.published {
            Some(flag) => flag,
            None => stored.published,
        },
        created_at: stored.created_at,
        updated_at: Some(now),
    }
}

/// Builds the row for a create request, with the id and creation time given.
pub fn new_post(id: u128, now: i64, post_req: CreatePostRequest) -> (post: Post)
    ensures
        post@ == drafted(id, now, post_req@),
        post.updated_at is None,
        post_req.published is None ==> !post.published,
        post_req.published is Some ==> post.published == post_req.published->0,
{
    let published = match post_req.published {
        Some(flag) => flag,
        None => false,
    };
    Post {
        id: id,
        title: post_req.title,
        content: post_req.content,
        author: post_req.author,
        published: published,
        created_at: now,
        updated_at: None,
    }
}

/// Builds the row for a create request with a random id and the time of
/// day, both drawn here. The id is a version 4 UUID.
pub fn draft_post(post_req: CreatePostRequest) -> (post: Post)
    ensures
        post@ == drafted(post.id, post.created_at, post_req@),
        post.created_at >= 0,
        (post.id >> 76) & 0xf == 4,
        (post.id >> 62) & 0x3 == 2,
{
    let id = random_uuid();
    let now = utc_now_micros();
    new_post(id, now, post_req)
}

/// Lays an update request over a stored row.
pub fn merge_update(existing: Post, post_req: UpdatePostRequest, now: i64) -> (post: Post)
    ensures
        post@ == merged(existing@, post_req@, now),
        post.id == existing.id,
        post.author@ == existing.author@,
        post.created_at == existing.created_at,
        post.updated_at == Some(now),
        post_req.title is None ==> post.title@ == existing.title@,
        post_req.content is None ==> post.content@ == existing.content@,
        post_req.published is None ==> post.published == existing.published,
        existing@.created_at <= now ==> post@.timestamps_ordered(),
{
    let title = match post_req.title {
        Some(title) => title,
        None => existing.title,
    };
    let content = match post_req.content {
        Some(content) => content,
        None => existing.content,
    };
    let published = match post_req.published {
        Some(flag) => flag,
        None => existing.published,
    };
    Post {
        id: existing.id,
        title: title,
        content: content,
        author: existing.author,
        published: published,
        created_at: existing.created_at,
        updated_at: Some(now),
    }
}

/// Decides an update from what a lookup gave: nothing to write where no row
/// was found, else the row to write, with `now` as its update time.
pub fn plan_update(
    existing: Option<Post>,
    post_req: UpdatePostRequest,
    now: i64,
) -> (plan: Option<Post>)
    ensures
        found_view(plan) == match existing {
            Some(stored) => Some(merged(stored@, post_req@, now)),
            None => None,
        },
{
    match existing {
        Some(stored) => Some(merge_update(stored, post_req, now)),
        None => None,
    }
}

/// Decides an update as `plan_update` does, at the time of day, which is
/// drawn here and only where a row was found.
pub fn revise_post(existing: Option<Post>, post_req: UpdatePostRequest) -> (plan: Option<Post>)
    ensures
        match existing {
            Some(stored) => {
                &&& plan is Some
                &&& plan->0.updated_at is Some
                &&& plan->0.updated_at->0 >= 0
                &&& plan->0@ == merged(stored@, post_req@, plan->0.updated_at->0)
            },
            None => plan is None,
        },
{
    match existing {
        Some(stored) => {
            let now = utc_now_micros();
            Some(merge_update(stored, post_req, now))
        },
        None => None,
    }
}

/// Whether a delete statement that affected `rows_affected` rows removed a
/// post.
pub fn removed(rows_affected: u64) -> (gone: bool)
    ensures
        gone == (rows_affected > 0),
{
    rows_affected > 0
}

/// Makes sure that the posts table exists. A table that exists keeps its
/// rows, so a second call changes nothing.
pub fn init_db(table: &mut PostTable) -> (done: Result<(), StoreError>)
    ensures
        done is Ok,
        final(table)@ == old(table)@.created(),
        final(table)@.present,
        final(table)@.rows == old(table)@.rows,
        final(table)@.wf(),
{
    table.create_table()
}

/// All posts, newest first.
pub fn get_all_posts(table: &PostTable) -> (listed: Result<Vec<Post>, StoreError>)
    ensures
        table@.wf(),
        match listed {
            Ok(posts) => {
                &&& table@.present
                &&& views(posts@) == table@.rows
                &&& newest_first(views(posts@))
            },
            Err(e) => !table@.present && e == StoreError::MissingTable,
        },
{
    table.select_all()
}

/// The post with this id; `Ok(None)` where there is none, which is no error.
pub fn get_post_by_id(table: &PostTable, id: u128) -> (found: Result<Option<Post>, StoreError>)
    ensures
        table@.wf(),
        match found {
            Ok(post) => table@.present && found_view(post) == table@.find(id),
            Err(e) => !table@.present && e == StoreError::MissingTable,
        },
{
    table.select_by_id(id)
}

/// What creating a post does to a table and what it gives back, for the id
/// and time given.
pub open spec fn create_outcome(
    before: TableView,
    id: u128,
    now: i64,
    request: CreatePostRequestView,
    after: TableView,
    created: Result<Post, StoreError>,
) -> bool {
    if !before.present {
        after == before && created == Err::<Post, StoreError>(StoreError::MissingTable)
    } else if before.holds(id) {
        after == before && created == Err::<Post, StoreError>(StoreError::DuplicateId)
    } else {
        &&& created is Ok
        &&& created->Ok_0@ == drafted(id, now, request)
        &&& after == before.with_row(drafted(id, now, request))
    }
}

/// Stores a new post with the id and creation time given, and gives back
/// the stored row.
pub fn create_post_as(
    table: &mut PostTable,
    id: u128,
    now: i64,
    post_req: CreatePostRequest,
) -> (created: Result<Post, StoreError>)
    ensures
        final(table)@.wf(),
        create_outcome(old(table)@, id, now, post_req@, final(table)@, created),
        created is Ok ==> final(table)@.find(id) == Some(created->Ok_0@),
        created is Ok ==> final(table)@.rows.len() == old(table)@.rows.len() + 1,
{
    let row = new_post(id, now, post_req);
    table.insert(row)
}

/// Stores a new post under a random id, created at the time of day, and
/// gives back the stored row. Fails where the table is missing, or where the
/// id drawn is already stored; a table without rows cannot refuse an id.
pub fn create_post(
    table: &mut PostTable,
    post_req: CreatePostRequest,
) -> (created: Result<Post, StoreError>)
    ensures
        final(table)@.wf(),
        match created {
            Ok(post) => {
                &&& old(table)@.present
                &&& !old(table)@.holds(post.id)
                &&& post@ == drafted(post.id, post.created_at, post_req@)
                &&& post.created_at >= 0
                &&& final(table)@ == old(table)@.with_row(post@)
                &&& final(table)@.find(post.id) == Some(post@)
                &&& final(table)@.rows.len() == old(table)@.rows.len() + 1
            },
            Err(e) => {
                &&& final(table)@ == old(table)@
                &&& e == if old(table)@.present {
                    StoreError::DuplicateId
                } else {
                    StoreError::MissingTable
                }
            },
        },
        old(table)@.present && old(table)@.rows.len() == 0 ==> created is Ok,
        !old(table)@.present ==> created is Err,
{
    let id = random_uuid();
    let now = utc_now_micros();
    create_post_as(table, id, now, post_req)
}

/// What updating the post `id` does to a table and what it gives back, for
/// the time given.
pub open spec fn update_outcome(
    before: TableView,
    id: u128,
    request: UpdatePostRequestView,
    now: i64,
    after: TableView,
    updated: Result<Option<Post>, StoreError>,
) -> bool {
    if !before.present {
        after == before && updated == Err::<Option<Post>, StoreError>(StoreError::MissingTable)
    } else if !before.holds(id) {
        after == before && updated == Ok::<Option<Post>, StoreError>(None)
    } else {
        let row = merged(before.rows[before.slot(id)], request, now);
        &&& updated is Ok
        &&& updated->Ok_0 is Some
        &&& updated->Ok_0->0@ == row
        &&& after == before.with_change(row)
    }
}

/// Writes the row that an update was decided to write, if there is one, and
/// gives it back as it is stored afterwards.
fn write_update(
    table: &mut PostTable,
    plan: Option<Post>,
) -> (updated: Result<Option<Post>, StoreError>)
    requires
        old(table)@.wf(),
        old(table)@.present,
        plan is Some ==> old(table)@.holds(plan->0.id),
    ensures
        final(table)@.wf(),
        match plan {
            Some(row) => {
                &&& updated is Ok
                &&& updated->Ok_0 is Some
                &&& updated->Ok_0->0@ == old(table)@.rewritten(
                    row.id,
                    row.title@,
                    row.content@,
                    row.published,
                    row.updated_at,
                )
                &&& final(table)@ == old(table)@.with_change(updated->Ok_0->0@)
                &&& final(table)@.find(row.id) == Some(updated->Ok_0->0@)
            },
            None => {
                &&& final(table)@ == old(table)@
                &&& updated == Ok::<Option<Post>, StoreError>(None)
            },
        },
{
    match plan {
        Some(row) => match table.update(
            row.id,
            row.title,
            row.content,
            row.published,
            row.updated_at,
        ) {
            Ok(written) => Ok(Some(written)),
            Err(e) => Err(e),
        },
        None => Ok(None),
    }
}

/// Lays an update request over the stored post `id`, with `now` as the time
/// of the update, and gives back the row as it is stored afterwards.
/// `Ok(None)` where no post has this id; the table is then unchanged.
pub fn update_post_at(
    table: &mut PostTable,
    id: u128,
    post_req: UpdatePostRequest,
    now: i64,
) -> (updated: Result<Option<Post>, StoreError>)
    ensures
        final(table)@.wf(),
        update_outcome(old(table)@, id, post_req@, now, final(table)@, updated),
        updated is Ok ==> final(table)@.find(id) == found_view(updated->Ok_0),
{
    let existing = match table.select_by_id(id) {
        Ok(existing) => existing,
        Err(e) => {
            return Err(e);
        },
    };
    write_update(table, plan_update(existing, post_req, now))
}

/// Lays an update request over the stored post `id` at the time of day, and
/// gives back the row as it is stored afterwards. `Ok(None)` where no post
/// has this id; the table is then unchanged.
pub fn update_post(
    table: &mut PostTable,
    id: u128,
    post_req: UpdatePostRequest,
) -> (updated: Result<Option<Post>, StoreError>)
    ensures
        final(table)@.wf(),
        !old(table)@.present ==> {
            &&& final(table)@ == old(table)@
            &&& updated == Err::<Option<Post>, StoreError>(StoreError::MissingTable)
        },
        old(table)@.present && !old(table)@.holds(id) ==> {
            &&& final(table)@ == old(table)@
            &&& updated == Ok::<Option<Post>, StoreError>(None)
        },
        old(table)@.present && old(table)@.holds(id) ==> {
            &&& updated is Ok
            &&& updated->Ok_0 is Some
            &&& updated->Ok_0->0.updated_at is Some
            &&& updated->Ok_0->0.updated_at->0 >= 0
            &&& updated->Ok_0->0@ == merged(
                old(table)@.rows[old(table)@.slot(id)],
                post_req@,
                updated->Ok_0->0.updated_at->0,
            )
            &&& final(table)@ == old(table)@.with_change(updated->Ok_0->0@)
        },
        updated is Ok ==> final(table)@.find(id) == found_view(updated->Ok_0),
{
    let existing = match table.select_by_id(id) {
        Ok(existing) => existing,
        Err(e) => {
            return Err(e);
        },
    };
    write_update(table, revise_post(existing, post_req))
}

/// Removes the post `id`. `Ok(true)` where a post was removed, `Ok(false)`
/// where none has this id, which is no error.
pub fn delete_post(table: &mut PostTable, id: u128) -> (deleted: Result<bool, StoreError>)
    ensures
        final(table)@.wf(),
        final(table)@ == old(table)@.without(id),
        final(table)@.find(id) is None,
        match deleted {
            Ok(gone) => old(table)@.present && gone == old(table)@.holds(id),
            Err(e) => !old(table)@.present && e == StoreError::MissingTable,
        },
{
    match table.delete(id) {
        Ok(rows_affected) => Ok(removed(rows_affected)),
        Err(e) => Err(e),
    }
}

} // verus!
