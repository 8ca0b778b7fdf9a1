//! One handler for each route of the service.
//!
//! A handler runs its persistence operation and maps the outcome to a
//! response: a status code and a body. The mapping of each route is a
//! function of its own, so that it can be applied to the outcome of any
//! store. No response carries the detail of a store failure.

use crate::db;
use crate::ident::{parse_uuid, uuid_value};
use crate::models::{CreatePostRequest, Post, PostView, UpdatePostRequest};
use crate::store::{views, StoreError};
use crate::table::PostTable;
use vstd::prelude::*;

verus! {

pub const OK: u16 = 200;

pub const CREATED: u16 = 201;

pub const NO_CONTENT: u16 = 204;

pub const BAD_REQUEST: u16 = 400;

pub const NOT_FOUND: u16 = 404;

pub const INTERNAL_SERVER_ERROR: u16 = 500;

/// What a response carries. `Status` stands for the JSON object
/// `{"status": ..}`, `Error` for `{"error": ..}`, `Post` for a post as a JSON
/// object and `Posts` for a JSON array of posts.
#[derive(Debug, PartialEq, Eq)]
pub enum Body {
    Empty,
    Status(&'static str),
    Post(Post),
    Posts(Vec<Post>),
    Error(&'static str),
}

/// An HTTP response: its status code and its body.
#[derive(Debug, PartialEq, Eq)]
pub struct Response {
    pub status: u16,
    pub body: Body,
}

/// What a body carries, as a value.
#[verifier::ext_equal]
pub enum BodyView {
    Empty,
    Status(Seq<char>),
    Post(PostView),
    Posts(Seq<PostView>),
    Error(Seq<char>),
}

/// A response as a value.
#[verifier::ext_equal]
pub struct ResponseView {
    pub status: u16,
    pub body: BodyView,
}

impl View for Body {
    type V = BodyView;

    open spec fn view(&self) -> BodyView {
        match *self {
            Body::Empty => BodyView::Empty,
            Body::Status(status) => BodyView::Status(status@),
            Body::Post(post) => BodyView::Post(post@),
            Body::Posts(posts) => BodyView::Posts(views(posts@)),
            Body::Error(message) => BodyView::Error(message@),
        }
    }
}

impl View for Response {
    type V = ResponseView;

    open spec fn view(&self) -> ResponseView {
        ResponseView { status: self.status, body: self.body@ }
    }
}

/// 200 with the body `{"status":"ok"}`.
pub open spec fn healthy() -> ResponseView {
    ResponseView { status: 200, body: BodyView::Status("ok"@) }
}

/// A response with one post as its body.
pub open spec fn with_post(status: u16, post: PostView) -> ResponseView {
    ResponseView { status: status, body: BodyView::Post(post) }
}

/// 200 with the posts as its body.
pub open spec fn with_posts(posts: Seq<PostView>) -> ResponseView {
    ResponseView { status: 200, body: BodyView::Posts(posts) }
}

/// 204 without a body.
pub open spec fn no_content() -> ResponseView {
    ResponseView { status: 204, body: BodyView::Empty }
}

/// 400 with the body `{"error":"Invalid post id"}`.
pub open spec fn invalid_id() -> ResponseView {
    ResponseView { status: 400, body: BodyView::Error("Invalid post id"@) }
}

/// 400 with the body `{"error":"Invalid request body"}`.
pub open spec fn invalid_body() -> ResponseView {
    ResponseView { status: 400, body: BodyView::Error("Invalid request body"@) }
}

/// 404 with the body `{"error":"Post not found"}`.
pub open spec fn not_found() -> ResponseView {
    ResponseView { status: 404, body: BodyView::Error("Post not found"@) }
}

/// 500 with the body `{"error": message}`.
pub open spec fn failure(message: Seq<char>) -> ResponseView {
    ResponseView { status: 500, body: BodyView::Error(message) }
}

fn error_response(status: u16, message: &'static str) -> (response: Response)
    ensures
        response@ == (ResponseView { status: status, body: BodyView::Error(message@) }),
{
    Response { status: status, body: Body::Error(message) }
}

/// The response to a path segment that is no post id.
pub fn invalid_id_response() -> (response: Response)
    ensures
        response@ == invalid_id(),
{
    error_response(BAD_REQUEST, "Invalid post id")
}

/// The response to a request body that is no JSON object of the shape that
/// its route takes.
pub fn invalid_body_response() -> (response: Response)
    ensures
        response@ == invalid_body(),
{
    error_response(BAD_REQUEST, "Invalid request body")
}

/// The id that was read from a path segment, or the response that rejects
/// the segment: 400 where nothing was read.
pub fn checked_id(parsed: Option<u128>) -> (checked: Result<u128, Response>)
    ensures
        match parsed {
            Some(id) => checked == Ok::<u128, Response>(id),
            None => checked is Err && checked->Err_0@ == invalid_id(),
        },
{
    match parsed {
        Some(id) => Ok(id),
        None => Err(invalid_id_response()),
    }
}

/// Reads the post id that a path segment holds. A segment that is no UUID
/// is answered with 400 and goes no further.
pub fn path_id(segment: &str) -> (checked: Result<u128, Response>)
    ensures
        match uuid_value(segment@) {
            Some(id) => checked == Ok::<u128, Response>(id),
            None => checked is Err && checked->Err_0@ == invalid_id(),
        },
{
    checked_id(parse_uuid(segment))
}

/// The health check: 200 and `{"status":"ok"}`.
pub fn health_check() -> (response: Response)
    ensures
        response@ == healthy(),
{
    Response { status: OK, body: Body::Status("ok") }
}

/// The response to a listing: 200 with the posts, or 500.
pub fn posts_response(listed: Result<Vec<Post>, StoreError>) -> (response: Response)
    ensures
        response@ == match listed {
            Ok(posts) => with_posts(views(posts@)),
            Err(_) => failure("Failed to get posts"@),
        },
{
    match listed {
        Ok(posts) => Response { status: OK, body: Body::Posts(posts) },
        Err(_) => error_response(INTERNAL_SERVER_ERROR, "Failed to get posts"),
    }
}

/// The response to a lookup: 200 with the post, 404 where there is none, or
/// 500.
pub fn post_response(found: Result<Option<Post>, StoreError>) -> (response: Response)
    ensures
        response@ == match found {
            Ok(Some(post)) => with_post(200, post@),
            Ok(None) => not_found(),
            Err(_) => failure("Failed to get post"@),
        },
{
    match found {
        Ok(Some(post)) => Response { status: OK, body: Body::Post(post) },
        Ok(None) => error_response(NOT_FOUND, "Post not found"),
        Err(_) => error_response(INTERNAL_SERVER_ERROR, "Failed to get post"),
    }
}

/// The response to a create: 201 with the stored post, or 500.
pub fn created_response(created: Result<Post, StoreError>) -> (response: Response)
    ensures
        response@ == match created {
            Ok(post) => with_post(201, post@),
            Err(_) => failure("Failed to create post"@),
        },
{
    match created {
        Ok(post) => Response { status: CREATED, body: Body::Post(post) },
        Err(_) => error_response(INTERNAL_SERVER_ERROR, "Failed to create post"),
    }
}

/// The response to an update: 200 with the post as it is stored now, 404
/// where there is none, or 500.
pub fn updated_response(updated: Result<Option<Post>, StoreError>) -> (response: Response)
    ensures
        response@ == match updated {
            Ok(Some(post)) => with_post(200, post@),
            Ok(None) => not_found(),
            Err(_) => failure("Failed to update post"@),
        },
{
    match updated {
        Ok(Some(post)) => Response { status: OK, body: Body::Post(post) },
        Ok(None) => error_response(NOT_FOUND, "Post not found"),
        Err(_) => error_response(INTERNAL_SERVER_ERROR, "Failed to update post"),
    }
}

/// The response to a delete: 204 where a post was removed, 404 where there
/// was none, or 500.
pub fn deleted_response(deleted: Result<bool, StoreError>) -> (response: Response)
    ensures
        response@ == match deleted {
            Ok(true) => no_content(),
            Ok(false) => not_found(),
            Err(_) => failure("Failed to delete post"@),
        },
{
    match deleted {
        Ok(true) => Response { status: NO_CONTENT, body: Body::Empty },
        Ok(false) => error_response(NOT_FOUND, "Post not found"),
        Err(_) => error_response(INTERNAL_SERVER_ERROR, "Failed to delete post"),
    }
}

/// `GET /posts`: all posts, newest first.
pub fn get_posts(table: &PostTable) -> (response: Response)
    ensures
        response@ == if table@.present {
            with_posts(table@.rows)
        } else {
            failure("Failed to get posts"@)
        },
{
    posts_response(db::get_all_posts(table))
}

/// `GET /posts/{id}`: the post with this id.
pub fn get_post(table: &PostTable, id: u128) -> (response: Response)
    ensures
        response@ == if !table@.present {
            failure("Failed to get post"@)
        } else {
            match table@.find(id) {
                Some(post) => with_post(200, post),
                None => not_found(),
            }
        },
{
    post_response(db::get_post_by_id(table, id))
}

/// `POST /posts`: stores a new post under a random id, created at the time
/// of day. 201 with the stored post; 500, and nothing stored, where the
/// table is missing or the id drawn is taken.
pub fn create_post(table: &mut PostTable, post_req: CreatePostRequest) -> (response: Response)
    ensures
        final(table)@.wf(),
        response@.status == 201 || response@ == failure("Failed to create post"@),
        response@.status == 201 ==> {
            &&& response@.body is Post
            &&& response@.body->Post_0 == db::drafted(
                response@.body->Post_0.id,
                response@.body->Post_0.created_at,
                post_req@,
            )
            &&& old(table)@.present
            &&& !old(table)@.holds(response@.body->Post_0.id)
            &&& final(table)@ == old(table)@.with_row(response@.body->Post_0)
        },
        response@.status != 201 ==> final(table)@ == old(table)@,
        old(table)@.present && old(table)@.rows.len() == 0 ==> response@.status == 201,
        !old(table)@.present ==> response@.status != 201,
{
    created_response(db::create_post(table, post_req))
}

/// `PUT /posts/{id}`: lays the request over the post with this id, at the
/// time of day. 200 with the post as it is stored now; 404, and nothing
/// changed, where no post has this id; 500 where the table is missing.
pub fn update_post(
    table: &mut PostTable,
    id: u128,
    post_req: UpdatePostRequest,
) -> (response: Response)
    ensures
        final(table)@.wf(),
        !old(table)@.present ==> {
            &&& final(table)@ == old(table)@
            &&& response@ == failure("Failed to update post"@)
        },
        old(table)@.present && !old(table)@.holds(id) ==> {
            &&& final(table)@ == old(table)@
            &&& response@ == not_found()
        },
        old(table)@.present && old(table)@.holds(id) ==> {
            &&& response@.status == 200
            &&& response@.body is Post
            &&& response@.body->Post_0.updated_at is Some
            &&& response@.body->Post_0 == db::merged(
                old(table)@.rows[old(table)@.slot(id)],
                post_req@,
                response@.body->Post_0.updated_at->0,
            )
            &&& final(table)@ == old(table)@.with_change(response@.body->Post_0)
        },
{
    updated_response(db::update_post(table, id, post_req))
}

/// `DELETE /posts/{id}`: removes the post with this id. 204 where it was
/// stored, 404 where it was not, 500 where the table is missing.
pub fn delete_post(table: &mut PostTable, id: u128) -> (response: Response)
    ensures
        final(table)@.wf(),
        final(table)@ == old(table)@.without(id),
        response@ == if !old(table)@.present {
            failure("Failed to delete post"@)
        } else if old(table)@.holds(id) {
            no_content()
        } else {
            not_found()
        },
{
    deleted_response(db::delete_post(table, id))
}

} // verus!
