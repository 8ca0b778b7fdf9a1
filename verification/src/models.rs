//! The post entity and the two request shapes that create and change it.

use vstd::prelude::*;

verus! {

/// A stored post.
///
/// `id` is the 128-bit value of the post's UUID. Both timestamps count
/// microseconds since the Unix epoch, in UTC.
#[derive(Debug, PartialEq, Eq)]
pub struct Post {
    pub id: u128,
    pub title: String,
    pub content: String,
    pub author: String,
    pub published: bool,
    pub created_at: i64,
    pub updated_at: Option<i64>,
}

/// What a post is, with its texts as sequences of characters.
#[verifier::ext_equal]
pub struct PostView {
    pub id: u128,
    pub title: Seq<char>,
    pub content: Seq<char>,
    pub author: Seq<char>,
    pub published: bool,
    pub created_at: i64,
    pub updated_at: Option<i64>,
}

impl View for Post {
    type V = PostView;

    open spec fn view(&self) -> PostView {
        PostView {
            id: self.id,
            title: self.title@,
            content: self.content@,
            author: self.author@,
            published: self.published,
            created_at: self.created_at,
            updated_at: self.updated_at,
        }
    }
}

impl PostView {
    /// A post was never updated, or was last updated no earlier than it was
    /// created.
    pub open spec fn timestamps_ordered(self) -> bool {
        match self.updated_at {
            Some(at) => self.created_at <= at,
            None => true,
        }
    }
}

impl Clone for Post {
    fn clone(&self) -> (copy: Self)
        ensures
            copy == *self,
    {
        Post {
            id: self.id,
            title: self.title.clone(),
            content: self.content.clone(),
            author: self.author.clone(),
            published: self.published,
            created_at: self.created_at,
            updated_at: self.updated_at,
        }
    }
}

/// The body of a request to create a post. `published` may be left out.
#[derive(Debug, PartialEq, Eq)]
pub struct CreatePostRequest {
    pub title: String,
    pub content: String,
    pub author: String,
    pub published: Option<bool>,
}

/// What a create request asks for.
#[verifier::ext_equal]
pub struct CreatePostRequestView {
    pub title: Seq<char>,
    pub content: Seq<char>,
    pub author: Seq<char>,
    pub published: Option<bool>,
}

impl View for CreatePostRequest {
    type V = CreatePostRequestView;

    open spec fn view(&self) -> CreatePostRequestView {
        CreatePostRequestView {
            title: self.title@,
            content: self.content@,
            author: self.author@,
            published: self.published,
        }
    }
}

/// The body of a request to change a post. A field that is left out keeps
/// the value that is stored.
#[derive(Debug, PartialEq, Eq)]
pub struct UpdatePostRequest {
    pub title: Option<String>,
    pub content: Option<String>,
    pub published: Option<bool>,
}

/// What an update request asks for.
#[verifier::ext_equal]
pub struct UpdatePostRequestView {
    pub title: Option<Seq<char>>,
    pub content: Option<Seq<char>>,
    pub published: Option<bool>,
}

/// The characters of a text that may be absent.
pub open spec fn text_view(text: Option<String>) -> Option<Seq<char>> {
    match text {
        Some(s) => Some(s@),
        None => None,
    }
}

impl View for UpdatePostRequest {
    type V = UpdatePostRequestView;

    open spec fn view(&self) -> UpdatePostRequestView {
        UpdatePostRequestView {
            title: text_view(self.title),
            content: text_view(self.content),
            published: self.published,
        }
    }
}

} // verus!
