//! The data model: posts, their metadata projection, and the closed
//! taxonomy of failures a post page can surface.

use vstd::prelude::*;
use vstd::string::StringExecFns;

verus! {

/// Mathematical model of a post: its id together with the character
/// sequences of its title and content.
pub ghost struct PostV {
    pub id: int,
    pub title: Seq<char>,
    pub content: Seq<char>,
}

/// A single blog post. Ids act as primary keys inside a store.
#[derive(Debug, PartialEq, Eq)]
pub struct Post {
    pub id: usize,
    pub title: String,
    pub content: String,
}

impl View for Post {
    type V = PostV;

    open spec fn view(&self) -> PostV {
        PostV { id: self.id as int, title: self.title@, content: self.content@ }
    }
}

/// Mathematical model of a metadata entry: id and title only.
pub ghost struct PostMetadataV {
    pub id: int,
    pub title: Seq<char>,
}

/// The projection of a post that the listing endpoint hands out:
/// the id and title, with the content deliberately excluded.
#[derive(Debug, PartialEq, Eq)]
pub struct PostMetadata {
    pub id: usize,
    pub title: String,
}

impl View for PostMetadata {
    type V = PostMetadataV;

    open spec fn view(&self) -> PostMetadataV {
        PostMetadataV { id: self.id as int, title: self.title@ }
    }
}

/// The closed set of failure categories for the post page.
#[derive(Debug, Clone, Copy, PartialEq, Eq, Structural)]
pub enum PostError {
    /// The route parameter was missing or did not parse as an id.
    InvalidId,
    /// The id parsed, but no post in the store carries it.
    PostNotFound,
    /// The endpoint itself failed (transport or downstream error).
    ServerError,
}

/// A transport-level failure of an endpoint call. The pure endpoints in
/// this crate never produce one; the surrounding runtime may, and the
/// page logic accepts fetch results that carry it.
#[derive(Debug, Clone, Copy, PartialEq, Eq, Structural)]
pub struct ServerError;

/// The parsed route parameters of the post page: the id, when one was
/// present in the path.
#[derive(Debug, Clone, Copy, PartialEq, Eq)]
pub struct PostParams {
    pub id: Option<usize>,
}

impl PostError {
    /// The user-facing message of each failure category.
    pub open spec fn spec_message(&self) -> Seq<char> {
        match self {
            PostError::InvalidId => "Invalid post ID."@,
            PostError::PostNotFound => "Post not found."@,
            PostError::ServerError => "Server error."@,
        }
    }

    /// Render the failure as the message the error block lists.
    pub fn message(&self) -> (r: String)
        ensures
            r@ == self.spec_message(),
    {
        match self {
            PostError::InvalidId => String::from_str("Invalid post ID."),
            PostError::PostNotFound => String::from_str("Post not found."),
            PostError::ServerError => String::from_str("Server error."),
        }
    }
}

} // verus!
