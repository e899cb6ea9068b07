//! The post store and the two endpoints that read it.
//!
//! The store is an ordered, read-only sequence of posts, fixed for the
//! life of the process, with unique ids and at least one entry. The
//! endpoints enumerate it (metadata listing) and look a post up by id.
//! The artificial latency the endpoints simulate to model a network or
//! database hop is a runtime concern and lives outside this crate.

use vstd::prelude::*;
use vstd::string::StringExecFns;
use crate::model::{Post, PostV, PostMetadata, ServerError};

verus! {

/// A read-only, ordered collection of posts.
pub struct Store {
    posts: Vec<Post>,
}

/// A store is well formed when it is non-empty and no id repeats.
pub open spec fn store_wf(s: Seq<PostV>) -> bool {
    &&& s.len() > 0
    &&& forall|i: int, j: int| 0 <= i < j < s.len() ==> s[i].id != s[j].id
}

/// The first post of `s` whose id is `id`, if any.
pub open spec fn spec_find(s: Seq<PostV>, id: int) -> Option<PostV>
    decreases s.len(),
{
    if s.len() == 0 {
        None
    } else if s[0].id == id {
        Some(s[0])
    } else {
        spec_find(s.drop_first(), id)
    }
}

/// An id no post of the store carries is never found: the lookup, and
/// with it the post endpoint, comes back empty for it.
pub proof fn lemma_find_none(s: Seq<PostV>, id: int)
    requires
        forall|k: int| 0 <= k < s.len() ==> s[k].id != id,
    ensures
        spec_find(s, id) is None,
    decreases s.len(),
{
    if s.len() > 0 {
        lemma_find_none(s.drop_first(), id);
    }
}

/// When entry `i` carries `id` and no earlier entry does, the lookup
/// returns exactly entry `i`.
proof fn lemma_find_at(s: Seq<PostV>, id: int, i: int)
    requires
        0 <= i < s.len(),
        s[i].id == id,
        forall|k: int| 0 <= k < i ==> s[k].id != id,
    ensures
        spec_find(s, id) == Some(s[i]),
    decreases s.len(),
{
    if i > 0 {
        lemma_find_at(s.drop_first(), id, i - 1);
    }
}

/// Every id present in a well-formed store is found, and the lookup
/// returns exactly the post that carries it: ids are unique, so the
/// first match is the post itself, title and content included.
pub proof fn lemma_find_present(s: Seq<PostV>, i: int)
    requires
        store_wf(s),
        0 <= i < s.len(),
    ensures
        spec_find(s, s[i].id) == Some(s[i]),
{
    lemma_find_at(s, s[i].id, i);
}

impl View for Store {
    type V = Seq<PostV>;

    closed spec fn view(&self) -> Seq<PostV> {
        self.posts@.map(|i: int, p: Post| p@)
    }
}

impl Store {
    /// Build a store from an already validated list of posts.
    pub fn new(posts: Vec<Post>) -> (r: Store)
        requires
            posts.len() > 0,
            forall|i: int, j: int| 0 <= i < j < posts.len() ==> posts[i]@.id != posts[j]@.id,
        ensures
            store_wf(r@),
            r@.len() == posts@.len(),
            forall|i: int| 0 <= i < posts@.len() ==> r@[i] == posts@[i]@,
    {
        let r = Store { posts };
        assert forall|i: int| 0 <= i < r.posts@.len() implies r@[i] == r.posts@[i]@ by {}
        r
    }

    /// How many posts the store holds.
    pub fn len(&self) -> (r: usize)
        ensures
            r == self@.len(),
    {
        self.posts.len()
    }

    /// Borrow the post at position `i`, in store order.
    pub fn post_at(&self, i: usize) -> (r: &Post)
        requires
            i < self@.len(),
        ensures
            r@ == self@[i as int],
    {
        &self.posts[i]
    }
}

/// The fixed seed data: three posts with ids 0, 1 and 2, created once
/// before serving begins and never mutated.
pub fn seed_store() -> (r: Store)
    ensures
        store_wf(r@),
        r@.len() == 3,
        r@[0].id == 0 && r@[0].title == "My first post"@ && r@[0].content
            == "This is my first post"@,
        r@[1].id == 1 && r@[1].title == "My second post"@ && r@[1].content
            == "This is my second post"@,
        r@[2].id == 2 && r@[2].title == "My third post"@ && r@[2].content
            == "This is my third post"@,
{
    let mut posts: Vec<Post> = Vec::new();
    posts.push(
        Post {
            id: 0,
            title: String::from_str("My first post"),
            content: String::from_str("This is my first post"),
        },
    );
    posts.push(
        Post {
            id: 1,
            title: String::from_str("My second post"),
            content: String::from_str("This is my second post"),
        },
    );
    posts.push(
        Post {
            id: 2,
            title: String::from_str("My third post"),
            content: String::from_str("This is my third post"),
        },
    );
    Store::new(posts)
}

/// All metadata entries of `s`, in store order.
pub open spec fn spec_metadata(s: Seq<PostV>) -> Seq<crate::model::PostMetadataV> {
    s.map(|i: int, p: PostV| crate::model::PostMetadataV { id: p.id, title: p.title })
}

/// The metadata endpoint: project every post to (id, title), preserving
/// store order. It always succeeds; the `Result` mirrors the transport
/// wrapper the runtime adds around the call.
pub fn list_post_metadata(store: &Store) -> (r: Result<Vec<PostMetadata>, ServerError>)
    ensures
        r matches Ok(v) && v@.map(|i: int, m: PostMetadata| m@) == spec_metadata(store@),
{
    let mut out: Vec<PostMetadata> = Vec::new();
    let n = store.len();
    for i in 0..n
        invariant
            n == store@.len(),
            out@.len() == i,
            forall|k: int| 0 <= k < i ==> out@[k]@.id == store@[k].id && out@[k]@.title
                == store@[k].title,
    {
        let p = store.post_at(i);
        out.push(PostMetadata { id: p.id, title: p.title.clone() });
    }
    assert(out@.map(|i: int, m: PostMetadata| m@) =~= spec_metadata(store@));
    Ok(out)
}

/// The post endpoint: linear lookup of the post whose id equals the
/// input; `Some` when found, `None` when absent. It always succeeds;
/// the `Result` mirrors the transport wrapper around the call.
pub fn get_post(store: &Store, id: usize) -> (r: Result<Option<Post>, ServerError>)
    ensures
        r matches Ok(o) && (match o {
            Some(p) => spec_find(store@, id as int) == Some(p@),
            None => spec_find(store@, id as int) is None,
        }),
{
    let n = store.len();
    for i in 0..n
        invariant
            n == store@.len(),
            forall|k: int| 0 <= k < i ==> store@[k].id != id as int,
    {
        let p = store.post_at(i);
        if p.id == id {
            proof {
                lemma_find_at(store@, id as int, i as int);
            }
            let found = Post { id: p.id, title: p.title.clone(), content: p.content.clone() };
            return Ok(Some(found));
        }
    }
    proof {
        lemma_find_none(store@, id as int);
    }
    Ok(None)
}

/// The derived post count: the number of entries a metadata fetch
/// produced, or zero when the fetch failed.
pub fn post_count(fetch: &Result<Vec<PostMetadata>, ServerError>) -> (r: usize)
    ensures
        match fetch {
            Ok(v) => r == v@.len(),
            Err(_) => r == 0,
        },
{
    match fetch {
        Ok(v) => v.len(),
        Err(_) => 0,
    }
}

/// The derived post count agrees with the length of the metadata
/// listing taken from the same store snapshot: a listing the metadata
/// endpoint may return has one entry per post, so a count computed from
/// it equals the store's size.
pub proof fn lemma_count_matches_listing(
    store: &Store,
    listing: Vec<PostMetadata>,
    count: usize,
)
    requires
        listing@.map(|i: int, m: PostMetadata| m@) == spec_metadata(store@),
        count == listing@.len(),
    ensures
        count == spec_metadata(store@).len(),
        count == store@.len(),
{
    assert(listing@.map(|i: int, m: PostMetadata| m@).len() == listing@.len());
}

} // verus!
