//! The two views and their composition: the home page projects the
//! metadata listing into link items and a derived count, and the post
//! page runs a small state machine from route parameter to rendered
//! post or categorized failure. An error boundary turns failures into
//! a uniform list of messages.

use vstd::prelude::*;
use vstd::string::{StrSliceExecFns, StringExecFns};
use crate::model::{Post, PostV, PostMetadata, PostMetadataV, PostError, ServerError, PostParams};
use crate::store::{Store, store_wf, spec_find, spec_metadata, list_post_metadata, get_post,
    post_count, lemma_count_matches_listing};
use crate::text::{parses, is_digit, dec_val, spec_dec, parse_usize, fmt_usize,
    lemma_format_parses_back};
use crate::routing::{Route, RouteV, SsrStrategy, is_param_route, match_path, spec_match};

verus! {

/// One entry of the home page's list: the post's title shown as two
/// links, one per rendering strategy of the post page.
#[derive(Debug, PartialEq, Eq)]
pub struct HomeItem {
    pub id: usize,
    pub title: String,
    pub href_async: String,
    pub href_in_order: String,
}

/// What a request renders to.
#[derive(Debug, PartialEq, Eq)]
pub enum Page {
    /// The post listing, with the derived post count.
    Home { count: usize, items: Vec<HomeItem> },
    /// A post's title and content; the page metadata is set to the
    /// same title and content when served.
    PostDetail { title: String, content: String },
    /// The error boundary's generic failure block: one message per
    /// failure, in order.
    Failure { messages: Vec<String> },
    /// No route matched; the fallback body is served.
    NotFound,
}

/// `item` renders metadata entry `m`: same id and title, and the two
/// hrefs name the post routes carrying the id in decimal.
pub open spec fn home_item_ok(item: HomeItem, m: PostMetadataV) -> bool {
    &&& item.id as int == m.id
    &&& item.title@ == m.title
    &&& item.href_async@ == "/post/"@ + spec_dec(item.id as nat)
    &&& item.href_in_order@ == "/post_in_order/"@ + spec_dec(item.id as nat)
}

/// `r` is the home page rendered from store contents `s`: the derived
/// count and the listing both cover every post, in store order.
pub open spec fn home_ok(r: Page, s: Seq<PostV>) -> bool {
    r matches Page::Home { count, items } && count == s.len() && items@.len() == s.len()
        && (forall|i: int| 0 <= i < items@.len() ==> home_item_ok(items@[i], spec_metadata(s)[i]))
}

/// The post page's state machine on store contents `s` and route
/// parameter `raw`: a missing or unparseable parameter is an invalid
/// id; otherwise the lookup decides between the post and "not found".
pub open spec fn spec_post_page(s: Seq<PostV>, raw: Option<Seq<char>>) -> Result<PostV, PostError> {
    match raw {
        None => Err(PostError::InvalidId),
        Some(t) => if !parses(t) {
            Err(PostError::InvalidId)
        } else {
            match spec_find(s, dec_val(t) as int) {
                Some(p) => Ok(p),
                None => Err(PostError::PostNotFound),
            }
        },
    }
}

/// `r` renders the post page outcome for parameter `raw`: the found
/// post's title and content, or the failure block with that one
/// failure's message.
pub open spec fn post_render_ok(r: Page, s: Seq<PostV>, raw: Seq<char>) -> bool {
    match spec_post_page(s, Some(raw)) {
        Ok(p) => r matches Page::PostDetail { title, content } && title@ == p.title && content@
            == p.content,
        Err(e) => r matches Page::Failure { messages } && messages@.len() == 1 && messages@[0]@
            == e.spec_message(),
    }
}

/// Build the home page's list: one item per metadata entry, in order,
/// each holding the title and the two post links.
pub fn home_items(listing: &Vec<PostMetadata>) -> (r: Vec<HomeItem>)
    ensures
        r@.len() == listing@.len(),
        forall|i: int| 0 <= i < r@.len() ==> home_item_ok(r@[i], listing@[i]@),
{
    let mut out: Vec<HomeItem> = Vec::new();
    let n = listing.len();
    for i in 0..n
        invariant
            n == listing@.len(),
            out@.len() == i,
            forall|k: int| 0 <= k < i ==> home_item_ok(out@[k], listing@[k]@),
    {
        let m = &listing[i];
        let num = fmt_usize(m.id);
        let href_async = String::from_str("/post/").concat(num.as_str());
        let num_in_order = fmt_usize(m.id);
        let href_in_order = String::from_str("/post_in_order/").concat(num_in_order.as_str());
        out.push(
            HomeItem { id: m.id, title: m.title.clone(), href_async, href_in_order },
        );
    }
    out
}

/// The home page view: fetch the metadata listing, derive the post
/// count from the same fetch, and render one item with two links per
/// post. The count always equals the length of the listing.
pub fn home_page(store: &Store) -> (r: Page)
    ensures
        home_ok(r, store@),
{
    let fetch = list_post_metadata(store);
    let count = post_count(&fetch);
    let listing = match fetch {
        Ok(v) => v,
        Err(_) => {
            proof {
                assert(false);
            }
            Vec::new()
        },
    };
    proof {
        lemma_count_matches_listing(store, listing, count);
    }
    let items = home_items(&listing);
    proof {
        assert forall|i: int| 0 <= i < items@.len() implies home_item_ok(
            items@[i],
            spec_metadata(store@)[i],
        ) by {
            assert(listing@.map(|k: int, m: PostMetadata| m@)[i] == listing@[i]@);
        }
    }
    Page::Home { count, items }
}

/// Parse the post id out of the route parameters. A missing or
/// unparseable parameter is an invalid id, and the caller issues no
/// fetch for it.
pub fn post_id_from_route(raw: Option<&str>) -> (r: Result<usize, PostError>)
    ensures
        match r {
            Ok(n) => raw matches Some(s) && parses(s@) && n as nat == dec_val(s@),
            Err(e) => {
                &&& e == PostError::InvalidId
                &&& (raw matches Some(s) ==> !parses(s@))
            },
        },
{
    let params = match raw {
        Some(s) => match parse_usize(s) {
            Some(n) => PostParams { id: Some(n) },
            None => {
                return Err(PostError::InvalidId);
            },
        },
        None => PostParams { id: None },
    };
    match params.id {
        Some(n) => Ok(n),
        None => Err(PostError::InvalidId),
    }
}

/// Categorize what a post fetch came back with: a transport failure is
/// a server error, an empty result a missing post, and a found post
/// passes through. The failure's category is kept for the boundary
/// rather than collapsed into a single kind.
pub fn resolve_post_fetch(fetch: Result<Option<Post>, ServerError>) -> (r: Result<Post, PostError>)
    ensures
        match fetch {
            Ok(Some(p)) => r matches Ok(q) && q == p,
            Ok(None) => r == Err::<Post, PostError>(PostError::PostNotFound),
            Err(_) => r == Err::<Post, PostError>(PostError::ServerError),
        },
{
    match fetch {
        Ok(Some(p)) => Ok(p),
        Ok(None) => Err(PostError::PostNotFound),
        Err(_) => Err(PostError::ServerError),
    }
}

/// The post page's data path for one request: parse the id from the
/// route, and only when it parses consult the post endpoint and
/// categorize what comes back. An invalid id short-circuits before the
/// endpoint, so its outcome is the same whatever the store holds.
pub fn post_page(store: &Store, raw_id: Option<&str>) -> (r: Result<Post, PostError>)
    ensures
        match r {
            Ok(p) => spec_post_page(store@, spec_raw(raw_id)) == Ok::<PostV, PostError>(p@),
            Err(e) => spec_post_page(store@, spec_raw(raw_id)) == Err::<PostV, PostError>(e),
        },
{
    let id = match post_id_from_route(raw_id) {
        Ok(n) => n,
        Err(e) => {
            return Err(e);
        },
    };
    let fetched = get_post(store, id);
    resolve_post_fetch(fetched)
}

/// The route parameter as the model sees it.
pub open spec fn spec_raw(raw: Option<&str>) -> Option<Seq<char>> {
    match raw {
        Some(s) => Some(s@),
        None => None,
    }
}

/// The error boundary's rendering: every failure stringified to its
/// message, in order, with no kind-specific recovery.
pub fn error_block_messages(errors: &Vec<PostError>) -> (r: Vec<String>)
    ensures
        r@.len() == errors@.len(),
        forall|i: int| 0 <= i < r@.len() ==> r@[i]@ == errors@[i].spec_message(),
{
    let mut out: Vec<String> = Vec::new();
    let n = errors.len();
    for i in 0..n
        invariant
            n == errors@.len(),
            out@.len() == i,
            forall|k: int| 0 <= k < i ==> out@[k]@ == errors@[k].spec_message(),
    {
        out.push(errors[i].message());
    }
    out
}

/// Following the "async" link a home page item carries leads back to
/// the very post the item was rendered from: the link's path matches
/// the post route, its parameter parses to the post's id, and the post
/// page then renders that post.
pub proof fn lemma_home_link_leads_to_post(s: Seq<PostV>, i: int)
    requires
        store_wf(s),
        0 <= i < s.len(),
        0 <= s[i].id <= usize::MAX,
    ensures
        ({
            let raw = spec_dec(s[i].id as nat);
            let path = "/post/"@ + raw;
            &&& spec_match(path) == (RouteV::PostPage { strategy: SsrStrategy::Async, raw_id: raw })
            &&& spec_post_page(s, Some(raw)) == Ok::<PostV, PostError>(s[i])
        }),
{
    reveal_strlit("/");
    reveal_strlit("/post/");
    let raw = spec_dec(s[i].id as nat);
    let path = "/post/"@ + raw;
    lemma_format_parses_back(s[i].id as usize);
    assert(path.len() > 1);
    assert(path != "/"@) by {
        assert("/"@.len() == 1);
    }
    assert("/post/"@.is_prefix_of(path)) by {
        assert("/post/"@ =~= path.subrange(0, 6));
    }
    assert(path.skip(6) =~= raw);
    assert(!raw.contains('/')) by {
        if raw.contains('/') {
            let k = choose|k: int| 0 <= k < raw.len() && raw[k] == '/';
            assert(is_digit(raw[k]));
        }
    }
    assert(is_param_route(path, "/post/"@));
    crate::store::lemma_find_present(s, i);
}

/// Serve one request: match the path against the route table and run
/// the view it names against the store.
pub fn render_route(store: &Store, path: &str) -> (r: Page)
    ensures
        spec_match(path@) is Home ==> home_ok(r, store@),
        (spec_match(path@) matches RouteV::PostPage { strategy, raw_id } ==> post_render_ok(
            r,
            store@,
            raw_id,
        )),
        spec_match(path@) is NotFound ==> r is NotFound,
{
    match match_path(path) {
        Route::Home => home_page(store),
        // The strategy decides when the rendered page is streamed, not
        // what it holds, so both post routes render the same way here.
        Route::PostPage { strategy: _, raw_id } => {
            match post_page(store, Some(raw_id.as_str())) {
                Ok(p) => Page::PostDetail { title: p.title, content: p.content },
                Err(e) => {
                    let mut messages: Vec<String> = Vec::new();
                    messages.push(e.message());
                    Page::Failure { messages }
                },
            }
        },
        Route::NotFound => Page::NotFound,
    }
}

} // verus!
