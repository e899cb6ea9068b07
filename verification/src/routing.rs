//! Path matching: the static home route, the two parameterized post
//! routes that differ only in rendering strategy, and the fallback for
//! everything else.

use vstd::prelude::*;
use vstd::string::{StrSliceExecFns, StringExecFns};

verus! {

/// How the server renders the post page: held back until the data
/// resolves, or streamed in arrival order.
#[derive(Debug, Clone, Copy, PartialEq, Eq, Structural)]
pub enum SsrStrategy {
    /// Emit the page only after the post resolves, metadata included.
    Async,
    /// Send the shell first and patch the content in once resolved.
    InOrder,
}

/// Mathematical model of a matched route.
pub ghost enum RouteV {
    Home,
    PostPage { strategy: SsrStrategy, raw_id: Seq<char> },
    NotFound,
}

/// The outcome of matching a URL path.
#[derive(Debug, PartialEq, Eq)]
pub enum Route {
    /// The home page listing all posts.
    Home,
    /// A post page, with its rendering strategy and the raw, still
    /// unparsed id segment of the path.
    PostPage { strategy: SsrStrategy, raw_id: String },
    /// No route matched; the fallback body is served.
    NotFound,
}

impl View for Route {
    type V = RouteV;

    open spec fn view(&self) -> RouteV {
        match self {
            Route::Home => RouteV::Home,
            Route::PostPage { strategy, raw_id } => RouteV::PostPage {
                strategy: *strategy,
                raw_id: raw_id@,
            },
            Route::NotFound => RouteV::NotFound,
        }
    }
}

/// `p` matches a one-parameter route under `prefix`: the prefix is
/// there and the rest is a single segment (no further slash).
pub open spec fn is_param_route(p: Seq<char>, prefix: Seq<char>) -> bool {
    &&& prefix.is_prefix_of(p)
    &&& !p.skip(prefix.len() as int).contains('/')
}

/// Which route a path names: "/" is the home page, "/post/{id}" the
/// post page rendered asynchronously, "/post_in_order/{id}" the post
/// page streamed in order, and anything else the fallback.
pub open spec fn spec_match(p: Seq<char>) -> RouteV {
    if p == "/"@ {
        RouteV::Home
    } else if is_param_route(p, "/post/"@) {
        RouteV::PostPage { strategy: SsrStrategy::Async, raw_id: p.skip("/post/"@.len() as int) }
    } else if is_param_route(p, "/post_in_order/"@) {
        RouteV::PostPage {
            strategy: SsrStrategy::InOrder,
            raw_id: p.skip("/post_in_order/"@.len() as int),
        }
    } else {
        RouteV::NotFound
    }
}

/// No path carries both post-route prefixes: their sixth characters
/// differ.
proof fn lemma_prefixes_exclusive(p: Seq<char>)
    requires
        "/post/"@.is_prefix_of(p),
    ensures
        !"/post_in_order/"@.is_prefix_of(p),
{
    reveal_strlit("/post/");
    reveal_strlit("/post_in_order/");
    if "/post_in_order/"@.is_prefix_of(p) {
        assert(p.subrange(0, 6)[5] == p[5]);
        assert(p.subrange(0, 15)[5] == p[5]);
        assert(p[5] == '/');
        assert(p[5] == '_');
    }
}

/// Character-wise string equality.
fn str_eq(a: &str, b: &str) -> (r: bool)
    ensures
        r == (a@ == b@),
{
    let n = a.unicode_len();
    if n != b.unicode_len() {
        return false;
    }
    let mut i: usize = 0;
    while i < n
        invariant
            n == a@.len(),
            n == b@.len(),
            0 <= i <= n,
            forall|k: int| 0 <= k < i ==> a@[k] == b@[k],
        decreases n - i,
    {
        if a.get_char(i) != b.get_char(i) {
            return false;
        }
        i = i + 1;
    }
    proof {
        assert(a@ =~= b@);
    }
    true
}

/// Whether `p` is a prefix of `s`, character by character.
fn has_prefix(s: &str, p: &str) -> (r: bool)
    ensures
        r == p@.is_prefix_of(s@),
{
    let sl = s.unicode_len();
    let pl = p.unicode_len();
    if pl > sl {
        return false;
    }
    let mut i: usize = 0;
    while i < pl
        invariant
            sl == s@.len(),
            pl == p@.len(),
            pl <= sl,
            0 <= i <= pl,
            forall|k: int| 0 <= k < i ==> p@[k] == s@[k],
        decreases pl - i,
    {
        if p.get_char(i) != s.get_char(i) {
            proof {
                assert(s@.subrange(0, pl as int)[i as int] == s@[i as int]);
            }
            return false;
        }
        i = i + 1;
    }
    proof {
        assert(p@ =~= s@.subrange(0, pl as int));
    }
    true
}

/// Whether the string holds a slash anywhere.
fn contains_slash(s: &str) -> (r: bool)
    ensures
        r == s@.contains('/'),
{
    let n = s.unicode_len();
    let mut i: usize = 0;
    while i < n
        invariant
            n == s@.len(),
            0 <= i <= n,
            forall|k: int| 0 <= k < i ==> s@[k] != '/',
        decreases n - i,
    {
        if s.get_char(i) == '/' {
            return true;
        }
        i = i + 1;
    }
    false
}

/// Match a URL path against the route table.
pub fn match_path(path: &str) -> (r: Route)
    ensures
        r@ == spec_match(path@),
{
    proof {
        reveal_strlit("/");
        reveal_strlit("/post/");
        reveal_strlit("/post_in_order/");
    }
    if str_eq(path, "/") {
        return Route::Home;
    }
    if has_prefix(path, "/post/") {
        let rest = path.substring_char(6, path.unicode_len());
        proof {
            assert(rest@ =~= path@.skip(6));
        }
        if !contains_slash(rest) {
            let raw = String::from_str(rest);
            return Route::PostPage { strategy: SsrStrategy::Async, raw_id: raw };
        }
        proof {
            lemma_prefixes_exclusive(path@);
        }
        return Route::NotFound;
    }
    if has_prefix(path, "/post_in_order/") {
        let rest = path.substring_char(15, path.unicode_len());
        proof {
            assert(rest@ =~= path@.skip(15));
        }
        if !contains_slash(rest) {
            let raw = String::from_str(rest);
            return Route::PostPage { strategy: SsrStrategy::InOrder, raw_id: raw };
        }
        return Route::NotFound;
    }
    Route::NotFound
}

/// The body served for any path no route matches.
pub fn fallback_body() -> (r: String)
    ensures
        r@ == "Page not found."@,
{
    String::from_str("Page not found.")
}

} // verus!
