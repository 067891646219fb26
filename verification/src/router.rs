//! First-registered-wins prefix routing over a fixed table of routes.

use crate::backend::BackendAddr;
use vstd::prelude::*;
use vstd::string::*;

verus! {

/// `prefix` is an initial run of `path`.
pub open spec fn is_prefix_of(prefix: Seq<char>, path: Seq<char>) -> bool {
    prefix.len() <= path.len() && path.subrange(0, prefix.len() as int) == prefix
}

/// Character-by-character prefix test on string slices.
pub fn starts_with(path: &str, prefix: &str) -> (r: bool)
    ensures
        r == is_prefix_of(prefix@, path@),
{
    let path_len = path.unicode_len();
    let prefix_len = prefix.unicode_len();
    if prefix_len > path_len {
        assert(!is_prefix_of(prefix@, path@));
        return false;
    }
    let mut i: usize = 0;
    while i < prefix_len
        invariant
            0 <= i <= prefix_len,
            prefix_len == prefix@.len(),
            prefix_len <= path_len == path@.len(),
            forall|k: int| 0 <= k < i ==> path@[k] == prefix@[k],
        decreases prefix_len - i,
    {
        if path.get_char(i) != prefix.get_char(i) {
            assert(path@.subrange(0, prefix@.len() as int)[i as int] != prefix@[i as int]);
            return false;
        }
        i = i + 1;
    }
    assert(path@.subrange(0, prefix@.len() as int) =~= prefix@);
    true
}

/// One registered binding: a path prefix and the backend it forwards to.
#[derive(Debug, Clone, PartialEq, Eq)]
pub struct Route {
    pub prefix: String,
    pub backend: BackendAddr,
}

/// The route at position `i` matches `path`.
pub open spec fn matches_at(routes: Seq<Route>, path: Seq<char>, i: int) -> bool {
    0 <= i < routes.len() && is_prefix_of(routes[i].prefix@, path)
}

/// The position of the first registered route whose prefix matches `path`,
/// or `None` when no registered prefix does.
pub open spec fn first_match(routes: Seq<Route>, path: Seq<char>) -> Option<int>
    decreases routes.len(),
{
    if routes.len() == 0 {
        None
    } else if is_prefix_of(routes[0].prefix@, path) {
        Some(0int)
    } else {
        match first_match(routes.drop_first(), path) {
            None => None,
            Some(i) => Some(i + 1),
        }
    }
}

/// What `first_match` picks: the earliest matching route when one exists,
/// and `None` exactly when no registered prefix matches.
pub proof fn lemma_first_match_spec(routes: Seq<Route>, path: Seq<char>)
    ensures
        match first_match(routes, path) {
            Some(i) => matches_at(routes, path, i) && (forall|j: int|
                0 <= j < i ==> !is_prefix_of(#[trigger] routes[j].prefix@, path)),
            None => forall|j: int|
                0 <= j < routes.len() ==> !is_prefix_of(#[trigger] routes[j].prefix@, path),
        },
    decreases routes.len(),
{
    if routes.len() == 0 {
    } else if is_prefix_of(routes[0].prefix@, path) {
    } else {
        let sub = routes.drop_first();
        lemma_first_match_spec(sub, path);
        match first_match(sub, path) {
            None => {
                assert forall|j: int|
                    0 <= j < routes.len() implies !is_prefix_of(
                    routes[j].prefix@,
                    path,
                ) by {
                    if j > 0 {
                        assert(sub[j - 1] == routes[j]);
                        assert(!is_prefix_of(sub[j - 1].prefix@, path));
                    }
                }
            },
            Some(i) => {
                assert(sub[i] == routes[i + 1]);
                assert(matches_at(routes, path, i + 1));
                assert forall|j: int|
                    0 <= j < i + 1 implies !is_prefix_of(routes[j].prefix@, path) by {
                    if j > 0 {
                        assert(sub[j - 1] == routes[j]);
                        assert(!is_prefix_of(sub[j - 1].prefix@, path));
                    }
                }
            },
        }
    }
}

/// First-registered-wins: a route that matches, with no earlier match, is
/// the one the router picks; no route registered after it is consulted.
pub proof fn lemma_first_match_at(routes: Seq<Route>, path: Seq<char>, i: int)
    requires
        matches_at(routes, path, i),
        forall|j: int| 0 <= j < i ==> !is_prefix_of(#[trigger] routes[j].prefix@, path),
    ensures
        first_match(routes, path) == Some(i),
{
    lemma_first_match_spec(routes, path);
    match first_match(routes, path) {
        None => {
            assert(is_prefix_of(routes[i].prefix@, path));
            assert(false);
        },
        Some(k) => {
            if k < i {
                assert(!is_prefix_of(routes[k].prefix@, path));
                assert(false);
            } else if k > i {
                assert(!is_prefix_of(routes[i].prefix@, path));
                assert(false);
            }
        },
    }
}

/// A path that no registered prefix matches is unmatched: the router
/// reports it as such and never guesses a backend.
pub proof fn lemma_unmatched(routes: Seq<Route>, path: Seq<char>)
    requires
        forall|j: int| 0 <= j < routes.len() ==> !is_prefix_of(#[trigger] routes[j].prefix@, path),
    ensures
        first_match(routes, path) is None,
{
    lemma_first_match_spec(routes, path);
    match first_match(routes, path) {
        None => {},
        Some(i) => {
            assert(!is_prefix_of(routes[i].prefix@, path));
            assert(false);
        },
    }
}

/// The fixed routing table: an ordered sequence of routes, built once before
/// any request is served and only read afterwards.
#[derive(Debug, Clone, PartialEq, Eq)]
pub struct RoutingTable {
    pub routes: Vec<Route>,
}

impl RoutingTable {
    /// Looks up the backend for `path`: the backend of the first registered
    /// route whose prefix is an initial run of `path`, or `None` when no
    /// registered prefix matches. A pure lookup with no side effect.
    pub fn route(&self, path: &str) -> (r: Option<&BackendAddr>)
        requires
            path@.len() > 0,
        ensures
            match r {
                Some(b) => first_match(self.routes@, path@) matches Some(i) && *b
                    == self.routes@[i].backend,
                None => first_match(self.routes@, path@) is None,
            },
    {
        let n = self.routes.len();
        let mut k: usize = 0;
        while k < n
            invariant
                0 <= k <= n,
                n == self.routes@.len(),
                forall|j: int|
                    0 <= j < k ==> !is_prefix_of(#[trigger] self.routes@[j].prefix@, path@),
            decreases n - k,
        {
            let rt = &self.routes[k];
            if starts_with(path, rt.prefix.as_str()) {
                proof {
                    lemma_first_match_at(self.routes@, path@, k as int);
                }
                return Some(&self.routes[k].backend);
            }
            k = k + 1;
        }
        proof {
            lemma_unmatched(self.routes@, path@);
        }
        None
    }
}

} // verus!
