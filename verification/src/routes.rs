//! The route decision: which handler a request path is sent to, and the
//! lookup key that handler receives.

use vstd::prelude::*;
use vstd::string::*;

verus! {

/// Where a request path is sent. A route to a directory carries the key the
/// file lookup uses: the path relative to that directory.
pub enum Route {
    /// The root path: render the site page.
    Index,
    /// A path under the assets prefix: look the key up in the assets
    /// directory.
    Asset(String),
    /// Any other path: look the key up in the fallback directory.
    Fallback(String),
}

/// The route decision over the path's characters.
pub enum SpecRoute {
    Index,
    Asset(Seq<char>),
    Fallback(Seq<char>),
}

impl View for Route {
    type V = SpecRoute;

    open spec fn view(&self) -> SpecRoute {
        match self {
            Route::Index => SpecRoute::Index,
            Route::Asset(rest) => SpecRoute::Asset(rest@),
            Route::Fallback(rest) => SpecRoute::Fallback(rest@),
        }
    }
}

/// The path served by the renderer.
pub open spec fn root_path() -> Seq<char> {
    "/"@
}

/// The prefix under which the assets directory is served.
pub open spec fn assets_prefix() -> Seq<char> {
    "/assets/"@
}

/// The lookup key of a path under its directory: the path with its leading
/// slash removed, if it has one.
pub open spec fn dir_key(path: Seq<char>) -> Seq<char> {
    if path.len() >= 1 && path[0] == '/' {
        path.skip(1)
    } else {
        path
    }
}

/// The route of a request path: the root path renders the page; a path under
/// the assets prefix is looked up in the assets directory under the
/// remainder of the path; every other path is looked up in the fallback
/// directory.
pub open spec fn route_of(path: Seq<char>) -> SpecRoute {
    if path == root_path() {
        SpecRoute::Index
    } else if assets_prefix().is_prefix_of(path) {
        SpecRoute::Asset(path.skip(assets_prefix().len() as int))
    } else {
        SpecRoute::Fallback(dir_key(path))
    }
}

/// Whether `prefix` is a prefix of `s`, character by character.
pub fn has_prefix(s: &str, prefix: &str) -> (r: bool)
    ensures
        r == prefix@.is_prefix_of(s@),
{
    let n = s.unicode_len();
    let p = prefix.unicode_len();
    if n < p {
        return false;
    }
    let mut i: usize = 0;
    while i < p
        invariant
            n == s@.len(),
            p == prefix@.len(),
            p <= n,
            0 <= i <= p,
            forall|j: int| 0 <= j < i ==> s@[j] == prefix@[j],
        decreases p - i,
    {
        if s.get_char(i) != prefix.get_char(i) {
            proof {
                assert(s@.subrange(0, p as int)[i as int] != prefix@[i as int]);
            }
            return false;
        }
        i += 1;
    }
    proof {
        assert(prefix@ =~= s@.subrange(0, p as int));
    }
    true
}

/// Decides the route of a request path, exactly as `route_of` states it.
pub fn route_for(path: &str) -> (r: Route)
    ensures
        r@ == route_of(path@),
{
    proof {
        reveal_strlit("/");
        reveal_strlit("/assets/");
    }
    let n = path.unicode_len();
    if n == 1 && path.get_char(0) == '/' {
        proof {
            assert(path@ =~= root_path());
        }
        Route::Index
    } else {
        proof {
            assert(path@ != root_path());
        }
        if has_prefix(path, "/assets/") {
            let rest = path.substring_char(8, n);
            proof {
                assert(rest@ =~= path@.skip(assets_prefix().len() as int));
            }
            Route::Asset(rest.to_owned())
        } else if n >= 1 && path.get_char(0) == '/' {
            let rest = path.substring_char(1, n);
            proof {
                assert(rest@ =~= dir_key(path@));
            }
            Route::Fallback(rest.to_owned())
        } else {
            proof {
                assert(path@ =~= dir_key(path@));
            }
            Route::Fallback(path.to_owned())
        }
    }
}

} // verus!
