//! Decisions shared by the handlers: under which path a paste is served, where a
//! request for it is redirected, and the attributes of the cookies the server sets.
use vstd::prelude::*;
use crate::errors::Error;
use crate::text::{has_prefix, starts_with};

pub mod delete;
pub mod html;

verus! {

/// The `SameSite` attribute of a cookie.
#[derive(Debug, Clone, Copy, PartialEq, Eq, Structural)]
pub enum SameSite {
    /// `SameSite=Strict`
    Strict,
    /// `SameSite=Lax`
    Lax,
    /// `SameSite=None`
    Unrestricted,
}

/// A cookie as the server sends it: name, value and attributes.
pub struct Cookie {
    pub name: String,
    pub value: String,
    pub http_only: bool,
    pub same_site: SameSite,
    pub path: String,
}

/// Build a cookie with secure defaults: `HttpOnly`, `SameSite=Strict`, `Path=/`.
pub fn cookie(name: &str, value: String) -> (c: Cookie)
    ensures
        c.name@ == name@,
        c.value@ == value@,
        c.http_only,
        c.same_site == SameSite::Strict,
        c.path@ == seq!['/'],
{
    let path = "/".to_owned();
    proof {
        reveal_strlit("/");
    }
    Cookie { name: name.to_owned(), value, http_only: true, same_site: SameSite::Strict, path }
}

/// Path prefix of private pastes.
pub open spec fn private_prefix() -> Seq<char> {
    seq!['/', 's', '/']
}

/// Path prefix of public pastes.
pub open spec fn public_prefix() -> Seq<char> {
    seq!['/', 'p', '/']
}

/// Where pastes of the given visibility live: `/s` for private ones, `/p` for public ones.
pub open spec fn visibility_root(is_private: bool) -> Seq<char> {
    if is_private {
        seq!['/', 's']
    } else {
        seq!['/', 'p']
    }
}

/// The route `/burn/`.
pub open spec fn burn_route() -> Seq<char> {
    seq!['/', 'b', 'u', 'r', 'n', '/']
}

/// The route `/md/`.
pub open spec fn md_route() -> Seq<char> {
    seq!['/', 'm', 'd', '/']
}

/// The route `/qr/`.
pub open spec fn qr_route() -> Seq<char> {
    seq!['/', 'q', 'r', '/']
}

/// The route `/dl/`.
pub open spec fn dl_route() -> Seq<char> {
    seq!['/', 'd', 'l', '/']
}

/// The route `/raw/`.
pub open spec fn raw_route() -> Seq<char> {
    seq!['/', 'r', 'a', 'w', '/']
}

/// The route `/delete/`.
pub open spec fn delete_route() -> Seq<char> {
    seq!['/', 'd', 'e', 'l', 'e', 't', 'e', '/']
}

/// The route of a path without visibility prefix, kept in the redirect:
/// `/burn/`, `/md/`, `/qr/`, `/dl/`, `/raw/` or `/delete/` when the path starts
/// with it (the first that matches, in that order), else `/`.
pub open spec fn redirect_route(path: Seq<char>) -> Seq<char> {
    if has_prefix(path, burn_route()) {
        burn_route()
    } else if has_prefix(path, md_route()) {
        md_route()
    } else if has_prefix(path, qr_route()) {
        qr_route()
    } else if has_prefix(path, dl_route()) {
        dl_route()
    } else if has_prefix(path, raw_route()) {
        raw_route()
    } else if has_prefix(path, delete_route()) {
        delete_route()
    } else {
        seq!['/']
    }
}

/// The address a paste requested at `path` is redirected to.
pub open spec fn redirect_target(is_private: bool, path: Seq<char>, id: Seq<char>) -> Seq<char> {
    visibility_root(is_private) + redirect_route(path) + id
}

/// The outcome of the visibility check: a paste requested under `/s/` must be
/// private and one under `/p/` public (else it is not found); a request under any
/// other path is redirected to the path under the paste's visibility prefix.
pub open spec fn visibility_outcome(is_private: bool, path: Seq<char>, id: Seq<char>) -> Result<
    Option<Seq<char>>,
    Error,
> {
    if has_prefix(path, private_prefix()) {
        if is_private {
            Ok(None)
        } else {
            Err(Error::NotFound)
        }
    } else if has_prefix(path, public_prefix()) {
        if is_private {
            Err(Error::NotFound)
        } else {
            Ok(None)
        }
    } else {
        Ok(Some(redirect_target(is_private, path, id)))
    }
}

/// The view of a visibility check's result: the redirect target by its characters.
pub open spec fn visibility_view(r: Result<Option<String>, Error>) -> Result<Option<Seq<char>>, Error> {
    match r {
        Ok(Some(target)) => Ok(Some(target@)),
        Ok(None) => Ok(None),
        Err(e) => Err(e),
    }
}

/// Check that a paste of the given visibility may be served at `path`; where the
/// path carries no visibility prefix, return the path to redirect to (temporarily).
pub fn check_visibility(is_private: bool, path: &str, id: &str) -> (r: Result<Option<String>, Error>)
    ensures
        visibility_view(r) == visibility_outcome(is_private, path@, id@),
{
    proof {
        reveal_strlit("/s/");
        reveal_strlit("/p/");
        reveal_strlit("/s");
        reveal_strlit("/p");
        reveal_strlit("/burn/");
        reveal_strlit("/md/");
        reveal_strlit("/qr/");
        reveal_strlit("/dl/");
        reveal_strlit("/raw/");
        reveal_strlit("/delete/");
        reveal_strlit("/");
        assert("/s/"@ =~= private_prefix());
        assert("/p/"@ =~= public_prefix());
        assert("/s"@ =~= visibility_root(true));
        assert("/p"@ =~= visibility_root(false));
        assert("/burn/"@ =~= burn_route());
        assert("/md/"@ =~= md_route());
        assert("/qr/"@ =~= qr_route());
        assert("/dl/"@ =~= dl_route());
        assert("/raw/"@ =~= raw_route());
        assert("/delete/"@ =~= delete_route());
        assert("/"@ =~= seq!['/']);
    }
    if starts_with(path, "/s/") {
        if !is_private {
            return Err(Error::NotFound);
        }
    } else if starts_with(path, "/p/") {
        if is_private {
            return Err(Error::NotFound);
        }
    } else {
        let mut target = if is_private {
            "/s".to_owned()
        } else {
            "/p".to_owned()
        };
        let route = if starts_with(path, "/burn/") {
            "/burn/"
        } else if starts_with(path, "/md/") {
            "/md/"
        } else if starts_with(path, "/qr/") {
            "/qr/"
        } else if starts_with(path, "/dl/") {
            "/dl/"
        } else if starts_with(path, "/raw/") {
            "/raw/"
        } else if starts_with(path, "/delete/") {
            "/delete/"
        } else {
            "/"
        };
        assert(route@ == redirect_route(path@));
        target.append(route);
        target.append(id);
        return Ok(Some(target));
    }
    Ok(None)
}

/// The redirect target starts with the visibility prefix of the paste:
/// `/s/` for a private paste, `/p/` for a public one.
pub proof fn lemma_redirect_target_prefix(is_private: bool, path: Seq<char>, id: Seq<char>)
    ensures
        has_prefix(
            redirect_target(is_private, path, id),
            if is_private {
                private_prefix()
            } else {
                public_prefix()
            },
        ),
        !has_prefix(
            redirect_target(is_private, path, id),
            if is_private {
                public_prefix()
            } else {
                private_prefix()
            },
        ),
{
    let t = redirect_target(is_private, path, id);
    let route = redirect_route(path);
    assert(route[0] == '/');
    assert(t[0] == '/');
    assert(t[1] == if is_private { 's' } else { 'p' });
    assert(t[2] == '/');
    let own = if is_private { private_prefix() } else { public_prefix() };
    assert(t.subrange(0, 3) =~= own);
    let other = if is_private { public_prefix() } else { private_prefix() };
    assert(t.subrange(0, 3)[1] != other[1]);
}

/// Following a redirect of the visibility check ends there: any path that begins
/// with the first three characters of the redirect target (`/s/` or `/p/`), such
/// as the target itself or the path of the target cut at a `?` or `#` in the id,
/// serves the same paste without a further redirect, whatever id it names.
pub proof fn lemma_redirect_is_final(
    is_private: bool,
    path: Seq<char>,
    id: Seq<char>,
    followed: Seq<char>,
    followed_id: Seq<char>,
)
    requires
        has_prefix(followed, redirect_target(is_private, path, id).take(3)),
    ensures
        visibility_outcome(is_private, followed, followed_id) == Ok::<Option<Seq<char>>, Error>(
            None,
        ),
{
    lemma_redirect_target_prefix(is_private, path, id);
    let t = redirect_target(is_private, path, id);
    let own = if is_private { private_prefix() } else { public_prefix() };
    let other = if is_private { public_prefix() } else { private_prefix() };
    assert(t.take(3) =~= own);
    assert(followed.subrange(0, 3) =~= own);
    assert(followed.subrange(0, 3)[1] != other[1]);
}

/// Every cut of a redirect target that keeps at least its first three characters
/// (a path cut at a `?` or `#` in the id keeps them, since the id follows them)
/// begins with those three characters.
pub proof fn lemma_redirect_target_cut(is_private: bool, path: Seq<char>, id: Seq<char>, k: int)
    requires
        3 <= k <= redirect_target(is_private, path, id).len(),
    ensures
        has_prefix(
            redirect_target(is_private, path, id).take(k),
            redirect_target(is_private, path, id).take(3),
        ),
{
    let t = redirect_target(is_private, path, id);
    assert(t.take(k).subrange(0, 3) =~= t.take(3));
}

/// A paste is served under at most one of the two prefixes: under `/s/` only when
/// private, under `/p/` only when public.
pub proof fn lemma_served_only_under_own_prefix(is_private: bool, path: Seq<char>, id: Seq<char>)
    requires
        visibility_outcome(is_private, path, id) == Ok::<Option<Seq<char>>, Error>(None),
    ensures
        is_private ==> has_prefix(path, private_prefix()),
        !is_private ==> has_prefix(path, public_prefix()),
{
    if !is_private && has_prefix(path, private_prefix()) {
        assert(false);
    }
}

/// A request under no visibility prefix is redirected to a path made of the
/// paste's prefix (`/s` private, `/p` public), then the route of the request
/// (`/burn/`, `/md/`, `/qr/`, `/dl/`, `/raw/` or `/delete/` where the path begins
/// with it, else `/`), then the whole requested id, unchanged (an extension such
/// as `.rs` included).
pub proof fn lemma_redirect_keeps_route_and_id(is_private: bool, path: Seq<char>, id: Seq<char>)
    requires
        !has_prefix(path, seq!['/', 's', '/']),
        !has_prefix(path, seq!['/', 'p', '/']),
    ensures
        visibility_outcome(is_private, path, id) matches Ok(Some(t)) && {
            let n = t.len() - id.len();
            let route = t.subrange(2, n);
            &&& 3 <= n <= t.len()
            &&& t.skip(n) == id
            &&& t.take(2) == (if is_private {
                seq!['/', 's']
            } else {
                seq!['/', 'p']
            })
            &&& has_prefix(path, seq!['/', 'b', 'u', 'r', 'n', '/']) ==> route == seq![
                '/',
                'b',
                'u',
                'r',
                'n',
                '/',
            ]
            &&& has_prefix(path, seq!['/', 'm', 'd', '/']) ==> route == seq!['/', 'm', 'd', '/']
            &&& has_prefix(path, seq!['/', 'q', 'r', '/']) ==> route == seq!['/', 'q', 'r', '/']
            &&& has_prefix(path, seq!['/', 'd', 'l', '/']) ==> route == seq!['/', 'd', 'l', '/']
            &&& has_prefix(path, seq!['/', 'r', 'a', 'w', '/']) ==> route == seq![
                '/',
                'r',
                'a',
                'w',
                '/',
            ]
            &&& has_prefix(path, seq!['/', 'd', 'e', 'l', 'e', 't', 'e', '/']) ==> route == seq![
                '/',
                'd',
                'e',
                'l',
                'e',
                't',
                'e',
                '/',
            ]
            &&& (route == seq!['/'] || has_prefix(path, route))
        },
{
    let t = redirect_target(is_private, path, id);
    let root = visibility_root(is_private);
    let route = redirect_route(path);
    let n = t.len() - id.len();
    assert(n == root.len() + route.len());
    assert(t.skip(n) =~= id);
    assert(t.take(2) =~= root);
    assert(t.subrange(2, n) =~= route);
    // The routes begin with different segments, so at most one of them prefixes the path.
    if has_prefix(path, md_route()) {
        assert(path[1] == 'm');
    }
    if has_prefix(path, qr_route()) {
        assert(path[1] == 'q');
    }
    if has_prefix(path, dl_route()) {
        assert(path[1] == 'd' && path[2] == 'l');
    }
    if has_prefix(path, raw_route()) {
        assert(path[1] == 'r');
    }
    if has_prefix(path, delete_route()) {
        assert(path[1] == 'd' && path[2] == 'e');
    }
    if has_prefix(path, burn_route()) {
        assert(path[1] == 'b');
    }
}

/// A request under `/s/` is served exactly when the paste is private, one under
/// `/p/` exactly when it is public; the other is answered "not found", never
/// redirected.
pub proof fn lemma_prefixed_paths(is_private: bool, path: Seq<char>, id: Seq<char>)
    ensures
        has_prefix(path, seq!['/', 's', '/']) ==> visibility_outcome(is_private, path, id) == if is_private {
            Ok::<Option<Seq<char>>, Error>(None)
        } else {
            Err::<Option<Seq<char>>, Error>(Error::NotFound)
        },
        has_prefix(path, seq!['/', 'p', '/']) ==> visibility_outcome(is_private, path, id) == if is_private {
            Err::<Option<Seq<char>>, Error>(Error::NotFound)
        } else {
            Ok::<Option<Seq<char>>, Error>(None)
        },
{
    if has_prefix(path, seq!['/', 'p', '/']) {
        assert(path[1] == 'p');
    }
}

} // verus!
