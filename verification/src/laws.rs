//! Properties that relate several handlers, proved over the same
//! predicates the handlers' own contracts use.

use vstd::prelude::*;
use crate::http::ApiError;
use crate::http::RedirectResponse;
use crate::model::Link;
use crate::service::create_post;
use crate::service::create_with_id_post;
use crate::service::redirect_post;
use crate::urlcheck::url_normalize;

verus! {

/// A successful create followed by a redirect of the identifier it
/// returned: the redirect is a `307` whose `Location` is exactly the
/// normalized form of the URL the create stored.
pub proof fn lemma_create_then_redirect(
    pre: Map<Seq<char>, Seq<char>>,
    post: Map<Seq<char>, Seq<char>>,
    u: Seq<char>,
    l: Link,
    r1: Result<Link, ApiError>,
    r2: Result<RedirectResponse, ApiError>,
)
    requires
        create_post(pre, post, u, r1),
        r1 == Ok::<Link, ApiError>(l),
        redirect_post(post, l.id@, r2),
    ensures
        r2 matches Ok(resp) && resp.status == 307 && Some(resp.location@) == url_normalize(u),
{
    assert(post.contains_key(l.id@));
}

/// Two creates that draw the same identifier: the first stores its row;
/// the second, though its target URL is well formed, hits the
/// primary-key constraint, answers `500`, and leaves the table as it
/// was — a duplicate identifier is never stored.
pub proof fn lemma_create_collision(
    pre: Map<Seq<char>, Seq<char>>,
    mid: Map<Seq<char>, Seq<char>>,
    post: Map<Seq<char>, Seq<char>>,
    id: Seq<char>,
    t1: Seq<char>,
    t2: Seq<char>,
    r1: Result<Link, ApiError>,
    r2: Result<Link, ApiError>,
)
    requires
        create_with_id_post(pre, mid, id, t1, r1),
        r1 is Ok,
        url_normalize(t2) is Some,
        create_with_id_post(mid, post, id, t2, r2),
    ensures
        r2 matches Err(e) && e.status == 500,
        post == mid,
{
    assert(mid.contains_key(id));
}

/// The redirect response is settled by the table and the identifier
/// alone: two redirects of the same identifier over the same table
/// agree in status, `Location` and body, whatever became of each one's
/// best-effort statistics insert.
pub proof fn lemma_redirect_ignores_statistics(
    links: Map<Seq<char>, Seq<char>>,
    id: Seq<char>,
    r1: Result<RedirectResponse, ApiError>,
    r2: Result<RedirectResponse, ApiError>,
)
    requires
        redirect_post(links, id, r1),
        redirect_post(links, id, r2),
    ensures
        r1 is Ok <==> r2 is Ok,
        r1 matches Ok(a) ==> (r2 matches Ok(b) && a.status == b.status && a.location@
            == b.location@),
        r1 matches Err(a) ==> (r2 matches Err(b) && a.status == b.status && a.body@ == b.body@),
{
}

} // verus!
