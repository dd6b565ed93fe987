//! The request handlers over the reference store: create, redirect,
//! update and their exact outcome contracts. Each handler's promise is
//! a named predicate over the table's map, so that the properties that
//! relate several handlers can be stated and proved over the same
//! vocabulary.

use vstd::prelude::*;
use crate::http::ApiError;
use crate::http::RedirectResponse;
use crate::http::build_redirect;
use crate::http::internal_error;
use crate::http::validate_target;
use crate::idgen::generate_id;
use crate::idgen::is_generated_id;
use crate::model::Link;
use crate::model::LinkTarget;
use crate::store::LinkStore;
use crate::urlcheck::url_normalize;

verus! {

/// A recorded click: the link's identifier and the request's `referer`
/// and `user-agent` headers, absent headers recorded as `None`.
#[derive(Debug)]
pub struct LinkStatistic {
    pub link_id: String,
    pub referer: Option<String>,
    pub user_agent: Option<String>,
}

/// Everything the create handler owes once the identifier is drawn:
/// a malformed target is refused with `409` and the body
/// `malformed url`; an identifier already stored violates the primary
/// key and yields `500`; otherwise the normalized URL is stored under
/// the identifier and the new row is returned. The table changes only
/// in the success case, and then only by the one new row.
pub open spec fn create_with_id_post(
    pre: Map<Seq<char>, Seq<char>>,
    post: Map<Seq<char>, Seq<char>>,
    id: Seq<char>,
    target: Seq<char>,
    r: Result<Link, ApiError>,
) -> bool {
    &&& (url_normalize(target) is None ==> (r matches Err(e) && e.status == 409 && e.body@
        == "malformed url"@ && post == pre))
    &&& ((url_normalize(target) is Some && pre.contains_key(id)) ==> (r matches Err(e) && e.status
        == 500 && post == pre))
    &&& ((url_normalize(target) is Some && !pre.contains_key(id)) ==> (r matches Ok(l) && l.id@
        == id && Some(l.target_url@) == url_normalize(target) && post == pre.insert(
        id,
        l.target_url@,
    )))
}

/// Everything the create handler owes: `409` for a malformed target; on
/// success a row whose identifier the generator produced and was not yet
/// stored, holding the normalized URL; and for a well-formed target
/// either that success or `500`, the latter only when a drawn identifier
/// collided with a stored one. A failed create leaves the table as it
/// was.
pub open spec fn create_post(
    pre: Map<Seq<char>, Seq<char>>,
    post: Map<Seq<char>, Seq<char>>,
    target: Seq<char>,
    r: Result<Link, ApiError>,
) -> bool {
    &&& (url_normalize(target) is None ==> (r matches Err(e) && e.status == 409 && e.body@
        == "malformed url"@))
    &&& (r matches Ok(l) ==> (is_generated_id(l.id@) && Some(l.target_url@) == url_normalize(
        target,
    ) && !pre.contains_key(l.id@) && post == pre.insert(l.id@, l.target_url@)))
    &&& (r is Err ==> post == pre)
    &&& (url_normalize(target) is Some ==> (r is Ok || (r matches Err(e) && e.status == 500 && (
    exists|c: Seq<char>| #[trigger] is_generated_id(c) && pre.contains_key(c)))))
}

/// Everything the redirect handler owes: a stored identifier yields
/// `307 Temporary Redirect` whose `Location` is the stored target, an
/// unknown one `404 Not Found` with the body `Link not found`. The
/// response is settled by the table and the identifier alone.
pub open spec fn redirect_post(
    links: Map<Seq<char>, Seq<char>>,
    id: Seq<char>,
    r: Result<RedirectResponse, ApiError>,
) -> bool {
    &&& (links.contains_key(id) ==> (r matches Ok(resp) && resp.status == 307 && resp.location@
        == links[id]))
    &&& (!links.contains_key(id) ==> (r matches Err(e) && e.status == 404 && e.body@
        == "Link not found"@))
}

/// Everything the update handler owes: `409` for a malformed target; an
/// unknown identifier makes the single-row-returning query fail, which
/// surfaces as a generic `500`, not a `404`; a stored identifier gets
/// the normalized URL written and the updated row returned.
pub open spec fn update_post(
    pre: Map<Seq<char>, Seq<char>>,
    post: Map<Seq<char>, Seq<char>>,
    id: Seq<char>,
    target: Seq<char>,
    r: Result<Link, ApiError>,
) -> bool {
    &&& (url_normalize(target) is None ==> (r matches Err(e) && e.status == 409 && e.body@
        == "malformed url"@ && post == pre))
    &&& ((url_normalize(target) is Some && !pre.contains_key(id)) ==> (r matches Err(e) && e.status
        == 500 && post == pre))
    &&& ((url_normalize(target) is Some && pre.contains_key(id)) ==> (r matches Ok(l) && l.id@
        == id && Some(l.target_url@) == url_normalize(target) && post == pre.insert(
        id,
        l.target_url@,
    )))
}

/// The service core: the handlers of the HTTP surface over the
/// reference store, with the click statistics recorded append-only.
pub struct ShortenerService {
    store: LinkStore,
    statistics: Vec<LinkStatistic>,
}

impl ShortenerService {
    /// The stored links, as a map from identifier to target URL.
    pub closed spec fn links(&self) -> Map<Seq<char>, Seq<char>> {
        self.store@
    }

    /// The recorded clicks, oldest first.
    pub closed spec fn stats(&self) -> Seq<LinkStatistic> {
        self.statistics@
    }

    /// The store's primary-key invariant holds.
    pub closed spec fn wf(&self) -> bool {
        self.store.wf()
    }

    /// A service over an empty table.
    pub fn new() -> (s: Self)
        ensures
            s.wf(),
            s.links() == Map::<Seq<char>, Seq<char>>::empty(),
            s.stats() == Seq::<LinkStatistic>::empty(),
    {
        let statistics: Vec<LinkStatistic> = Vec::new();
        proof {
            assert(statistics@ =~= Seq::<LinkStatistic>::empty());
        }
        ShortenerService { store: LinkStore::new(), statistics }
    }

    /// The create handler's decision once the identifier is drawn:
    /// validate the target, insert the one row under the primary-key
    /// constraint, and map a constraint violation to `500`.
    pub fn create_link_with_id(&mut self, id: &String, new_link: &LinkTarget) -> (r: Result<
        Link,
        ApiError,
    >)
        requires
            old(self).wf(),
        ensures
            final(self).wf(),
            final(self).stats() == old(self).stats(),
            create_with_id_post(
                old(self).links(),
                final(self).links(),
                id@,
                new_link.target_url@,
                r,
            ),
    {
        match validate_target(new_link) {
            Err(e) => Err(e),
            Ok(url) => match self.store.insert(id, &url) {
                Ok(l) => Ok(l),
                Err(msg) => Err(internal_error(msg)),
            },
        }
    }

    /// The create handler: validate the target URL, draw
    /// a random identifier, insert the row. A collision of the drawn
    /// identifier surfaces as the storage error, `500`; the generator
    /// itself promises no uniqueness.
    pub fn create_link(&mut self, new_link: &LinkTarget) -> (r: Result<Link, ApiError>)
        requires
            old(self).wf(),
        ensures
            final(self).wf(),
            final(self).stats() == old(self).stats(),
            create_post(old(self).links(), final(self).links(), new_link.target_url@, r),
    {
        let id = generate_id();
        let r = self.create_link_with_id(&id, new_link);
        proof {
            if url_normalize(new_link.target_url@) is Some && r is Err {
                assert(old(self).links().contains_key(id@));
                assert(is_generated_id(id@) && old(self).links().contains_key(id@));
            }
        }
        r
    }

    /// The redirect handler: look the identifier up;
    /// found, respond `307` with `Location` set to the stored target and
    /// append a best-effort statistics row; absent, respond `404`. The
    /// store decides whether the statistics append goes through
    /// (`statistics_ok`); its failure is swallowed and never alters the
    /// redirect response.
    pub fn redirect(
        &mut self,
        requested_link: &String,
        referer: Option<String>,
        user_agent: Option<String>,
        statistics_ok: bool,
    ) -> (r: Result<RedirectResponse, ApiError>)
        requires
            old(self).wf(),
        ensures
            final(self).wf(),
            final(self).links() == old(self).links(),
            redirect_post(old(self).links(), requested_link@, r),
            (old(self).links().contains_key(requested_link@) && statistics_ok) ==> (final(self).stats().len() == old(self).stats().len() + 1 && final(self).stats().last().link_id@
                == requested_link@ && final(self).stats().last().referer == referer && final(self).stats().last().user_agent == user_agent && final(self).stats().drop_last() == old(self).stats()),
            (!old(self).links().contains_key(requested_link@) || !statistics_ok) ==> final(self).stats() == old(self).stats(),
    {
        match self.store.lookup(requested_link) {
            None => Err(ApiError { status: 404, body: "Link not found".to_string() }),
            Some(l) => {
                let resp = build_redirect(&l);
                if statistics_ok {
                    let stat = LinkStatistic { link_id: l.id, referer, user_agent };
                    let ghost pre = self.statistics@;
                    self.statistics.push(stat);
                    proof {
                        assert(self.statistics@.drop_last() =~= pre);
                    }
                }
                Ok(resp)
            },
        }
    }

    /// The update handler: validate the target URL and
    /// update the single row matching the identifier. Where no row
    /// matches, the single-row-returning query fails and the handler
    /// answers `500` — the documented quirk, deliberately not a `404`.
    pub fn update_link(&mut self, link_id: &String, new_link: &LinkTarget) -> (r: Result<
        Link,
        ApiError,
    >)
        requires
            old(self).wf(),
        ensures
            final(self).wf(),
            final(self).stats() == old(self).stats(),
            update_post(old(self).links(), final(self).links(), link_id@, new_link.target_url@, r),
    {
        match validate_target(new_link) {
            Err(e) => Err(e),
            Ok(url) => match self.store.update(link_id, &url) {
                Ok(l) => Ok(l),
                Err(msg) => Err(internal_error(msg)),
            },
        }
    }

    /// How many clicks were recorded.
    pub fn statistics_len(&self) -> (n: usize)
        ensures
            n == self.stats().len(),
    {
        self.statistics.len()
    }

    /// The recorded clicks, oldest first.
    pub fn statistics(&self) -> (r: &Vec<LinkStatistic>)
        ensures
            r@ == self.stats(),
    {
        &self.statistics
    }
}

} // verus!
