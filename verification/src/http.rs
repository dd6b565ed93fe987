//! The HTTP vocabulary of the service: error responses, the redirect
//! response, the outcome of a timeout-bounded storage call, and the
//! mapping from each outcome to the HTTP status code it is owed.

use vstd::prelude::*;
use crate::model::Link;
use crate::model::LinkTarget;
use crate::urlcheck::normalize_url;
use crate::urlcheck::url_normalize;

verus! {

/// An error response: HTTP status code and body text.
#[derive(Debug)]
pub struct ApiError {
    pub status: u16,
    pub body: String,
}

/// A temporary redirect: status `307` and the `Location` header value.
#[derive(Debug)]
pub struct RedirectResponse {
    pub status: u16,
    pub location: String,
}

/// How a timeout-bounded storage call ended: with its value, past the
/// fixed deadline, or with a storage error. The fault variants carry the
/// underlying error's textual description.
#[derive(Debug)]
pub enum StoreOutcome<T> {
    Done(T),
    DeadlineExceeded(String),
    StoreError(String),
}

/// Maps a storage fault to the `500 Internal Server Error` response that
/// exposes the error's description in the body.
pub fn internal_error(message: String) -> (r: ApiError)
    ensures
        r.status == 500,
        r.body@ == message@,
{
    ApiError { status: 500, body: message }
}

/// Validates a request body's target URL, as the create and update
/// handlers both do: a well-formed absolute URL is replaced by its
/// normalized serialization; anything else is refused with
/// `409 Conflict` and the body `malformed url`.
pub fn validate_target(new_link: &LinkTarget) -> (r: Result<String, ApiError>)
    ensures
        r matches Ok(u) ==> url_normalize(new_link.target_url@) == Some(u@),
        r matches Err(e) ==> url_normalize(new_link.target_url@) is None && e.status == 409
            && e.body@ == "malformed url"@,
{
    match normalize_url(new_link.target_url.as_str()) {
        Some(u) => Ok(u),
        None => Err(ApiError { status: 409, body: "malformed url".to_string() }),
    }
}

/// Maps the outcome of a row-returning storage call (create's insert,
/// update's single-row update) to the handler's response: the row on
/// success, `500` with the error's description on a deadline overrun or
/// a storage error.
pub fn respond_with_link(outcome: StoreOutcome<Link>) -> (r: Result<Link, ApiError>)
    ensures
        outcome matches StoreOutcome::Done(l) ==> r matches Ok(rl) && rl == l,
        outcome matches StoreOutcome::DeadlineExceeded(m) ==> r matches Err(e) && e.status == 500
            && e.body@ == m@,
        outcome matches StoreOutcome::StoreError(m) ==> r matches Err(e) && e.status == 500
            && e.body@ == m@,
{
    match outcome {
        StoreOutcome::Done(l) => Ok(l),
        StoreOutcome::DeadlineExceeded(m) => Err(internal_error(m)),
        StoreOutcome::StoreError(m) => Err(internal_error(m)),
    }
}

/// Maps the outcome of the redirect handler's lookup to its response: a
/// found row becomes `307 Temporary Redirect` whose `Location` is the
/// stored target, an absent row `404 Not Found` with body
/// `Link not found`, and a fault `500` with the error's description.
pub fn respond_redirect(outcome: StoreOutcome<Option<Link>>) -> (r: Result<
    RedirectResponse,
    ApiError,
>)
    ensures
        outcome matches StoreOutcome::Done(found) ==> match found {
            Some(l) => r matches Ok(resp) && resp.status == 307 && resp.location@
                == l.target_url@,
            None => r matches Err(e) && e.status == 404 && e.body@ == "Link not found"@,
        },
        outcome matches StoreOutcome::DeadlineExceeded(m) ==> r matches Err(e) && e.status == 500
            && e.body@ == m@,
        outcome matches StoreOutcome::StoreError(m) ==> r matches Err(e) && e.status == 500
            && e.body@ == m@,
{
    match outcome {
        StoreOutcome::Done(Some(l)) => Ok(build_redirect(&l)),
        StoreOutcome::Done(None) => Err(
            ApiError { status: 404, body: "Link not found".to_string() },
        ),
        StoreOutcome::DeadlineExceeded(m) => Err(internal_error(m)),
        StoreOutcome::StoreError(m) => Err(internal_error(m)),
    }
}

/// The redirect response for a found link: `307` with `Location` set to
/// the stored target URL and nothing else. It is a function of the
/// stored row alone; in particular the best-effort statistics write has
/// no way into it.
pub fn build_redirect(link: &Link) -> (r: RedirectResponse)
    ensures
        r.status == 307,
        r.location@ == link.target_url@,
{
    RedirectResponse { status: 307, location: link.target_url.clone() }
}

} // verus!
