//! A small URL-shortening core: identifier generation, target-URL
//! validation, an in-memory reference store with the primary-key
//! uniqueness invariant, and the request-handling logic that maps
//! store outcomes to HTTP status codes.

use vstd::prelude::*;

mod http;
mod idgen;
mod laws;
mod model;
mod service;
mod store;
mod urlcheck;

pub use http::ApiError;
pub use http::RedirectResponse;
pub use http::StoreOutcome;
pub use http::build_redirect;
pub use http::internal_error;
pub use http::respond_redirect;
pub use http::respond_with_link;
pub use http::validate_target;
pub use idgen::base64url_of;
pub use idgen::decimal_bytes;
pub use idgen::decimal_of;
pub use idgen::generate_id;
pub use idgen::is_base64url_char;
pub use idgen::is_generated_id;
pub use laws::lemma_create_collision;
pub use laws::lemma_create_then_redirect;
pub use laws::lemma_redirect_ignores_statistics;
pub use model::Link;
pub use model::LinkTarget;
pub use model::CountedLinkStatistic;
pub use service::LinkStatistic;
pub use service::ShortenerService;
pub use service::create_post;
pub use service::create_with_id_post;
pub use service::redirect_post;
pub use service::update_post;
pub use store::LinkStore;
pub use store::as_map;
pub use store::unique_ids;
pub use urlcheck::url_normalize;

verus! {

/// The health endpoint's status: always `200 OK`, with a fixed body,
/// independent of storage availability.
pub fn health() -> (r: (u16, String))
    ensures
        r.0 == 200,
        r.1@ == "Service is healthy"@,
{
    (200, "Service is healthy".to_string())
}

} // verus!
