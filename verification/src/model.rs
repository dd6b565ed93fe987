//! The data the service stores and exchanges.

use vstd::prelude::*;

verus! {

/// A stored shortening: a unique, URL-safe identifier and the absolute
/// URL it redirects to.
#[derive(Debug)]
pub struct Link {
    pub id: String,
    pub target_url: String,
}

/// A client's request body: the URL a new or updated link should target.
#[derive(Debug)]
pub struct LinkTarget {
    pub target_url: String,
}

/// An aggregated view over the click-statistics table: how many clicks
/// were recorded for one referer / user-agent pair.
#[derive(Debug)]
pub struct CountedLinkStatistic {
    pub count: Option<i64>,
    pub referer: Option<String>,
    pub user_agent: Option<String>,
}

} // verus!
