//! The domain admission policy.

use vstd::prelude::*;
use crate::config::FilterConfig;
use crate::derivation::{url_parts_of, split_url};

verus! {

/// Admits reports by the domain they concern.
#[derive(Debug, Clone)]
pub struct Filter {
    pub config: FilterConfig,
}

/// Whether a whitelist admits `host`: every host when it is empty, else only
/// its exact members, compared character by character.
pub open spec fn whitelist_allows(whitelist: Seq<String>, host: Seq<char>) -> bool {
    whitelist.len() == 0 || exists|i: int| 0 <= i < whitelist.len() && #[trigger] whitelist[i]@ == host
}

/// Whether the host of a URL is admitted. A URL that does not parse, or that
/// has no host, is not.
pub open spec fn url_allowed(whitelist: Seq<String>, url: Seq<char>) -> bool {
    &&& url_parts_of(url) is Some
    &&& url_parts_of(url).unwrap().0 is Some
    &&& whitelist_allows(whitelist, url_parts_of(url).unwrap().0.unwrap())
}

impl Filter {
    pub fn new(config: FilterConfig) -> (r: Filter)
        ensures
            r.config.domain_whitelist@ == config.domain_whitelist@,
    {
        Filter { config }
    }

    pub open spec fn allows(&self, host: Seq<char>) -> bool {
        whitelist_allows(self.config.domain_whitelist@, host)
    }

    pub fn is_domain_allowed(&self, host: &str) -> (r: bool)
        ensures
            r == self.allows(host@),
    {
        let wl = &self.config.domain_whitelist;
        if wl.len() == 0 {
            return true;
        }
        let mut i: usize = 0;
        while i < wl.len()
            invariant
                i <= wl@.len(),
                wl == self.config.domain_whitelist,
                forall|j: int| 0 <= j < i ==> #[trigger] wl@[j]@ != host@,
            decreases wl@.len() - i,
        {
            if crate::json::str_eq(wl[i].as_str(), host) {
                return true;
            }
            i = i + 1;
        }
        false
    }

    /// Whether the host of `url` is admitted; fails closed on a URL that does
    /// not parse or has no host.
    pub fn is_domain_of_url_allowed(&self, url: &str) -> (r: bool)
        ensures
            r == url_allowed(self.config.domain_whitelist@, url@),
    {
        match split_url(url) {
            Ok((Some(host), _, _)) => self.is_domain_allowed(host.as_str()),
            _ => false,
        }
    }
}

/// The whitelist policy: an empty whitelist admits every host; otherwise a
/// host is admitted exactly when it is a member, compared character by
/// character, so that names differing only in case are different hosts.
pub proof fn lemma_whitelist_policy(filter: Filter, host: Seq<char>)
    ensures
        filter.config.domain_whitelist@.len() == 0 ==> filter.allows(host),
        filter.config.domain_whitelist@.len() > 0 ==> (filter.allows(host) <==> exists|i: int|
            0 <= i < filter.config.domain_whitelist@.len() && #[trigger] filter.config.domain_whitelist@[i]@ == host),
        filter.allows(host) && filter.config.domain_whitelist@.len() > 0 ==> exists|i: int|
            0 <= i < filter.config.domain_whitelist@.len() && filter.config.domain_whitelist@[i]@.len() == host.len()
            && forall|k: int| 0 <= k < host.len() ==> #[trigger] filter.config.domain_whitelist@[i]@[k] == host[k],
{
}

} // verus!
