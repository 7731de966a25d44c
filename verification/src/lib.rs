//! Subdomain discovery over third-party intelligence sources.
//!
//! Every source adapter follows one protocol: build a request URL for the
//! target host, send it, decode the response, and classify the decoded
//! payload into either a non-empty set of hostnames or a typed error.
//! The aggregation layer merges the outcomes of many sources into one
//! deduplicated set while recording each failed source separately.

use vstd::prelude::*;

pub mod aggregate;
pub mod error;
pub mod sources;
pub mod subdomain_set;

verus! {

use crate::subdomain_set::SubdomainSet;

/// The normalization capability: a decoded, source-specific response shape
/// knows how to turn itself into the canonical deduplicated set of hostnames.
pub trait IntoSubdomain {
    /// The set of hostnames this response stands for.
    spec fn spec_subdomains(&self) -> Set<Seq<char>>;

    /// Collect the canonical hostname set from this response.
    fn subdomains(&self) -> (r: SubdomainSet)
        ensures
            r@ == self.spec_subdomains(),
            r.wf(),
    ;
}

} // verus!
