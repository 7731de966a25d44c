//! The AlienVault OTX passive-DNS source: unauthenticated, reporting an
//! explicit record count beside the records themselves.

use vstd::prelude::*;
use vstd::string::StringExecFns;

verus! {

broadcast use vstd::seq_lib::group_seq_properties;

use crate::IntoSubdomain;
use crate::error::{Error, ErrorView};
use crate::subdomain_set::SubdomainSet;

/// One passive-DNS record: a full hostname.
pub struct Subdomain {
    pub hostname: String,
}

/// The decoded response: the records and the count the source reports.
pub struct AlienvaultResult {
    pub passive_dns: Vec<Subdomain>,
    pub count: i32,
}

impl IntoSubdomain for AlienvaultResult {
    /// Direct extraction: each record already carries a full hostname.
    open spec fn spec_subdomains(&self) -> Set<Seq<char>> {
        self.passive_dns@.map_values(|s: Subdomain| s.hostname@).to_set()
    }

    fn subdomains(&self) -> (r: SubdomainSet) {
        let ghost m = self.passive_dns@.map_values(|s: Subdomain| s.hostname@);
        let mut out = SubdomainSet::new();
        let n = self.passive_dns.len();
        let mut i: usize = 0;
        proof {
            assert(m.take(0).to_set() =~= Set::<Seq<char>>::empty());
        }
        while i < n
            invariant
                n == self.passive_dns.len(),
                m == self.passive_dns@.map_values(|s: Subdomain| s.hostname@),
                i <= n,
                out.wf(),
                out@ == m.take(i as int).to_set(),
            decreases n - i,
        {
            out.insert(self.passive_dns[i].hostname.clone());
            proof {
                assert(m.take(i + 1) =~= m.take(i as int).push(m[i as int]));
                m.take(i as int).lemma_push_to_set_commute(m[i as int]);
            }
            i += 1;
        }
        proof {
            assert(m.take(n as int) =~= m);
        }
        out
    }
}

/// The request target of this source for a given host.
pub open spec fn spec_url(host: Seq<char>) -> Seq<char> {
    "https://otx.alienvault.com/api/v1/indicators/domain/"@ + host + "/passive_dns"@
}

/// Build the passive-DNS request URL for `host`: a pure string function.
pub fn build_url(host: &str) -> (r: String)
    ensures
        r@ == spec_url(host@),
{
    let mut r = "https://otx.alienvault.com/api/v1/indicators/domain/".to_owned();
    r.append(host);
    r.append("/passive_dns");
    r
}

/// Classify a decoded response: a reported count of zero, or a record
/// list that normalizes to nothing, is the zero-records error; a success
/// never carries an empty set.
pub fn classify(host: &str, resp: &AlienvaultResult) -> (r: Result<SubdomainSet, Error>)
    ensures
        resp.count == 0 || resp.spec_subdomains().is_empty() ==> (r matches Err(e) && e@ == (
        ErrorView::SourceError { source: "AlienVault"@, host: host@ })),
        resp.count != 0 && !resp.spec_subdomains().is_empty() ==> (r matches Ok(s) && s@
            == resp.spec_subdomains() && s.wf()),
{
    if resp.count == 0 {
        return Err(Error::source_error("AlienVault", host));
    }
    let subs = resp.subdomains();
    if subs.is_empty() {
        Err(Error::source_error("AlienVault", host))
    } else {
        Ok(subs)
    }
}

} // verus!
