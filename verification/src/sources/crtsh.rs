//! The crt.sh certificate-transparency source: unauthenticated; the
//! response is either a list of certificate entries or a null body.

use vstd::prelude::*;
use vstd::string::StringExecFns;

verus! {

broadcast use vstd::seq_lib::group_seq_properties;

use crate::IntoSubdomain;
use crate::error::{Error, ErrorView};
use crate::subdomain_set::SubdomainSet;

/// One certificate entry: the hostname found in the certificate.
pub struct CrtshResult {
    pub name_value: String,
}

impl IntoSubdomain for Vec<CrtshResult> {
    /// Direct extraction: each entry already carries a full hostname.
    open spec fn spec_subdomains(&self) -> Set<Seq<char>> {
        self@.map_values(|s: CrtshResult| s.name_value@).to_set()
    }

    fn subdomains(&self) -> (r: SubdomainSet) {
        let ghost m = self@.map_values(|s: CrtshResult| s.name_value@);
        let mut out = SubdomainSet::new();
        let n = self.len();
        let mut i: usize = 0;
        proof {
            assert(m.take(0).to_set() =~= Set::<Seq<char>>::empty());
        }
        while i < n
            invariant
                n == self.len(),
                m == self@.map_values(|s: CrtshResult| s.name_value@),
                i <= n,
                out.wf(),
                out@ == m.take(i as int).to_set(),
            decreases n - i,
        {
            out.insert(self[i].name_value.clone());
            proof {
                assert(m.take(i + 1) =~= m.take(i as int).push(m[i as int]));
                m.take(i as int).lemma_push_to_set_commute(m[i as int]);
            }
            i += 1;
        }
        proof {
            assert(m.take(n as int) =~= m);
        }
        out
    }
}

/// The request target of this source for a given host.
pub open spec fn spec_url(host: Seq<char>) -> Seq<char> {
    "https://crt.sh/?q=%."@ + host + "&output=json"@
}

/// Build the certificate-search request URL for `host`: a pure string
/// function asking for every name under the host, as JSON.
pub fn build_url(host: &str) -> (r: String)
    ensures
        r@ == spec_url(host@),
{
    let mut r = "https://crt.sh/?q=%.".to_owned();
    r.append(host);
    r.append("&output=json");
    r
}

/// Classify a decoded response: a null body, or an entry list that
/// normalizes to nothing, is the zero-records error; a success never
/// carries an empty set.
pub fn classify(host: &str, resp: &Option<Vec<CrtshResult>>) -> (r: Result<SubdomainSet, Error>)
    ensures
        (resp matches Some(data) && !data.spec_subdomains().is_empty()) ==> (r matches Ok(s) && s@
            == resp->Some_0.spec_subdomains() && s.wf()),
        resp is None || (resp matches Some(data) && data.spec_subdomains().is_empty()) ==> (
        r matches Err(e) && e@ == (ErrorView::SourceError { source: "Crt.sh"@, host: host@ })),
{
    match resp {
        Some(data) => {
            let subs = data.subdomains();
            if subs.is_empty() {
                Err(Error::source_error("Crt.sh", host))
            } else {
                Ok(subs)
            }
        },
        None => Err(Error::source_error("Crt.sh", host)),
    }
}

} // verus!
