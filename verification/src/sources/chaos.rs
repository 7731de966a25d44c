//! The projectdiscovery Chaos source: authenticated by an API key taken
//! from the environment; entries are leaf labels joined to a parent domain.

use vstd::prelude::*;
use vstd::string::StringExecFns;

verus! {

broadcast use vstd::seq_lib::group_seq_properties;

use crate::IntoSubdomain;
use crate::error::{Error, ErrorView};
use crate::subdomain_set::SubdomainSet;

/// Credentials for this source: the resolved API key.
#[derive(Debug)]
pub struct Creds {
    pub key: String,
}

/// Relies on `dotenv::var`: it loads the optional local override file once
/// per process, then reads the named variable from the process environment,
/// returning its value exactly when the variable is set there.
#[verifier::external_body]
fn env_lookup(name: &str) -> (r: Option<String>) {
    dotenv::var(name).ok()
}

impl Creds {
    /// Turn the outcome of one environment lookup for `CHAOS_KEY` into
    /// resolved credentials, or the missing-credential error naming that
    /// variable.
    pub fn from_lookup(lookup: Option<String>) -> (r: Result<Creds, Error>)
        ensures
            lookup matches Some(k) ==> (r matches Ok(c) && c.key == k),
            lookup is None ==> (r matches Err(e) && e@ == (ErrorView::KeyError {
                source: "Chaos"@,
                vars: seq!["CHAOS_KEY"@],
            })),
    {
        match lookup {
            Some(key) => Ok(Creds { key }),
            None => {
                let mut names: Vec<&str> = Vec::new();
                names.push("CHAOS_KEY");
                let name_slice: &[&str] = names.as_slice();
                let e = Error::key_error("Chaos", name_slice);
                proof {
                    assert(name_slice.deep_view() =~= seq!["CHAOS_KEY"@]);
                }
                Err(e)
            },
        }
    }

    /// Resolve this source's credentials from the process environment.
    /// No network request is involved; every failure is the
    /// missing-credential error naming `CHAOS_KEY`.
    pub fn read_creds() -> (r: Result<Creds, Error>)
        ensures
            r matches Err(e) ==> e@ == (ErrorView::KeyError {
                source: "Chaos"@,
                vars: seq!["CHAOS_KEY"@],
            }),
    {
        Creds::from_lookup(env_lookup("CHAOS_KEY"))
    }
}

/// The decoded response: the parent domain and the leaf labels under it.
pub struct ChaosResult {
    pub domain: String,
    pub subdomains: Vec<String>,
}

impl IntoSubdomain for ChaosResult {
    /// Composed extraction: each entry is a leaf label, and the canonical
    /// hostname is `<label>.<domain>` for the reported parent domain.
    open spec fn spec_subdomains(&self) -> Set<Seq<char>> {
        self.subdomains.deep_view().map_values(|s: Seq<char>| s + "."@ + self.domain@).to_set()
    }

    fn subdomains(&self) -> (r: SubdomainSet) {
        let ghost m = self.subdomains.deep_view().map_values(
            |s: Seq<char>| s + "."@ + self.domain@,
        );
        let mut out = SubdomainSet::new();
        let n = self.subdomains.len();
        let mut i: usize = 0;
        proof {
            assert(m.take(0).to_set() =~= Set::<Seq<char>>::empty());
        }
        while i < n
            invariant
                n == self.subdomains.len(),
                m == self.subdomains.deep_view().map_values(
                    |s: Seq<char>| s + "."@ + self.domain@,
                ),
                i <= n,
                out.wf(),
                out@ == m.take(i as int).to_set(),
            decreases n - i,
        {
            let mut joined = self.subdomains[i].clone();
            joined.append(".");
            joined.append(self.domain.as_str());
            proof {
                assert(joined@ == m[i as int]);
            }
            out.insert(joined);
            proof {
                assert(m.take(i + 1) =~= m.take(i as int).push(m[i as int]));
                m.take(i as int).lemma_push_to_set_commute(m[i as int]);
            }
            i += 1;
        }
        proof {
            assert(m.take(n as int) =~= m);
        }
        out
    }
}

/// The request target of this source for a given host.
pub open spec fn spec_url(host: Seq<char>) -> Seq<char> {
    "https://dns.projectdiscovery.io/dns/"@ + host + "/subdomains"@
}

/// Build the subdomain-listing request URL for `host`: a pure string
/// function; the API key travels in a header, never in the URL.
pub fn build_url(host: &str) -> (r: String)
    ensures
        r@ == spec_url(host@),
{
    let mut r = "https://dns.projectdiscovery.io/dns/".to_owned();
    r.append(host);
    r.append("/subdomains");
    r
}

/// Whether an HTTP status code is a client error.
pub open spec fn spec_is_client_error(status: u16) -> bool {
    400 <= status <= 499
}

/// Classify the HTTP status of this authenticated source's response
/// before any decoding: a client-error status is an authentication
/// failure, and the body is never decoded in that case.
pub fn classify_status(host: &str, status: u16) -> (r: Result<(), Error>)
    ensures
        spec_is_client_error(status) ==> (r matches Err(e) && e@ == (ErrorView::AuthError {
            source: "Chaos"@,
            host: host@,
        })),
        !spec_is_client_error(status) ==> r is Ok,
{
    if 400 <= status && status <= 499 {
        Err(Error::auth_error("Chaos", host))
    } else {
        Ok(())
    }
}

/// Classify a decoded response: an empty composed set is the zero-records
/// error; anything else is the canonical set.
pub fn classify_response(host: &str, resp: &ChaosResult) -> (r: Result<SubdomainSet, Error>)
    ensures
        resp.spec_subdomains().is_empty() ==> (r matches Err(e) && e@ == (ErrorView::SourceError {
            source: "Chaos"@,
            host: host@,
        })),
        !resp.spec_subdomains().is_empty() ==> (r matches Ok(s) && s@ == resp.spec_subdomains()
            && s.wf()),
{
    let subs = resp.subdomains();
    if subs.is_empty() {
        Err(Error::source_error("Chaos", host))
    } else {
        Ok(subs)
    }
}

} // verus!
