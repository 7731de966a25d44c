//! The closed error taxonomy shared by every source adapter.
//!
//! Each kind carries the context the aggregation layer reports: the source
//! name, the target host where one exists, and for a missing credential the
//! exact environment variable names that were absent.

use vstd::prelude::*;
use vstd::string::StringExecFns;

verus! {

/// The abstract value of an [`Error`]: the same taxonomy over character
/// sequences, used by every contract that speaks about errors.
pub enum ErrorView {
    /// A required credential variable is absent; no network call was made.
    KeyError { source: Seq<char>, vars: Seq<Seq<char>> },
    /// Network, connection or timeout failure while contacting the source.
    TransportError { source: Seq<char>, host: Seq<char> },
    /// The response body did not decode into the source's declared schema.
    ParseError { source: Seq<char>, host: Seq<char> },
    /// The source rejected the request with a client-error status.
    AuthError { source: Seq<char>, host: Seq<char> },
    /// The source answered and was understood, but yielded zero records.
    SourceError { source: Seq<char>, host: Seq<char> },
}

/// One adapter failure, classified into the closed taxonomy of kinds.
#[derive(Debug)]
pub enum Error {
    KeyError { source: String, vars: Vec<String> },
    TransportError { source: String, host: String },
    ParseError { source: String, host: String },
    AuthError { source: String, host: String },
    SourceError { source: String, host: String },
}

impl View for Error {
    type V = ErrorView;

    open spec fn view(&self) -> ErrorView {
        match self {
            Error::KeyError { source, vars } => ErrorView::KeyError {
                source: source@,
                vars: vars.deep_view(),
            },
            Error::TransportError { source, host } => ErrorView::TransportError {
                source: source@,
                host: host@,
            },
            Error::ParseError { source, host } => ErrorView::ParseError {
                source: source@,
                host: host@,
            },
            Error::AuthError { source, host } => ErrorView::AuthError {
                source: source@,
                host: host@,
            },
            Error::SourceError { source, host } => ErrorView::SourceError {
                source: source@,
                host: host@,
            },
        }
    }
}

/// The missing-variable names as they appear in a KeyError message:
/// joined with a comma and a space.
pub open spec fn spec_join_vars(vars: Seq<Seq<char>>) -> Seq<char>
    decreases vars.len(),
{
    if vars.len() == 0 {
        Seq::<char>::empty()
    } else if vars.len() == 1 {
        vars[0]
    } else {
        spec_join_vars(vars.drop_last()) + ", "@ + vars.last()
    }
}

/// The stable user-facing message of each error kind: always the source
/// name, the target host where the kind carries one, and for a missing
/// credential the names of the absent variables.
pub open spec fn spec_message(e: ErrorView) -> Seq<char> {
    match e {
        ErrorView::KeyError { source, vars } => source
            + " requires these environment variables to be set: "@ + spec_join_vars(vars),
        ErrorView::TransportError { source, host } => source + " couldn't connect to: "@ + host,
        ErrorView::ParseError { source, host } => source + " couldn't parse the response for: "@
            + host,
        ErrorView::AuthError { source, host } => source + " couldn't authenticate for: "@ + host,
        ErrorView::SourceError { source, host } => source + " couldn't find any results for: "@
            + host,
    }
}

fn join_vars(vars: &Vec<String>) -> (r: String)
    ensures
        r@ == spec_join_vars(vars.deep_view()),
{
    let n = vars.len();
    if n == 0 {
        return String::new();
    }
    let mut r = vars[0].clone();
    let mut i: usize = 1;
    proof {
        assert(vars.deep_view().take(1) =~= seq![vars.deep_view()[0]]);
    }
    while i < n
        invariant
            n == vars.len(),
            1 <= i <= n,
            r@ == spec_join_vars(vars.deep_view().take(i as int)),
        decreases n - i,
    {
        r.append(", ");
        r.append(vars[i].as_str());
        proof {
            let vs = vars.deep_view();
            assert(vs.take(i + 1).drop_last() =~= vs.take(i as int));
            assert(vs.take(i + 1).last() == vs[i as int]);
        }
        i += 1;
    }
    proof {
        assert(vars.deep_view().take(n as int) =~= vars.deep_view());
    }
    r
}

impl Error {
    /// Build the zero-records error for a source that answered with nothing.
    pub fn source_error(source: &str, host: &str) -> (r: Error)
        ensures
            r@ == (ErrorView::SourceError { source: source@, host: host@ }),
    {
        Error::SourceError { source: source.to_owned(), host: host.to_owned() }
    }

    /// Build the client-error-status error for an authenticated source.
    pub fn auth_error(source: &str, host: &str) -> (r: Error)
        ensures
            r@ == (ErrorView::AuthError { source: source@, host: host@ }),
    {
        Error::AuthError { source: source.to_owned(), host: host.to_owned() }
    }

    /// Build the transport-failure error for a source that could not be reached.
    pub fn transport_error(source: &str, host: &str) -> (r: Error)
        ensures
            r@ == (ErrorView::TransportError { source: source@, host: host@ }),
    {
        Error::TransportError { source: source.to_owned(), host: host.to_owned() }
    }

    /// Build the undecodable-body error for a source whose response did not
    /// match its schema.
    pub fn parse_error(source: &str, host: &str) -> (r: Error)
        ensures
            r@ == (ErrorView::ParseError { source: source@, host: host@ }),
    {
        Error::ParseError { source: source.to_owned(), host: host.to_owned() }
    }

    /// Build the missing-credential error, naming every absent variable.
    pub fn key_error(source: &str, vars: &[&str]) -> (r: Error)
        ensures
            r@ == (ErrorView::KeyError { source: source@, vars: vars.deep_view() }),
    {
        let n = vars.len();
        let mut owned: Vec<String> = Vec::new();
        let mut i: usize = 0;
        while i < n
            invariant
                n == vars.len(),
                i <= n,
                owned.deep_view() =~= vars.deep_view().take(i as int),
            decreases n - i,
        {
            let ghost prev = owned;
            owned.push(vars[i].to_owned());
            proof {
                assert(owned.deep_view() =~= prev.deep_view().push(vars.deep_view()[i as int]));
                assert(owned.deep_view() =~= vars.deep_view().take(i + 1));
            }
            i += 1;
        }
        proof {
            assert(vars.deep_view().take(n as int) =~= vars.deep_view());
        }
        Error::KeyError { source: source.to_owned(), vars: owned }
    }

    /// A structurally identical copy of this error.
    pub fn duplicate(&self) -> (r: Error)
        ensures
            r@ == self@,
    {
        match self {
            Error::KeyError { source, vars } => {
                let n = vars.len();
                let mut copied: Vec<String> = Vec::new();
                let mut i: usize = 0;
                while i < n
                    invariant
                        n == vars.len(),
                        i <= n,
                        copied.deep_view() =~= vars.deep_view().take(i as int),
                    decreases n - i,
                {
                    let ghost prev = copied;
                    copied.push(vars[i].clone());
                    proof {
                        assert(copied.deep_view() =~= prev.deep_view().push(
                            vars.deep_view()[i as int],
                        ));
                        assert(copied.deep_view() =~= vars.deep_view().take(i + 1));
                    }
                    i += 1;
                }
                proof {
                    assert(vars.deep_view().take(n as int) =~= vars.deep_view());
                }
                Error::KeyError { source: source.clone(), vars: copied }
            },
            Error::TransportError { source, host } => Error::TransportError {
                source: source.clone(),
                host: host.clone(),
            },
            Error::ParseError { source, host } => Error::ParseError {
                source: source.clone(),
                host: host.clone(),
            },
            Error::AuthError { source, host } => Error::AuthError {
                source: source.clone(),
                host: host.clone(),
            },
            Error::SourceError { source, host } => Error::SourceError {
                source: source.clone(),
                host: host.clone(),
            },
        }
    }

    /// The stable user-facing message for this error.
    pub fn message(&self) -> (r: String)
        ensures
            r@ == spec_message(self@),
    {
        match self {
            Error::KeyError { source, vars } => {
                let mut m = source.clone();
                m.append(" requires these environment variables to be set: ");
                let joined = join_vars(vars);
                m.append(joined.as_str());
                m
            },
            Error::TransportError { source, host } => {
                let mut m = source.clone();
                m.append(" couldn't connect to: ");
                m.append(host.as_str());
                m
            },
            Error::ParseError { source, host } => {
                let mut m = source.clone();
                m.append(" couldn't parse the response for: ");
                m.append(host.as_str());
                m
            },
            Error::AuthError { source, host } => {
                let mut m = source.clone();
                m.append(" couldn't authenticate for: ");
                m.append(host.as_str());
                m
            },
            Error::SourceError { source, host } => {
                let mut m = source.clone();
                m.append(" couldn't find any results for: ");
                m.append(host.as_str());
                m
            },
        }
    }
}

} // verus!
