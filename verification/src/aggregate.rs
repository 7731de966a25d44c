//! Merging the outcomes of many independently run sources into one
//! deduplicated hostname set, while recording every failed source.

use vstd::prelude::*;

verus! {

broadcast use vstd::seq_lib::group_seq_properties;

use crate::error::{Error, ErrorView};
use crate::subdomain_set::SubdomainSet;

/// The labelled outcome of one adapter run: the source's name beside
/// either its canonical hostname set or its typed error.
pub struct SourceResult {
    pub name: String,
    pub outcome: Result<SubdomainSet, Error>,
}

/// The merged outcome of one whole run: the union of every successful
/// source's set, and each failed source beside its error.
pub struct AggregateResult {
    pub subdomains: SubdomainSet,
    pub failures: Vec<(String, Error)>,
}

/// Whether the outcome at position `i` succeeded and discovered `h`.
pub open spec fn outcome_has(rs: Seq<SourceResult>, i: int, h: Seq<char>) -> bool {
    rs[i].outcome matches Ok(s) && s@.contains(h)
}

/// The union of the sets of all successful outcomes: a hostname is in the
/// merged set exactly when some successful source discovered it.
pub open spec fn merged_set(rs: Seq<SourceResult>) -> Set<Seq<char>> {
    Set::new(|h: Seq<char>| exists|i: int| 0 <= i < rs.len() && #[trigger] outcome_has(rs, i, h))
}

/// The failed outcomes in order: each source's name beside its error.
pub open spec fn failures_of(rs: Seq<SourceResult>) -> Seq<(Seq<char>, ErrorView)>
    decreases rs.len(),
{
    if rs.len() == 0 {
        Seq::<(Seq<char>, ErrorView)>::empty()
    } else {
        failures_of(rs.drop_last()) + (match rs.last().outcome {
            Result::Err(e) => seq![(rs.last().name@, e@)],
            Result::Ok(_) => Seq::<(Seq<char>, ErrorView)>::empty(),
        })
    }
}

/// The abstract value of a recorded failure list.
pub open spec fn failure_views(fs: Seq<(String, Error)>) -> Seq<(Seq<char>, ErrorView)> {
    fs.map_values(|p: (String, Error)| (p.0@, p.1@))
}

/// Merge every outcome of one run: union all successful sets, record each
/// failed source beside its error, and let no failure suppress the rest.
pub fn aggregate(results: &Vec<SourceResult>) -> (r: AggregateResult)
    ensures
        r.subdomains@ == merged_set(results@),
        r.subdomains.wf(),
        failure_views(r.failures@) == failures_of(results@),
{
    let mut subdomains = SubdomainSet::new();
    let mut failures: Vec<(String, Error)> = Vec::new();
    let n = results.len();
    let mut i: usize = 0;
    proof {
        assert(merged_set(results@.take(0)) =~= Set::<Seq<char>>::empty());
        assert(failure_views(failures@) =~= failures_of(results@.take(0)));
    }
    while i < n
        invariant
            n == results.len(),
            i <= n,
            subdomains.wf(),
            subdomains@ == merged_set(results@.take(i as int)),
            failure_views(failures@) == failures_of(results@.take(i as int)),
        decreases n - i,
    {
        let ghost pre = results@.take(i as int);
        let ghost post = results@.take(i + 1);
        proof {
            assert(post.drop_last() =~= pre);
            assert(post.last() == results@[i as int]);
        }
        match &results[i].outcome {
            Result::Ok(s) => {
                subdomains.union_with(s);
                proof {
                    assert forall|h: Seq<char>| merged_set(post).contains(h) implies merged_set(
                        pre,
                    ).union(s@).contains(h) by {
                        let j = choose|j: int| 0 <= j < post.len() && outcome_has(post, j, h);
                        if j < i {
                            assert(outcome_has(pre, j, h));
                        } else {
                            assert(s@.contains(h));
                        }
                    }
                    assert forall|h: Seq<char>|
                        merged_set(pre).union(s@).contains(h) implies merged_set(post).contains(
                        h,
                    ) by {
                        if merged_set(pre).contains(h) {
                            let j = choose|j: int| 0 <= j < pre.len() && outcome_has(pre, j, h);
                            assert(outcome_has(post, j, h));
                        } else {
                            assert(outcome_has(post, i as int, h));
                        }
                    }
                    assert(merged_set(post) =~= merged_set(pre).union(s@));
                }
            },
            Result::Err(e) => {
                let ghost prevf = failures@;
                let entry = (results[i].name.clone(), e.duplicate());
                failures.push(entry);
                proof {
                    assert(failure_views(failures@) =~= failure_views(prevf).push(
                        (results@[i as int].name@, results@[i as int].outcome->Err_0@),
                    ));
                    assert forall|h: Seq<char>| merged_set(post).contains(h) implies merged_set(
                        pre,
                    ).contains(h) by {
                        let j = choose|j: int| 0 <= j < post.len() && outcome_has(post, j, h);
                        assert(j != i);
                        assert(outcome_has(pre, j, h));
                    }
                    assert forall|h: Seq<char>| merged_set(pre).contains(h) implies merged_set(
                        post,
                    ).contains(h) by {
                        let j = choose|j: int| 0 <= j < pre.len() && outcome_has(pre, j, h);
                        assert(outcome_has(post, j, h));
                    }
                    assert(merged_set(post) =~= merged_set(pre));
                }
            },
        }
        i += 1;
    }
    proof {
        assert(results@.take(n as int) =~= results@);
    }
    AggregateResult { subdomains, failures }
}

/// Merging distributes over concatenation of outcome lists: the merged
/// set of two runs laid end to end is the union of their merged sets.
pub proof fn lemma_merged_set_concat(a: Seq<SourceResult>, b: Seq<SourceResult>)
    ensures
        merged_set(a + b) == merged_set(a).union(merged_set(b)),
{
    assert forall|h: Seq<char>| merged_set(a + b).contains(h) implies merged_set(a).union(
        merged_set(b),
    ).contains(h) by {
        let j = choose|j: int| 0 <= j < (a + b).len() && outcome_has(a + b, j, h);
        if j < a.len() {
            assert((a + b)[j] == a[j]);
            assert(outcome_has(a, j, h));
        } else {
            assert((a + b)[j] == b[j - a.len()]);
            assert(outcome_has(b, j - a.len(), h));
        }
    }
    assert forall|h: Seq<char>| merged_set(a).union(merged_set(b)).contains(h) implies merged_set(
        a + b,
    ).contains(h) by {
        if merged_set(a).contains(h) {
            let j = choose|j: int| 0 <= j < a.len() && outcome_has(a, j, h);
            assert((a + b)[j] == a[j]);
            assert(outcome_has(a + b, j, h));
        } else {
            let j = choose|j: int| 0 <= j < b.len() && outcome_has(b, j, h);
            assert((a + b)[a.len() + j] == b[j]);
            assert(outcome_has(a + b, a.len() + j, h));
        }
    }
    assert(merged_set(a + b) =~= merged_set(a).union(merged_set(b)));
}

/// Merging is commutative: completing the same outcomes in the opposite
/// order yields the same merged set.
pub proof fn lemma_merged_set_commutes(a: Seq<SourceResult>, b: Seq<SourceResult>)
    ensures
        merged_set(a + b) == merged_set(b + a),
{
    lemma_merged_set_concat(a, b);
    lemma_merged_set_concat(b, a);
    assert(merged_set(a).union(merged_set(b)) =~= merged_set(b).union(merged_set(a)));
}

/// Merging is associative: how three outcome lists are grouped cannot
/// change the merged set.
pub proof fn lemma_merged_set_assoc(a: Seq<SourceResult>, b: Seq<SourceResult>, c: Seq<
    SourceResult,
>)
    ensures
        merged_set((a + b) + c) == merged_set(a + (b + c)),
{
    assert((a + b) + c =~= a + (b + c));
}

} // verus!
