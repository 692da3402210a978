//! The decision step of a resolution: among the probed candidates, the first
//! existing one wins; when none exists, the whole probed list is handed back
//! for diagnostic rendering.

use vstd::prelude::*;

use crate::context::Candidate;
use crate::context::SearchOutcome;

verus! {

/// The index of the first existing candidate, or `None` when no candidate
/// exists.
pub open spec fn spec_first_existing(cands: Seq<Candidate>) -> Option<int>
    decreases cands.len(),
{
    if cands.len() == 0 {
        None
    } else if cands[0].exists {
        Some(0)
    } else {
        match spec_first_existing(cands.drop_first()) {
            Some(k) => Some(k + 1),
            None => None,
        }
    }
}

/// What the selected index means: it points at an existing candidate and
/// nothing before it exists; and `None` means nothing exists at all.
pub proof fn lemma_first_existing_props(cands: Seq<Candidate>)
    ensures
        match spec_first_existing(cands) {
            Some(k) => 0 <= k < cands.len() && cands[k].exists && (forall|j: int|
                0 <= j < k ==> !cands[j].exists),
            None => forall|j: int| 0 <= j < cands.len() ==> !cands[j].exists,
        },
    decreases cands.len(),
{
    if cands.len() == 0 {
    } else if cands[0].exists {
    } else {
        let rest = cands.drop_first();
        lemma_first_existing_props(rest);
        match spec_first_existing(rest) {
            Some(k) => {
                assert(cands[k + 1].exists) by {
                    assert(rest[k] == cands[k + 1]);
                }
                assert forall|j: int| 0 <= j < k + 1 implies !cands[j].exists by {
                    if j > 0 {
                        assert(rest[j - 1] == cands[j]);
                    }
                }
            },
            None => {
                assert forall|j: int| 0 <= j < cands.len() implies !cands[j].exists by {
                    if j > 0 {
                        assert(rest[j - 1] == cands[j]);
                    }
                }
            },
        }
    }
}

/// Monotonic fallback: when one candidate exists and every candidate of
/// higher priority does not, that candidate is selected.
pub proof fn lemma_monotonic_fallback(cands: Seq<Candidate>, j: int)
    requires
        0 <= j < cands.len(),
        cands[j].exists,
        forall|k: int| 0 <= k < j ==> !cands[k].exists,
    ensures
        spec_first_existing(cands) == Some(j),
    decreases cands.len(),
{
    if j == 0 {
    } else {
        lemma_monotonic_fallback(cands.drop_first(), j - 1);
    }
}

/// When no candidate exists, nothing is selected.
pub proof fn lemma_no_candidate_exists(cands: Seq<Candidate>)
    requires
        forall|j: int| 0 <= j < cands.len() ==> !cands[j].exists,
    ensures
        spec_first_existing(cands) is None,
{
    lemma_first_existing_props(cands);
    if spec_first_existing(cands) is Some {
        let k = spec_first_existing(cands)->Some_0;
        assert(!cands[k].exists);
    }
}

/// Priority order: when a candidate of higher priority exists, no candidate
/// of lower priority is selected — the selected index never passes an
/// existing one.
pub proof fn lemma_priority_order(cands: Seq<Candidate>, i: int, j: int)
    requires
        0 <= i < j < cands.len(),
        cands[i].exists,
    ensures
        spec_first_existing(cands) matches Some(k) && k <= i,
{
    lemma_first_existing_props(cands);
    match spec_first_existing(cands) {
        Some(k) => {
            if k > i {
                assert(!cands[i].exists);
            }
        },
        None => {
            assert(!cands[i].exists);
        },
    }
}

/// Idempotence: the selection depends only on the candidates' paths and
/// existence flags, so two resolutions that probe the same state select the
/// same candidate.
pub proof fn lemma_selection_idempotent(c1: Seq<Candidate>, c2: Seq<Candidate>)
    requires
        c1.len() == c2.len(),
        forall|i: int| 0 <= i < c1.len() ==> c1[i].exists == c2[i].exists,
        forall|i: int| 0 <= i < c1.len() ==> c1[i].path@ == c2[i].path@,
    ensures
        spec_first_existing(c1) == spec_first_existing(c2),
        spec_first_existing(c1) matches Some(k) ==> c1[k].path@ == c2[k].path@,
    decreases c1.len(),
{
    lemma_first_existing_props(c1);
    if c1.len() > 0 {
        assert(c1[0].exists == c2[0].exists);
        assert(forall|i: int|
            0 <= i < c1.drop_first().len() ==> c1.drop_first()[i].exists == c2.drop_first()[
                i
            ].exists);
        lemma_selection_idempotent(c1.drop_first(), c2.drop_first());
    }
}

/// Pairs the candidate paths with the existence flags the caller probed,
/// in order.
pub fn pair_candidates(paths: Vec<String>, flags: &Vec<bool>) -> (r: Vec<Candidate>)
    requires
        paths@.len() == flags@.len(),
    ensures
        r@.len() == paths@.len(),
        forall|i: int|
            0 <= i < r@.len() ==> (#[trigger] r@[i]).path == paths@[i] && r@[i].exists == flags@[i],
{
    let mut out: Vec<Candidate> = Vec::new();
    let n = paths.len();
    let mut i: usize = 0;
    while i < n
        invariant
            i <= n,
            n == paths@.len(),
            n == flags@.len(),
            out@.len() == i,
            forall|j: int|
                0 <= j < i ==> (#[trigger] out@[j]).path == paths@[j] && out@[j].exists
                    == flags@[j],
        decreases n - i,
    {
        out.push(Candidate { path: paths[i].clone(), exists: flags[i] });
        i = i + 1;
    }
    out
}

/// The path of the first existing candidate, or `None` when no candidate
/// exists.
pub fn select_first(cands: &Vec<Candidate>) -> (r: Option<String>)
    ensures
        r is Some <==> spec_first_existing(cands@) is Some,
        r matches Some(p) ==> spec_first_existing(cands@) matches Some(k) && p@ == cands@[k].path@,
{
    let n = cands.len();
    let mut i: usize = 0;
    while i < n
        invariant
            i <= n,
            n == cands@.len(),
            forall|j: int| 0 <= j < i ==> !cands@[j].exists,
        decreases n - i,
    {
        if cands[i].exists {
            proof {
                lemma_monotonic_fallback(cands@, i as int);
            }
            return Some(cands[i].path.clone());
        }
        i = i + 1;
    }
    proof {
        lemma_no_candidate_exists(cands@);
    }
    None
}

/// The outcome of a resolution over a probed candidate list: the path of the
/// first existing candidate, or, when none exists, the probed list itself,
/// unchanged, for diagnostic rendering.
pub fn resolve_candidates(cands: Vec<Candidate>) -> (r: SearchOutcome)
    ensures
        match spec_first_existing(cands@) {
            Some(k) => r matches SearchOutcome::Found(p) && p@ == cands@[k].path@,
            None => r matches SearchOutcome::NotFound(c) && c == cands,
        },
{
    match select_first(&cands) {
        Some(p) => SearchOutcome::Found(p),
        None => SearchOutcome::NotFound(cands),
    }
}

} // verus!
