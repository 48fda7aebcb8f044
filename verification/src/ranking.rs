//! The final list: which candidates are reported, and in what order.
//!
//! A candidate is reported when it was not confirmed not to exist and its
//! confidence reaches the threshold for its kind. The list is ordered by
//! confidence, highest first; candidates of equal confidence keep the order
//! in which they were given. Of several candidates with one address only
//! the one that ranks first is reported.

use crate::candidate::Candidate;
use crate::models::{FoundEmailData, VerificationStatus};
use vstd::prelude::*;

verus! {

/// The least confidence with which a candidate is reported.
#[derive(Debug, Clone, Copy, PartialEq, Eq, Structural)]
pub struct Thresholds {
    /// For a personal address.
    pub personal: u8,
    /// For a role address.
    pub generic: u8,
}

/// Whether a candidate may be reported: it was not confirmed not to exist,
/// and its confidence reaches the threshold for role addresses if it is
/// one, else the threshold for personal addresses.
pub open spec fn reportable(c: Candidate, limits: Thresholds) -> bool {
    &&& c.verification_status != VerificationStatus::Confirmed(false)
    &&& c.confidence >= (if c.is_generic {
        limits.generic
    } else {
        limits.personal
    })
}

/// Whether none of the candidates picked so far has the address of
/// candidate `i`.
pub open spec fn unreported(candidates: Seq<Candidate>, i: int, picks: Seq<usize>) -> bool {
    forall|k: int|
        0 <= k < picks.len() ==> candidates[(#[trigger] picks[k]) as int].email@
            != candidates[i].email@
}

/// Whether candidate `i` can still be picked.
pub open spec fn eligible(
    candidates: Seq<Candidate>,
    i: int,
    picks: Seq<usize>,
    limits: Thresholds,
) -> bool {
    &&& 0 <= i < candidates.len()
    &&& reportable(candidates[i], limits)
    &&& unreported(candidates, i, picks)
}

/// Whether candidate `i` ranks ahead of, or level with, candidate `j`: its
/// confidence is higher, or equal with `i` given no later than `j`.
pub open spec fn outranks(candidates: Seq<Candidate>, i: int, j: int) -> bool {
    candidates[i].confidence > candidates[j].confidence || (candidates[i].confidence
        == candidates[j].confidence && i <= j)
}

/// Whether candidate `i` is the one to pick next: it can be picked, and it
/// ranks ahead of every other that can.
pub open spec fn is_next_pick(
    candidates: Seq<Candidate>,
    i: int,
    picks: Seq<usize>,
    limits: Thresholds,
) -> bool {
    &&& eligible(candidates, i, picks, limits)
    &&& forall|j: int| #[trigger]
        eligible(candidates, j, picks, limits) ==> outranks(candidates, i, j)
}

/// Whether `picks` is the ranking of `candidates`: each pick was the one to
/// pick after those before it, and nothing that can be picked is left.
pub open spec fn is_ranking(
    candidates: Seq<Candidate>,
    picks: Seq<usize>,
    limits: Thresholds,
) -> bool {
    &&& forall|k: int|
        0 <= k < picks.len() ==> is_next_pick(
            candidates,
            (#[trigger] picks[k]) as int,
            picks.take(k),
            limits,
        )
    &&& forall|j: int| !#[trigger] eligible(candidates, j, picks, limits)
}

/// How many of the first `upto` candidates can still be picked.
pub open spec fn open_count(
    candidates: Seq<Candidate>,
    picks: Seq<usize>,
    limits: Thresholds,
    upto: int,
) -> nat
    decreases upto,
{
    if upto <= 0 {
        0
    } else {
        open_count(candidates, picks, limits, upto - 1) + (if eligible(
            candidates,
            upto - 1,
            picks,
            limits,
        ) {
            1nat
        } else {
            0nat
        })
    }
}

/// A pick leaves fewer candidates to pick from.
proof fn lemma_pick_shrinks(
    candidates: Seq<Candidate>,
    picks: Seq<usize>,
    limits: Thresholds,
    pick: usize,
    upto: int,
)
    requires
        eligible(candidates, pick as int, picks, limits),
        0 <= upto <= candidates.len(),
    ensures
        open_count(candidates, picks.push(pick), limits, upto) <= open_count(
            candidates,
            picks,
            limits,
            upto,
        ),
        pick < upto ==> open_count(candidates, picks.push(pick), limits, upto) < open_count(
            candidates,
            picks,
            limits,
            upto,
        ),
    decreases upto,
{
    if upto > 0 {
        lemma_pick_shrinks(candidates, picks, limits, pick, upto - 1);
        let after = picks.push(pick);
        if eligible(candidates, upto - 1, after, limits) {
            assert forall|k: int| 0 <= k < picks.len() implies candidates[(
            #[trigger] picks[k]) as int].email@ != candidates[upto - 1].email@ by {
                assert(after[k] == picks[k]);
            }
        }
        if pick == upto - 1 {
            assert(after[picks.len() as int] == pick);
            assert(!unreported(candidates, upto - 1, after));
        }
    }
}

/// Says whether a candidate may be reported.
pub fn is_reportable(c: &Candidate, limits: Thresholds) -> (r: bool)
    ensures
        r == reportable(*c, limits),
{
    let threshold = if c.is_generic {
        limits.generic
    } else {
        limits.personal
    };
    match c.verification_status {
        VerificationStatus::Confirmed(false) => false,
        _ => c.confidence >= threshold,
    }
}

/// Says whether none of the candidates picked so far has the address of
/// candidate `i`.
fn is_unreported(candidates: &Vec<Candidate>, i: usize, picks: &Vec<usize>) -> (r: bool)
    requires
        i < candidates.len(),
        forall|k: int| 0 <= k < picks@.len() ==> (#[trigger] picks@[k]) < candidates.len(),
    ensures
        r == unreported(candidates@, i as int, picks@),
{
    let mut k: usize = 0;
    while k < picks.len()
        invariant
            k <= picks.len(),
            i < candidates.len(),
            forall|m: int| 0 <= m < picks@.len() ==> (#[trigger] picks@[m]) < candidates.len(),
            forall|m: int|
                0 <= m < k ==> candidates@[(#[trigger] picks@[m]) as int].email@
                    != candidates@[i as int].email@,
        decreases picks.len() - k,
    {
        if candidates[picks[k]].email == candidates[i].email {
            return false;
        }
        k += 1;
    }
    true
}

/// Finds the candidate to pick next, if one is left.
fn next_pick(candidates: &Vec<Candidate>, picks: &Vec<usize>, limits: Thresholds) -> (r: Option<
    usize,
>)
    requires
        forall|k: int| 0 <= k < picks@.len() ==> (#[trigger] picks@[k]) < candidates.len(),
    ensures
        r matches Some(i) ==> is_next_pick(candidates@, i as int, picks@, limits),
        r is None ==> forall|j: int| !#[trigger] eligible(candidates@, j, picks@, limits),
{
    let mut best: Option<usize> = None;
    let mut i: usize = 0;
    while i < candidates.len()
        invariant
            i <= candidates.len(),
            forall|k: int| 0 <= k < picks@.len() ==> (#[trigger] picks@[k]) < candidates.len(),
            best matches Some(b) ==> b < i && eligible(candidates@, b as int, picks@, limits)
                && forall|j: int|
                0 <= j < i && #[trigger] eligible(candidates@, j, picks@, limits) ==> outranks(
                    candidates@,
                    b as int,
                    j,
                ),
            best is None ==> forall|j: int|
                0 <= j < i ==> !#[trigger] eligible(candidates@, j, picks@, limits),
        decreases candidates.len() - i,
    {
        if is_reportable(&candidates[i], limits) && is_unreported(candidates, i, picks) {
            match best {
                None => {
                    best = Some(i);
                },
                Some(b) => {
                    if candidates[i].confidence > candidates[b].confidence {
                        best = Some(i);
                    }
                },
            }
        }
        i += 1;
    }
    best
}

/// Ranks the candidates: the positions, in `candidates`, of those that are
/// reported, in the order in which they are reported.
pub fn ranked_indices(candidates: &Vec<Candidate>, limits: Thresholds) -> (picks: Vec<usize>)
    ensures
        is_ranking(candidates@, picks@, limits),
        forall|k: int| 0 <= k < picks@.len() ==> (#[trigger] picks@[k]) < candidates.len(),
{
    let mut picks: Vec<usize> = Vec::new();
    loop
        invariant
            forall|k: int| 0 <= k < picks@.len() ==> (#[trigger] picks@[k]) < candidates.len(),
            forall|k: int|
                0 <= k < picks@.len() ==> is_next_pick(
                    candidates@,
                    (#[trigger] picks@[k]) as int,
                    picks@.take(k),
                    limits,
                ),
        decreases open_count(candidates@, picks@, limits, candidates@.len() as int),
    {
        match next_pick(candidates, &picks, limits) {
            None => {
                return picks;
            },
            Some(pick) => {
                let ghost before = picks@;
                proof {
                    lemma_pick_shrinks(
                        candidates@,
                        before,
                        limits,
                        pick,
                        candidates@.len() as int,
                    );
                }
                picks.push(pick);
                proof {
                    assert(picks@.take(before.len() as int) =~= before);
                    assert forall|k: int| 0 <= k < picks@.len() implies is_next_pick(
                        candidates@,
                        (#[trigger] picks@[k]) as int,
                        picks@.take(k),
                        limits,
                    ) by {
                        if k < before.len() {
                            assert(picks@.take(k) =~= before.take(k));
                            assert(picks@[k] == before[k]);
                        }
                    }
                }
            },
        }
    }
}

/// The records of the ranked candidates.
pub open spec fn is_report(
    candidates: Seq<Candidate>,
    limits: Thresholds,
    report: Seq<FoundEmailData>,
) -> bool {
    exists|picks: Seq<usize>|
        {
            &&& #[trigger] is_ranking(candidates, picks, limits)
            &&& picks.len() == report.len()
            &&& forall|k: int|
                0 <= k < picks.len() ==> picks[k] < candidates.len() && (#[trigger] report[k])@
                    == candidates[picks[k] as int].found_view()
        }
}

/// The final list: the candidates that are reported, ranked, each address
/// once.
pub fn final_report(candidates: &Vec<Candidate>, limits: Thresholds) -> (report: Vec<
    FoundEmailData,
>)
    ensures
        is_report(candidates@, limits, report@),
{
    let picks = ranked_indices(candidates, limits);
    let mut report: Vec<FoundEmailData> = Vec::new();
    let mut k: usize = 0;
    while k < picks.len()
        invariant
            k <= picks.len(),
            report@.len() == k,
            forall|m: int| 0 <= m < picks@.len() ==> (#[trigger] picks@[m]) < candidates.len(),
            forall|m: int|
                0 <= m < k ==> (#[trigger] report@[m])@ == candidates@[picks@[m] as int].found_view(),
        decreases picks.len() - k,
    {
        report.push(candidates[picks[k]].to_found());
        k += 1;
    }
    report
}

/// A ranking runs from the highest confidence to the lowest.
pub proof fn lemma_ranking_descends(
    candidates: Seq<Candidate>,
    picks: Seq<usize>,
    limits: Thresholds,
    a: int,
    b: int,
)
    requires
        is_ranking(candidates, picks, limits),
        0 <= a <= b < picks.len(),
    ensures
        candidates[picks[a] as int].confidence >= candidates[picks[b] as int].confidence,
{
    if a < b {
        let first = picks.take(a);
        let later = picks.take(b);
        assert(is_next_pick(candidates, picks[a] as int, first, limits));
        assert(is_next_pick(candidates, picks[b] as int, later, limits));
        assert forall|k: int| 0 <= k < first.len() implies candidates[(
        #[trigger] first[k]) as int].email@ != candidates[picks[b] as int].email@ by {
            assert(later[k] == first[k]);
        }
        assert(eligible(candidates, picks[b] as int, first, limits));
    }
}

/// A ranking names no address twice.
pub proof fn lemma_ranking_has_each_address_once(
    candidates: Seq<Candidate>,
    picks: Seq<usize>,
    limits: Thresholds,
    a: int,
    b: int,
)
    requires
        is_ranking(candidates, picks, limits),
        0 <= a < b < picks.len(),
    ensures
        candidates[picks[a] as int].email@ != candidates[picks[b] as int].email@,
{
    let later = picks.take(b);
    assert(is_next_pick(candidates, picks[b] as int, later, limits));
    assert(later[a] == picks[a]);
}

/// Every candidate in a ranking reaches the threshold for its kind, and
/// none was confirmed not to exist.
pub proof fn lemma_ranking_keeps_to_thresholds(
    candidates: Seq<Candidate>,
    picks: Seq<usize>,
    limits: Thresholds,
    k: int,
)
    requires
        is_ranking(candidates, picks, limits),
        0 <= k < picks.len(),
    ensures
        0 <= picks[k] < candidates.len(),
        candidates[picks[k] as int].verification_status != VerificationStatus::Confirmed(false),
        candidates[picks[k] as int].is_generic ==> candidates[picks[k] as int].confidence
            >= limits.generic,
        !candidates[picks[k] as int].is_generic ==> candidates[picks[k] as int].confidence
            >= limits.personal,
{
    assert(is_next_pick(candidates, picks[k] as int, picks.take(k), limits));
}

/// A candidate that was confirmed not to exist is in no ranking.
pub proof fn lemma_rejected_is_never_ranked(
    candidates: Seq<Candidate>,
    picks: Seq<usize>,
    limits: Thresholds,
    i: int,
)
    requires
        is_ranking(candidates, picks, limits),
        0 <= i < candidates.len(),
        candidates[i].verification_status == VerificationStatus::Confirmed(false),
    ensures
        forall|k: int| 0 <= k < picks.len() ==> picks[k] != i,
{
    assert forall|k: int| 0 <= k < picks.len() implies picks[k] != i by {
        lemma_ranking_keeps_to_thresholds(candidates, picks, limits, k);
    }
}

/// The address of every candidate that may be reported is in the ranking,
/// held by a candidate that ranks no lower.
pub proof fn lemma_ranking_leaves_nothing_out(
    candidates: Seq<Candidate>,
    picks: Seq<usize>,
    limits: Thresholds,
    i: int,
)
    requires
        is_ranking(candidates, picks, limits),
        0 <= i < candidates.len(),
        reportable(candidates[i], limits),
    ensures
        exists|k: int|
            0 <= k < picks.len() && candidates[(#[trigger] picks[k]) as int].email@
                == candidates[i].email@ && outranks(candidates, picks[k] as int, i),
{
    assert(!eligible(candidates, i, picks, limits));
    let k = choose|k: int|
        0 <= k < picks.len() && candidates[(#[trigger] picks[k]) as int].email@
            == candidates[i].email@;
    lemma_first_holder_outranks(candidates, picks, limits, i, k);
}

/// Among the picks that hold the address of candidate `i`, the first ranks
/// no lower than `i`.
proof fn lemma_first_holder_outranks(
    candidates: Seq<Candidate>,
    picks: Seq<usize>,
    limits: Thresholds,
    i: int,
    k: int,
)
    requires
        is_ranking(candidates, picks, limits),
        0 <= i < candidates.len(),
        reportable(candidates[i], limits),
        0 <= k < picks.len(),
        candidates[picks[k] as int].email@ == candidates[i].email@,
    ensures
        exists|m: int|
            0 <= m < picks.len() && candidates[(#[trigger] picks[m]) as int].email@
                == candidates[i].email@ && outranks(candidates, picks[m] as int, i),
    decreases k,
{
    let earlier = picks.take(k);
    assert(is_next_pick(candidates, picks[k] as int, earlier, limits));
    if unreported(candidates, i, earlier) {
        assert(eligible(candidates, i, earlier, limits));
        assert(outranks(candidates, picks[k] as int, i));
    } else {
        let m = choose|m: int|
            0 <= m < earlier.len() && candidates[(#[trigger] earlier[m]) as int].email@
                == candidates[i].email@;
        assert(earlier[m] == picks[m]);
        lemma_first_holder_outranks(candidates, picks, limits, i, m);
    }
}

} // verus!
