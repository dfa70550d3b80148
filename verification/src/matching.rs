//! The match engine: which authorizations are for exactly the queried
//! prefix, and the verdict that follows from them.

use vstd::prelude::*;
use crate::prefix::RoutePrefix;
use crate::roa::RouteOrigin;

verus! {

/// The outcome of a validation.
#[derive(Clone, Copy, Debug, PartialEq, Eq, Structural)]
pub enum Verdict {
    /// No authorization is registered for exactly this prefix.
    NotFound,
    /// Authorizations exist and no origin AS was asked about.
    Found,
    /// The AS asked about is among the authorized origins.
    Valid,
    /// Authorizations exist, none of them for the AS asked about.
    Invalid,
}

/// The authorizations found for a prefix, each as its origin AS and the
/// maximum length in force, in the order of the set searched, with the
/// verdict drawn from them.
#[derive(Debug, PartialEq, Eq)]
pub struct MatchResult {
    pub entries: Vec<(u32, u8)>,
    pub verdict: Verdict,
}

/// What a match result holds: the entries as a sequence, and the verdict.
pub struct Evaluation {
    pub entries: Seq<(u32, u8)>,
    pub verdict: Verdict,
}

impl View for MatchResult {
    type V = Evaluation;

    open spec fn view(&self) -> Evaluation {
        Evaluation { entries: self.entries@, verdict: self.verdict }
    }
}

/// The entry that an authorization contributes to a query for `target`: its
/// origin AS and maximum length in force if it is for exactly that prefix,
/// nothing otherwise.
pub open spec fn entry_for(roa: RouteOrigin, target: RoutePrefix) -> Option<(u32, u8)> {
    if roa.authorizes(target) {
        Some((roa.asn, roa.effective_max_len()))
    } else {
        None
    }
}

/// The entries of all authorizations in `roas` that are for exactly `target`.
pub open spec fn authorizing_entries(roas: Seq<RouteOrigin>, target: RoutePrefix) -> Seq<(u32, u8)> {
    roas.filter_map(|roa: RouteOrigin| entry_for(roa, target))
}

/// Whether some entry has `asn` as its origin AS.
pub open spec fn names_origin(entries: Seq<(u32, u8)>, asn: u32) -> bool {
    exists|i: int| 0 <= i < entries.len() && (#[trigger] entries[i]).0 == asn
}

/// The verdict that follows from the entries found and the AS asked about.
pub open spec fn verdict_of(entries: Seq<(u32, u8)>, asn: Option<u32>) -> Verdict {
    if entries.len() == 0 {
        Verdict::NotFound
    } else {
        match asn {
            None => Verdict::Found,
            Some(asked) => if names_origin(entries, asked) {
                Verdict::Valid
            } else {
                Verdict::Invalid
            },
        }
    }
}

/// The evaluation of a query for `target`, and for the AS `asn` if one is
/// asked about, against the authorizations `roas`.
pub open spec fn evaluation(roas: Seq<RouteOrigin>, target: RoutePrefix, asn: Option<u32>) -> Evaluation {
    Evaluation {
        entries: authorizing_entries(roas, target),
        verdict: verdict_of(authorizing_entries(roas, target), asn),
    }
}

/// The origin AS of each entry, in order.
pub open spec fn origins_of(entries: Seq<(u32, u8)>) -> Seq<u32> {
    entries.map_values(|entry: (u32, u8)| entry.0)
}

/// Collects the entries of the authorizations that are for exactly `target`.
pub fn find_entries(roas: &Vec<RouteOrigin>, target: &RoutePrefix) -> (entries: Vec<(u32, u8)>)
    ensures
        entries@ == authorizing_entries(roas@, *target),
{
    let ghost pick = |roa: RouteOrigin| entry_for(roa, *target);
    let mut entries: Vec<(u32, u8)> = Vec::new();
    let mut i: usize = 0;
    while i < roas.len()
        invariant
            i <= roas.len(),
            pick == |roa: RouteOrigin| entry_for(roa, *target),
            entries@ == roas@.take(i as int).filter_map(pick),
        decreases roas.len() - i,
    {
        proof {
            roas@.lemma_filter_map_take_succ(pick, i as int);
        }
        let roa = &roas[i];
        if roa.is_for(target) {
            entries.push((roa.asn, roa.resolved_max_len()));
        }
        i += 1;
    }
    proof {
        assert(roas@.take(roas.len() as int) == roas@);
    }
    entries
}

/// Draws the verdict from the entries found and the AS asked about.
pub fn derive_verdict(entries: &Vec<(u32, u8)>, asn: Option<u32>) -> (verdict: Verdict)
    ensures
        verdict == verdict_of(entries@, asn),
{
    if entries.len() == 0 {
        return Verdict::NotFound;
    }
    match asn {
        None => Verdict::Found,
        Some(asked) => {
            let mut i: usize = 0;
            while i < entries.len()
                invariant
                    i <= entries.len(),
                    asn == Some(asked),
                    forall|j: int| 0 <= j < i ==> (#[trigger] entries@[j]).0 != asked,
                decreases entries.len() - i,
            {
                if entries[i].0 == asked {
                    assert(entries@[i as int].0 == asked);
                    return Verdict::Valid;
                }
                i += 1;
            }
            Verdict::Invalid
        },
    }
}

/// Evaluates a query: finds the authorizations for exactly `target` in
/// `roas` and draws the verdict for the AS asked about, if any.
pub fn evaluate(roas: &Vec<RouteOrigin>, target: &RoutePrefix, asn: Option<u32>) -> (result:
    MatchResult)
    ensures
        result@ == evaluation(roas@, *target, asn),
{
    let entries = find_entries(roas, target);
    let verdict = derive_verdict(&entries, asn);
    MatchResult { entries, verdict }
}

impl MatchResult {
    /// The authorized origin AS numbers, one for each entry, in order.
    pub fn authorized_asns(&self) -> (asns: Vec<u32>)
        ensures
            asns@ == origins_of(self.entries@),
    {
        let mut asns: Vec<u32> = Vec::new();
        let mut i: usize = 0;
        while i < self.entries.len()
            invariant
                i <= self.entries.len(),
                asns@ == origins_of(self.entries@.take(i as int)),
            decreases self.entries.len() - i,
        {
            asns.push(self.entries[i].0);
            proof {
                assert(self.entries@.take(i + 1) == self.entries@.take(i as int).push(
                    self.entries@[i as int],
                ));
            }
            i += 1;
        }
        proof {
            assert(self.entries@.take(self.entries.len() as int) == self.entries@);
        }
        asns
    }
}

/// Exact match only: a query finds entries if and only if some
/// authorization in the set is for the queried prefix itself, equal in
/// family, address and length. An authorization for a covering or a more
/// specific prefix contributes nothing.
pub proof fn lemma_exact_match_only(roas: Seq<RouteOrigin>, target: RoutePrefix)
    ensures
        authorizing_entries(roas, target).len() > 0 <==> exists|i: int|
            0 <= i < roas.len() && (#[trigger] roas[i]).prefix == target,
    decreases roas.len(),
{
    if roas.len() > 0 {
        let rest = roas.drop_last();
        lemma_exact_match_only(rest, target);
        if roas.last().prefix == target {
            assert(roas[roas.len() - 1].prefix == target);
        } else if exists|i: int| 0 <= i < roas.len() && (#[trigger] roas[i]).prefix == target {
            let i = choose|i: int| 0 <= i < roas.len() && (#[trigger] roas[i]).prefix == target;
            assert(rest[i].prefix == target);
        } else {
            assert forall|i: int| 0 <= i < rest.len() implies (#[trigger] rest[i]).prefix
                != target by {
                assert(roas[i].prefix != target);
            }
        }
    }
}

/// The entries found are those of the exact matches and no others: a pair
/// is among the entries of a query if and only if some authorization in the
/// set is for the queried prefix itself and has that origin AS and that
/// maximum length in force.
pub proof fn lemma_entries_are_the_exact_matches(
    roas: Seq<RouteOrigin>,
    target: RoutePrefix,
    entry: (u32, u8),
)
    ensures
        authorizing_entries(roas, target).contains(entry) <==> exists|i: int|
            0 <= i < roas.len() && (#[trigger] roas[i]).prefix == target && entry == (
                roas[i].asn,
                roas[i].effective_max_len(),
            ),
    decreases roas.len(),
{
    let found = authorizing_entries(roas, target);
    if roas.len() > 0 {
        let rest = roas.drop_last();
        let last = roas.last();
        let found_before = authorizing_entries(rest, target);
        lemma_entries_are_the_exact_matches(rest, target, entry);
        if found.contains(entry) {
            let j = choose|j: int| 0 <= j < found.len() && found[j] == entry;
            if j < found_before.len() {
                assert(found_before[j] == entry);
                let i = choose|i: int|
                    0 <= i < rest.len() && (#[trigger] rest[i]).prefix == target && entry == (
                        rest[i].asn,
                        rest[i].effective_max_len(),
                    );
                assert(roas[i].prefix == target);
            } else {
                assert(roas[roas.len() - 1].prefix == target);
            }
        }
        if exists|i: int|
            0 <= i < roas.len() && (#[trigger] roas[i]).prefix == target && entry == (
                roas[i].asn,
                roas[i].effective_max_len(),
            ) {
            let i = choose|i: int|
                0 <= i < roas.len() && (#[trigger] roas[i]).prefix == target && entry == (
                    roas[i].asn,
                    roas[i].effective_max_len(),
                );
            if i < rest.len() {
                assert(rest[i].prefix == target);
                let j = choose|j: int| 0 <= j < found_before.len() && found_before[j] == entry;
                assert(found[j] == entry);
            } else {
                assert(found[found.len() - 1] == entry);
            }
        }
    }
}

/// Narrowing by origin AS: with authorizations for the queried prefix in
/// the set, the verdict for an AS is `Valid` if and only if one of them
/// names that AS as its origin, and `Invalid` otherwise.
pub proof fn lemma_valid_iff_authorized(roas: Seq<RouteOrigin>, target: RoutePrefix, asked: u32)
    ensures
        evaluation(roas, target, Some(asked)).verdict == Verdict::Valid <==> exists|i: int|
            0 <= i < roas.len() && (#[trigger] roas[i]).prefix == target && roas[i].asn == asked,
        evaluation(roas, target, Some(asked)).verdict == Verdict::Invalid <==> {
            &&& exists|i: int| 0 <= i < roas.len() && (#[trigger] roas[i]).prefix == target
            &&& forall|i: int|
                0 <= i < roas.len() && (#[trigger] roas[i]).prefix == target ==> roas[i].asn
                    != asked
        },
{
    let found = authorizing_entries(roas, target);
    lemma_exact_match_only(roas, target);
    if names_origin(found, asked) {
        let j = choose|j: int| 0 <= j < found.len() && (#[trigger] found[j]).0 == asked;
        assert(found.contains(found[j]));
        lemma_entries_are_the_exact_matches(roas, target, found[j]);
    }
    if exists|i: int|
        0 <= i < roas.len() && (#[trigger] roas[i]).prefix == target && roas[i].asn == asked {
        let i = choose|i: int|
            0 <= i < roas.len() && (#[trigger] roas[i]).prefix == target && roas[i].asn == asked;
        let entry = (roas[i].asn, roas[i].effective_max_len());
        lemma_entries_are_the_exact_matches(roas, target, entry);
        let j = choose|j: int| 0 <= j < found.len() && found[j] == entry;
        assert(found[j].0 == asked);
    }
}

/// A query against a set in which no authorization is for the queried
/// prefix itself finds nothing, whatever AS is asked about.
pub proof fn lemma_no_exact_match_not_found(
    roas: Seq<RouteOrigin>,
    target: RoutePrefix,
    asn: Option<u32>,
)
    requires
        forall|i: int| 0 <= i < roas.len() ==> (#[trigger] roas[i]).prefix != target,
    ensures
        evaluation(roas, target, asn) == (Evaluation {
            entries: Seq::empty(),
            verdict: Verdict::NotFound,
        }),
{
    lemma_exact_match_only(roas, target);
    assert(authorizing_entries(roas, target) =~= Seq::<(u32, u8)>::empty());
}

/// Family separation: an authorization of one family is never for a prefix
/// of the other, whatever their addresses and lengths, and a query against
/// a set that holds only the other family finds nothing.
pub proof fn lemma_family_separation(
    roas: Seq<RouteOrigin>,
    target: RoutePrefix,
    asn: Option<u32>,
)
    requires
        forall|i: int| 0 <= i < roas.len() ==> (#[trigger] roas[i]).prefix.family != target.family,
    ensures
        forall|i: int| 0 <= i < roas.len() ==> !(#[trigger] roas[i]).authorizes(target),
        evaluation(roas, target, asn).entries.len() == 0,
        evaluation(roas, target, asn).verdict == Verdict::NotFound,
{
    lemma_no_exact_match_not_found(roas, target, asn);
}

/// Maximum length by default: an authorization without a maximum length
/// that is for the queried prefix contributes the length of that prefix as
/// its maximum length.
pub proof fn lemma_max_len_defaults(roa: RouteOrigin, target: RoutePrefix)
    requires
        roa.max_len is None,
        roa.authorizes(target),
    ensures
        entry_for(roa, target) == Some((roa.asn, target.len)),
{
}

/// Evaluation is a function of the set and the query: two results of
/// evaluating the same query against the same set hold the same entries
/// and the same verdict.
pub proof fn lemma_evaluation_repeatable(
    first: MatchResult,
    second: MatchResult,
    roas: Seq<RouteOrigin>,
    target: RoutePrefix,
    asn: Option<u32>,
)
    requires
        first@ == evaluation(roas, target, asn),
        second@ == evaluation(roas, target, asn),
    ensures
        first@ == second@,
        first.entries@ == second.entries@,
        first.verdict == second.verdict,
{
}

} // verus!
