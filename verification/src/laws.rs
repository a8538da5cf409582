//! The properties the store is answerable for, stated over the views its
//! contracts use and proved once and for all.

use vstd::prelude::*;
use vstd::seq_lib::lemma_seq_contains_after_push;
use vstd::seq_lib::lemma_seq_union_to_multiset_commutative;

use crate::facts::AnnotationView;
use crate::location::InclusiveRange;
use crate::location::Location;
use crate::location::SourceRange;
use crate::location::lemma_to_inclusive_contains;
use crate::tree::EntryView;
use crate::tree::facts_of;
use crate::tree::overlapping_entries;
use crate::tree::point_probe;

verus! {

/// A query returns exactly the stored entries whose range overlaps the
/// probe: no entry is invented, and none that overlaps is passed over.
pub proof fn lemma_query_membership(entries: Seq<EntryView>, probe: InclusiveRange, e: EntryView)
    ensures
        overlapping_entries(entries, probe).contains(e) <==> (entries.contains(e)
            && e.0.overlaps_spec(probe)),
    decreases entries.len(),
{
    if entries.len() > 0 {
        let rest = entries.drop_last();
        lemma_query_membership(rest, probe, e);
        lemma_seq_contains_after_push(overlapping_entries(rest, probe), entries.last(), e);
        lemma_seq_contains_after_push(rest, entries.last(), e);
        assert(rest.push(entries.last()) =~= entries);
    }
}

/// A query whose probe overlaps no stored entry returns nothing.
pub proof fn lemma_query_empty(entries: Seq<EntryView>, probe: InclusiveRange)
    requires
        forall|j: int| 0 <= j < entries.len() ==> !(#[trigger] entries[j]).0.overlaps_spec(probe),
    ensures
        overlapping_entries(entries, probe) == Seq::<EntryView>::empty(),
    decreases entries.len(),
{
    if entries.len() > 0 {
        lemma_query_empty(entries.drop_last(), probe);
    }
}

/// Containment correctness.  After filing `fact` over the half-open range
/// `place`, a location query finds the new entry at every position `place`
/// covers; at a position `place` does not cover, the new entry is not
/// found, and if no older entry covers that position either, nothing is.
pub proof fn lemma_containment(
    entries: Seq<EntryView>,
    place: SourceRange,
    fact: AnnotationView,
    loc: Location,
)
    requires
        place.wf(),
    ensures
        place.contains_spec(loc) ==> overlapping_entries(
            entries.push((place.to_inclusive_spec(), fact)),
            point_probe(loc),
        ).contains((place.to_inclusive_spec(), fact)),
        place.contains_spec(loc) ==> facts_of(
            overlapping_entries(entries.push((place.to_inclusive_spec(), fact)), point_probe(loc)),
        ).contains(fact),
        !place.contains_spec(loc) ==> !overlapping_entries(
            entries.push((place.to_inclusive_spec(), fact)),
            point_probe(loc),
        ).contains((place.to_inclusive_spec(), fact)),
        !place.contains_spec(loc) && (forall|j: int|
            0 <= j < entries.len() ==> !(#[trigger] entries[j]).0.contains_spec(loc))
            ==> overlapping_entries(entries.push((place.to_inclusive_spec(), fact)), point_probe(loc))
            == Seq::<EntryView>::empty(),
{
    let stored = place.to_inclusive_spec();
    let probe = point_probe(loc);
    let pushed = entries.push((stored, fact));
    lemma_to_inclusive_contains(place, loc);
    assert(stored.overlaps_spec(probe) <==> stored.contains_spec(loc));
    lemma_query_membership(pushed, probe, (stored, fact));
    if place.contains_spec(loc) {
        assert(pushed[entries.len() as int] == (stored, fact));
        assert(pushed.contains((stored, fact)));
        let result = overlapping_entries(pushed, probe);
        let idx = choose|j: int| 0 <= j < result.len() && result[j] == (stored, fact);
        assert(facts_of(result)[idx] == fact);
        assert(facts_of(result).contains(fact));
    }
    if !place.contains_spec(loc) && (forall|j: int|
        0 <= j < entries.len() ==> !(#[trigger] entries[j]).0.contains_spec(loc)) {
        assert forall|j: int| 0 <= j < pushed.len() implies !(#[trigger] pushed[j]).0.overlaps_spec(
            probe,
        ) by {
            if j < entries.len() {
                assert(pushed[j] == entries[j]);
            }
        }
        lemma_query_empty(pushed, probe);
    }
}

/// Range query boundary.  A probe over the half-open range `[a, b)`
/// returns every stored entry whose range reaches `b`'s predecessor, and
/// never one whose range starts at `b` or beyond it.
pub proof fn lemma_range_boundary(entries: Seq<EntryView>, probe: SourceRange, i: int)
    requires
        probe.wf(),
        0 <= i < entries.len(),
    ensures
        entries[i].0.wf() && entries[i].0.contains_spec(probe.end.pred_spec())
            ==> overlapping_entries(entries, probe.to_inclusive_spec()).contains(entries[i]),
        entries[i].0.start.as_int() >= probe.end.as_int() ==> !overlapping_entries(
            entries,
            probe.to_inclusive_spec(),
        ).contains(entries[i]),
{
    lemma_query_membership(entries, probe.to_inclusive_spec(), entries[i]);
    assert(entries.contains(entries[i]));
}

/// The stored, inclusive forms of two half-open ranges overlap exactly
/// when the half-open ranges themselves share a position: converting the
/// bounds loses nothing a range query could see.
pub proof fn lemma_overlap_shares_a_position(stored: SourceRange, probe: SourceRange)
    requires
        stored.wf(),
        probe.wf(),
    ensures
        stored.to_inclusive_spec().overlaps_spec(probe.to_inclusive_spec()) <==> (exists|loc: Location|
            stored.contains_spec(loc) && probe.contains_spec(loc)),
{
    if stored.to_inclusive_spec().overlaps_spec(probe.to_inclusive_spec()) {
        let witness = if stored.start.as_int() >= probe.start.as_int() {
            stored.start
        } else {
            probe.start
        };
        assert(stored.contains_spec(witness) && probe.contains_spec(witness));
    }
}

/// Merge associativity of result sets.  Merging is associative for the
/// entry sequence itself, and so in particular for the multiset of
/// `(range, fact)` pairs a full query returns.
pub proof fn lemma_merge_associative(a: Seq<EntryView>, b: Seq<EntryView>, c: Seq<EntryView>)
    ensures
        (a + b) + c == a + (b + c),
        ((a + b) + c).to_multiset() == (a + (b + c)).to_multiset(),
{
    assert((a + b) + c =~= a + (b + c));
}

/// Merging is commutative for the multiset of `(range, fact)` pairs,
/// though not for their order.
pub proof fn lemma_merge_commutative(a: Seq<EntryView>, b: Seq<EntryView>)
    ensures
        (a + b).to_multiset() == (b + a).to_multiset(),
{
    lemma_seq_union_to_multiset_commutative(a, b);
}

} // verus!
