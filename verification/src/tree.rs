//! The annotation tree: an interval-indexed multimap from inclusive location
//! ranges to semantic facts.
//!
//! The store is a flat list of `(range, fact)` entries kept in insertion
//! order, which is also its native iteration order: deterministic for a
//! given tree state, unspecified across disjoint ranges.  The tree only
//! grows; there is no deletion.  An explicit element counter records every
//! insert across the tree's lifetime, including entries arriving through a
//! merge.

use vstd::prelude::*;

use crate::facts::Annotation;
use crate::facts::AnnotationView;
use crate::location::InclusiveRange;
use crate::location::Location;
use crate::location::SourceRange;

verus! {

broadcast use vstd::std_specs::vec::group_vec_axioms;

/// One stored entry, as contracts speak of it: the inclusive range and the
/// view of the fact filed under it.
pub type EntryView = (InclusiveRange, AnnotationView);

/// The views of a list of stored entries, in order.
pub open spec fn entry_views(s: Seq<(InclusiveRange, Annotation)>) -> Seq<EntryView> {
    s.map_values(|e: (InclusiveRange, Annotation)| (e.0, e.1@))
}

/// The entries of `entries` whose range shares a position with `probe`, in
/// order.  This is what every query of the tree returns.
pub open spec fn overlapping_entries(entries: Seq<EntryView>, probe: InclusiveRange) -> Seq<
    EntryView,
>
    decreases entries.len(),
{
    if entries.len() == 0 {
        Seq::empty()
    } else {
        let rest = overlapping_entries(entries.drop_last(), probe);
        if entries.last().0.overlaps_spec(probe) {
            rest.push(entries.last())
        } else {
            rest
        }
    }
}

/// The probe an exact-location query uses: the single position `loc`.
pub open spec fn point_probe(loc: Location) -> InclusiveRange {
    InclusiveRange { start: loc, end: loc }
}

/// The facts of a list of entries, in order, ranges discarded.
pub open spec fn facts_of(entries: Seq<EntryView>) -> Seq<AnnotationView> {
    entries.map_values(|e: EntryView| e.1)
}

/// An interval-indexed multimap from inclusive location ranges to semantic
/// facts.  Multiple facts may share or overlap a range; overlap is the
/// normal case.
#[derive(Debug)]
pub struct AnnotationTree {
    entries: Vec<(InclusiveRange, Annotation)>,
    count: usize,
}

impl View for AnnotationTree {
    type V = Seq<EntryView>;

    /// The tree is the sequence of its entries in native order.
    closed spec fn view(&self) -> Seq<EntryView> {
        entry_views(self.entries@)
    }
}

impl Default for AnnotationTree {
    /// Creates an empty tree.
    fn default() -> (r: Self)
        ensures
            r.wf(),
            r@ == Seq::<EntryView>::empty(),
    {
        let r = AnnotationTree { entries: Vec::new(), count: 0 };
        proof {
            assert(r@ =~= Seq::<EntryView>::empty());
        }
        r
    }
}

impl AnnotationTree {
    /// A tree is well formed when its counter matches its entry list --
    /// the tree never shrinks, so that is the number of successful inserts
    /// over its lifetime -- and every stored range is non-empty.  Every
    /// tree the library hands out is well formed.
    pub closed spec fn wf(&self) -> bool {
        &&& self.count == self.entries@.len()
        &&& forall|i: int| 0 <= i < self.entries@.len() ==> (#[trigger] self.entries@[i]).0.wf()
    }

    /// Files `value` under the half-open range `place`, converted to the
    /// inclusive form the store keeps.  The caller must never pass an empty
    /// or inverted range.
    pub fn insert(&mut self, place: SourceRange, value: Annotation)
        requires
            old(self).wf(),
            place.wf(),
        ensures
            final(self).wf(),
            final(self)@ == old(self)@.push((place.to_inclusive_spec(), value@)),
            final(self)@.len() == old(self)@.len() + 1,
    {
        let ghost fact_view = value@;
        let stored = place.to_inclusive();
        self.entries.push((stored, value));
        proof {
            // the entry list just grew past the old counter, so the counter
            // cannot yet have reached the largest length a vector can have
            assert(vstd::std_specs::vec::spec_vec_len(&self.entries) == self.entries@.len());
        }
        self.count = self.count + 1;
        proof {
            assert(self@ =~= old(self)@.push((place.to_inclusive_spec(), fact_view)));
        }
    }

    /// Absorbs every entry of `other`, appending them after this tree's own
    /// in native order, and adds `other`'s count to this one's.  Merging an
    /// empty tree changes nothing.
    pub fn merge(&mut self, other: AnnotationTree)
        requires
            old(self).wf(),
            other.wf(),
        ensures
            final(self).wf(),
            final(self)@ == old(self)@ + other@,
            final(self)@.len() == old(self)@.len() + other@.len(),
            other@.len() == 0 ==> final(self)@ == old(self)@,
    {
        let ghost absorbed = other@;
        let AnnotationTree { entries: mut other_entries, count: other_count } = other;
        self.entries.append(&mut other_entries);
        proof {
            // the combined entry list has a vector's length, so the two
            // counters it matches sum to no more than that length can be
            assert(vstd::std_specs::vec::spec_vec_len(&self.entries) == self.entries@.len());
        }
        self.count = self.count + other_count;
        proof {
            assert(self@ =~= old(self)@ + absorbed);
            if absorbed.len() == 0 {
                assert(self@ =~= old(self)@);
            }
        }
    }

    /// The number of inserts the tree has seen over its lifetime, those
    /// arriving through merges included; constant-time.
    pub fn len(&self) -> (r: usize)
        requires
            self.wf(),
        ensures
            r == self@.len(),
    {
        self.count
    }

    /// Whether the tree holds no entries at all.
    pub fn is_empty(&self) -> (r: bool)
        requires
            self.wf(),
        ensures
            r == (self@.len() == 0),
    {
        self.count == 0
    }

    /// Every entry in native order, each fact copied.
    pub fn iter(&self) -> (r: Vec<(InclusiveRange, Annotation)>)
        ensures
            entry_views(r@) == self@,
    {
        let mut out: Vec<(InclusiveRange, Annotation)> = Vec::new();
        let mut i: usize = 0;
        while i < self.entries.len()
            invariant
                i <= self.entries@.len(),
                entry_views(out@) == self@.take(i as int),
            decreases self.entries@.len() - i,
        {
            let ghost out_before = out@;
            let ghost views_before = entry_views(out@);
            let entry = &self.entries[i];
            out.push((entry.0, entry.1.clone()));
            i = i + 1;
            proof {
                assert(views_before.len() == out_before.len());
                assert(entry_views(out@).len() == out@.len());
                assert(entry_views(out@) =~= self@.take(i as int));
            }
        }
        proof {
            assert(self@.take(self@.len() as int) =~= self@);
        }
        out
    }

    /// Every entry whose range shares a position with `probe`, in native
    /// order, each fact copied.
    fn collect_overlapping(&self, probe: InclusiveRange) -> (r: Vec<(InclusiveRange, Annotation)>)
        ensures
            entry_views(r@) == overlapping_entries(self@, probe),
    {
        let mut out: Vec<(InclusiveRange, Annotation)> = Vec::new();
        let mut i: usize = 0;
        while i < self.entries.len()
            invariant
                i <= self.entries@.len(),
                entry_views(out@) == overlapping_entries(self@.take(i as int), probe),
            decreases self.entries@.len() - i,
        {
            let ghost out_before = out@;
            let ghost before = entry_views(out@);
            let entry = &self.entries[i];
            if entry.0.overlaps(probe) {
                out.push((entry.0, entry.1.clone()));
                proof {
                    assert(before.len() == out_before.len());
                    assert(entry_views(out@).len() == out@.len());
                    assert(entry_views(out@) =~= before.push(self@[i as int]));
                }
            }
            i = i + 1;
            proof {
                assert(self@.take(i as int).drop_last() =~= self@.take(i as int - 1));
                assert(self@.take(i as int).last() == self@[i as int - 1]);
            }
        }
        proof {
            assert(self@.take(self@.len() as int) =~= self@);
        }
        out
    }

    /// All facts whose original half-open range covers `loc`: an inserted
    /// `[start, end)` is found at exactly the positions
    /// `start <= loc < end`.  The result may be empty; its order is the
    /// native order.
    pub fn get_location(&self, loc: Location) -> (r: Vec<(InclusiveRange, Annotation)>)
        ensures
            entry_views(r@) == overlapping_entries(self@, point_probe(loc)),
    {
        self.collect_overlapping(InclusiveRange { start: loc, end: loc })
    }

    /// All entries whose stored range overlaps the half-open probe
    /// `[place.start, place.end)`, converted to its inclusive form.  The
    /// caller must never pass an empty or inverted range.
    pub fn get_range(&self, place: SourceRange) -> (r: Vec<(InclusiveRange, Annotation)>)
        requires
            place.wf(),
        ensures
            entry_views(r@) == overlapping_entries(self@, place.to_inclusive_spec()),
    {
        let probe = place.to_inclusive();
        self.collect_overlapping(probe)
    }

    /// All entries whose stored range overlaps the already-inclusive probe,
    /// for callers that have inclusive bounds in hand and want no second
    /// conversion.  The caller must never pass an inverted range.
    pub fn get_range_raw(&self, place: InclusiveRange) -> (r: Vec<(InclusiveRange, Annotation)>)
        requires
            place.wf(),
        ensures
            entry_views(r@) == overlapping_entries(self@, place),
    {
        self.collect_overlapping(place)
    }
}

impl Annotation {
    /// Resolution: rewrites a raw return marker into its structured form.
    ///
    /// A `ReturnOperation` over a sub-range becomes a `ReturnStatement`
    /// holding every fact found in that sub-range of the tree as it exists
    /// now, in native order, ranges discarded; a sub-range with no facts
    /// yields an empty sequence.  Every other variant passes through
    /// unchanged.  Resolution does not recurse: facts are embedded
    /// verbatim.
    pub fn resolved(self, annotation_tree: &AnnotationTree) -> (r: Annotation)
        requires
            self matches Annotation::ReturnOperation(place) ==> place.wf(),
        ensures
            self matches Annotation::ReturnOperation(place) ==> r@
                == AnnotationView::ReturnStatement(
                facts_of(overlapping_entries(annotation_tree@, place.to_inclusive_spec())),
            ),
            !(self is ReturnOperation) ==> r == self,
    {
        match self {
            Annotation::ReturnOperation(place) => {
                let pairs = annotation_tree.get_range(place);
                let ghost found = overlapping_entries(
                    annotation_tree@,
                    place.to_inclusive_spec(),
                );
                proof {
                    assert(entry_views(pairs@).len() == pairs@.len());
                }
                let mut checked: Vec<Annotation> = Vec::new();
                let mut i: usize = 0;
                while i < pairs.len()
                    invariant
                        i <= pairs@.len(),
                        entry_views(pairs@) == found,
                        found.len() == pairs@.len(),
                        checked@.len() == i,
                        forall|k: int| 0 <= k < i ==> (#[trigger] checked@[k])@ == found[k].1,
                    decreases pairs@.len() - i,
                {
                    let entry = &pairs[i];
                    proof {
                        assert(entry_views(pairs@)[i as int] == found[i as int]);
                    }
                    checked.push(entry.1.clone());
                    i = i + 1;
                }
                let ghost copies = checked@;
                let r = Annotation::ReturnStatement { returned_value: checked };
                proof {
                    reveal_with_fuel(<Annotation as View>::view, 2);
                    let lhs = r@->ReturnStatement_0;
                    let rhs = facts_of(found);
                    assert(rhs.len() == found.len());
                    assert forall|k: int| 0 <= k < lhs.len() implies lhs[k] == rhs[k] by {
                        assert(copies[k]@ == found[k].1);
                    }
                    assert(lhs =~= rhs);
                }
                r
            },
            passed_through => passed_through,
        }
    }
}

} // verus!
