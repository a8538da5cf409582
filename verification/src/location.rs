//! Totally ordered source positions and the two range forms built from them.
//!
//! A [`Location`] is a line and a column.  The parser hands the store
//! half-open [`SourceRange`]s; the store keeps them in the inclusive form
//! [`InclusiveRange`], obtained by stepping the exclusive bound back to its
//! immediate predecessor.

use vstd::prelude::*;

verus! {

/// The number of distinct columns a line can hold: one more than the
/// largest `u16` column.
pub const COLUMNS_PER_LINE: u64 = 0x10000;

/// A position in source text: a line and a column within the line, both
/// counted from zero.
#[derive(Clone, Copy, PartialEq, Eq, Structural, Debug, Hash)]
pub struct Location {
    pub line: u32,
    pub column: u16,
}

impl Location {
    /// The position flattened onto a single number line; lines are spaced
    /// one full column range apart, so this map is injective and respects
    /// the (line, column) lexicographic order.
    pub open spec fn as_int(self) -> int {
        self.line as int * COLUMNS_PER_LINE as int + self.column as int
    }

    /// Whether `self` comes no later than `other`.
    pub open spec fn le_spec(self, other: Location) -> bool {
        self.as_int() <= other.as_int()
    }

    /// Whether `self` comes strictly before `other`.
    pub open spec fn lt_spec(self, other: Location) -> bool {
        self.as_int() < other.as_int()
    }

    /// The immediately preceding position: the previous column, or the last
    /// column of the previous line.  Meaningless for the very first position,
    /// which has no predecessor.
    pub open spec fn pred_spec(self) -> Location
        recommends
            self.as_int() > 0,
    {
        if self.column > 0 {
            Location { line: self.line, column: (self.column - 1) as u16 }
        } else {
            Location { line: (self.line - 1) as u32, column: 0xffff }
        }
    }

    /// Steps back to the immediately preceding position.
    pub fn pred(self) -> (r: Location)
        requires
            self.as_int() > 0,
        ensures
            r == self.pred_spec(),
            r.as_int() == self.as_int() - 1,
    {
        if self.column > 0 {
            Location { line: self.line, column: self.column - 1 }
        } else {
            Location { line: self.line - 1, column: 0xffff }
        }
    }

    /// Compares two positions; the order agrees with [`Location::as_int`].
    pub fn le(self, other: Location) -> (r: bool)
        ensures
            r == self.le_spec(other),
    {
        self.line < other.line || (self.line == other.line && self.column <= other.column)
    }
}

/// A half-open range of positions: covers `start` and everything up to but
/// not including `end`.  This is the form the parser produces.
#[derive(Clone, Copy, PartialEq, Eq, Structural, Debug)]
pub struct SourceRange {
    pub start: Location,
    pub end: Location,
}

impl SourceRange {
    /// A half-open range is meaningful only when it is non-empty.
    pub open spec fn wf(self) -> bool {
        self.start.lt_spec(self.end)
    }

    /// Whether the range covers `loc`.
    pub open spec fn contains_spec(self, loc: Location) -> bool {
        self.start.as_int() <= loc.as_int() < self.end.as_int()
    }

    /// The inclusive form of the range: the exclusive upper bound stepped
    /// back to its predecessor.
    pub open spec fn to_inclusive_spec(self) -> InclusiveRange
        recommends
            self.wf(),
    {
        InclusiveRange { start: self.start, end: self.end.pred_spec() }
    }

    /// Converts to the inclusive form the store keeps.
    pub fn to_inclusive(self) -> (r: InclusiveRange)
        requires
            self.wf(),
        ensures
            r == self.to_inclusive_spec(),
            r.wf(),
            r.start == self.start,
            r.end.as_int() == self.end.as_int() - 1,
    {
        InclusiveRange { start: self.start, end: self.end.pred() }
    }
}

/// An inclusive range of positions: covers both bounds.  This is the form
/// the store keeps and the form its low-level queries take.
#[derive(Clone, Copy, PartialEq, Eq, Structural, Debug)]
pub struct InclusiveRange {
    pub start: Location,
    pub end: Location,
}

impl InclusiveRange {
    /// An inclusive range is meaningful only when its bounds are ordered.
    pub open spec fn wf(self) -> bool {
        self.start.le_spec(self.end)
    }

    /// Whether the range covers `loc`.
    pub open spec fn contains_spec(self, loc: Location) -> bool {
        self.start.as_int() <= loc.as_int() <= self.end.as_int()
    }

    /// Whether the two ranges share at least one position.
    pub open spec fn overlaps_spec(self, other: InclusiveRange) -> bool {
        self.start.as_int() <= other.end.as_int() && other.start.as_int() <= self.end.as_int()
    }

    /// Tests whether the two ranges share at least one position.
    pub fn overlaps(self, other: InclusiveRange) -> (r: bool)
        ensures
            r == self.overlaps_spec(other),
    {
        self.start.le(other.end) && other.start.le(self.end)
    }
}

/// A half-open range and its inclusive form cover exactly the same
/// positions.
pub proof fn lemma_to_inclusive_contains(place: SourceRange, loc: Location)
    requires
        place.wf(),
    ensures
        place.to_inclusive_spec().contains_spec(loc) <==> place.contains_spec(loc),
{
}

} // verus!
