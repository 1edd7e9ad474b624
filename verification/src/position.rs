//! Locations in text and their order.
use std::cmp::Ordering;
use vstd::prelude::*;
use vstd::std_specs::cmp::PartialOrdSpecImpl;

verus! {

/// A location in text as a pair of naturals: what a `Position` stands for,
/// and what the scans over tokens compute with before anything has to fit a
/// machine word.
pub struct Point {
    pub line: nat,
    pub offset: nat,
}

impl Point {
    /// The start of the text.
    pub open spec fn origin() -> Point {
        Point { line: 0, offset: 0 }
    }

    /// Lexicographic order: by line first, then by offset.
    pub open spec fn lt(self, other: Point) -> bool {
        self.line < other.line || (self.line == other.line && self.offset < other.offset)
    }

    /// The same order, with equality let in.
    pub open spec fn le(self, other: Point) -> bool {
        self.lt(other) || self == other
    }
}

/// A location in text: a zero-based line number and a zero-based character
/// offset within that line.
#[derive(Clone, Copy, Debug, PartialEq, Eq, Structural)]
pub struct Position {
    pub line: usize,
    pub offset: usize,
}

impl View for Position {
    type V = Point;

    open spec fn view(&self) -> Point {
        Point { line: self.line as nat, offset: self.offset as nat }
    }
}

impl Position {
    /// The position of line 0, offset 0.
    pub fn new() -> (p: Position)
        ensures
            p@ == Point::origin(),
    {
        Position { line: 0, offset: 0 }
    }
}

impl PartialOrd for Position {
    /// Compares by line first, then by offset.
    fn partial_cmp(&self, other: &Position) -> (order: Option<Ordering>) {
        if self.line < other.line {
            Some(Ordering::Less)
        } else if self.line > other.line {
            Some(Ordering::Greater)
        } else if self.offset < other.offset {
            Some(Ordering::Less)
        } else if self.offset > other.offset {
            Some(Ordering::Greater)
        } else {
            Some(Ordering::Equal)
        }
    }
}

impl PartialOrdSpecImpl for Position {
    open spec fn obeys_partial_cmp_spec() -> bool {
        true
    }

    open spec fn partial_cmp_spec(&self, other: &Position) -> Option<Ordering> {
        if self@.lt(other@) {
            Some(Ordering::Less)
        } else if other@.lt(self@) {
            Some(Ordering::Greater)
        } else {
            Some(Ordering::Equal)
        }
    }
}

/// The order on points is total: of two points, one comes before the other
/// or they are the same point.
pub proof fn lemma_order_total(a: Point, b: Point)
    ensures
        a.lt(b) || b.lt(a) || a == b,
        !(a.lt(b) && b.lt(a)),
        a.le(b) <==> !b.lt(a),
{
}

/// The order on points is transitive, also where one of the two steps is
/// not strict.
pub proof fn lemma_order_transitive(a: Point, b: Point, c: Point)
    ensures
        a.lt(b) && b.lt(c) ==> a.lt(c),
        a.le(b) && b.lt(c) ==> a.lt(c),
        a.lt(b) && b.le(c) ==> a.lt(c),
        a.le(b) && b.le(c) ==> a.le(c),
{
}

} // verus!
