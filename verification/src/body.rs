//! The body model: the ordered sequence of grid cells the snake occupies,
//! head-first. Backed by a deque so that the per-step work — prepending the
//! new head and dropping the tail — is O(1) at both ends.

use vstd::prelude::*;
use std::collections::VecDeque;
use crate::snake::Pt;

verus! {

/// The cells a freshly started snake occupies: a three-cell horizontal row
/// with the head at the origin.
pub open spec fn initial_body() -> Seq<Pt> {
    seq![Pt(0, 0), Pt(1, 0), Pt(2, 0)]
}

/// The snake's body: cells in order, index 0 the head, the last index the
/// tail. Viewed as the sequence of its cells.
pub struct Body {
    cells: VecDeque<Pt>,
}

impl View for Body {
    type V = Seq<Pt>;

    closed spec fn view(&self) -> Seq<Pt> {
        self.cells@
    }
}

impl Body {
    /// An empty body, to be filled cell by cell or by `reset`.
    pub fn new() -> (r: Body)
        ensures
            r@ == Seq::<Pt>::empty(),
    {
        Body { cells: VecDeque::new() }
    }

    pub fn len(&self) -> (r: usize)
        ensures
            r == self@.len(),
    {
        self.cells.len()
    }

    /// The head cell. The body must be non-empty; the snake's lifecycle
    /// keeps it so from initialization on.
    pub fn head(&self) -> (r: &Pt)
        requires
            self@.len() >= 1,
        ensures
            *r == self@[0],
    {
        &self.cells[0]
    }

    /// The cell at position `index`, counted from the head.
    pub fn get(&self, index: usize) -> (r: &Pt)
        requires
            index < self@.len(),
        ensures
            *r == self@[index as int],
    {
        &self.cells[index]
    }

    /// Inserts `cell` as the new head.
    pub fn prepend(&mut self, cell: Pt)
        ensures
            final(self)@ == seq![cell] + old(self)@,
    {
        self.cells.push_front(cell);
    }

    /// Removes the tail cell.
    pub fn remove_tail(&mut self)
        requires
            old(self)@.len() >= 1,
        ensures
            final(self)@ == old(self)@.drop_last(),
    {
        let popped = self.cells.pop_back();
        proof {
            assert(popped is Some);
            assert(self@ =~= old(self)@.drop_last());
        }
    }

    /// Whether some cell at `index` or later equals `cell`. The collision
    /// detector calls this from index 1 to ask whether the head runs into
    /// the rest of the body.
    pub fn contains_at_or_after(&self, index: usize, cell: Pt) -> (r: bool)
        ensures
            r == exists|i: int| index <= i < self@.len() && self@[i] == cell,
    {
        let n = self.cells.len();
        let mut i: usize = index;
        while i < n
            invariant
                index <= i,
                n == self@.len(),
                forall|j: int| index <= j < i ==> self@[j] != cell,
            decreases n - i,
        {
            if self.cells[i] == cell {
                return true;
            }
            i = i + 1;
        }
        false
    }

    /// Replaces the whole sequence with the initial three-cell row.
    pub fn reset(&mut self)
        ensures
            final(self)@ == initial_body(),
    {
        self.cells.clear();
        self.cells.push_back(Pt(0, 0));
        self.cells.push_back(Pt(1, 0));
        self.cells.push_back(Pt(2, 0));
        proof {
            assert(self@ =~= initial_body());
        }
    }
}

} // verus!
