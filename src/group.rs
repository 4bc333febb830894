use vstd::prelude::*;

use crate::element::{reduce, TorusElement};
use crate::random::draw_units;

verus! {

/// An ordered, growable collection of torus elements, with a cursor for a
/// consuming walk over it.
#[derive(Debug, Clone)]
pub struct Torus {
    set: Vec<TorusElement>,
    element_position: usize,
}

/// The container under the name of the group it samples.
pub type TorusGroup = Torus;

impl View for Torus {
    type V = Seq<TorusElement>;

    /// The elements in insertion order.
    closed spec fn view(&self) -> Seq<TorusElement> {
        self.set@
    }
}

impl Torus {
    /// Index of the next element that the consuming walk yields.
    pub closed spec fn position(&self) -> int {
        self.element_position as int
    }

    /// `n` elements, each the identity.
    pub fn new(n: usize) -> (r: Torus)
        ensures
            r@.len() == n,
            forall|i: int| 0 <= i < n ==> #[trigger] r@[i]@ == reduce(0),
            r.position() == 0,
    {
        let mut set: Vec<TorusElement> = Vec::new();
        let mut i: usize = 0;
        while i < n
            invariant
                i <= n,
                set@.len() == i,
                forall|j: int| 0 <= j < i ==> #[trigger] set@[j]@ == 0,
            decreases n - i,
        {
            set.push(TorusElement { value: 0 });
            i = i + 1;
        }
        Torus { set, element_position: 0 }
    }

    /// The elements at the given positions on the circle, in units, in
    /// order; the cursor starts at the first one.
    pub fn from_units(units: Vec<u32>) -> (r: Torus)
        ensures
            r@.len() == units@.len(),
            forall|i: int| 0 <= i < units@.len() ==> #[trigger] r@[i]@ == units@[i],
            r.position() == 0,
    {
        let mut set: Vec<TorusElement> = Vec::new();
        let mut i: usize = 0;
        while i < units.len()
            invariant
                i <= units@.len(),
                set@.len() == i,
                forall|j: int| 0 <= j < i ==> #[trigger] set@[j]@ == units@[j],
            decreases units@.len() - i,
        {
            set.push(TorusElement { value: units[i] });
            i = i + 1;
        }
        Torus { set, element_position: 0 }
    }

    /// `n` elements drawn independently and uniformly from the torus: the
    /// container that `from_units` builds from `n` drawn positions.
    pub fn gen_random(n: usize) -> (r: Torus)
        ensures
            r@.len() == n,
            r.position() == 0,
    {
        Torus::from_units(draw_units(n))
    }

    /// Appends the element that `raw` stands for, reduced as by
    /// `TorusElement::new`, and moves the cursor onto it.
    pub fn push(&mut self, raw: i64)
        ensures
            final(self)@ == old(self)@.push(final(self)@.last()),
            final(self)@.last()@ == reduce(raw as int),
            final(self).position() == old(self)@.len(),
    {
        let new_element = TorusElement::new(raw);
        self.set.push(new_element);
        self.element_position = self.set.len() - 1;
    }

    /// One step of the consuming walk: the element under the cursor, which
    /// then moves on, or `None` once the cursor has passed the last element.
    pub fn next(&mut self) -> (r: Option<TorusElement>)
        ensures
            final(self)@ == old(self)@,
            old(self).position() < old(self)@.len() ==> r == Some(
                old(self)@[old(self).position()],
            ) && final(self).position() == old(self).position() + 1,
            old(self).position() >= old(self)@.len() ==> r is None && final(self).position()
                == old(self).position(),
    {
        if self.element_position < self.set.len() {
            let item = self.set[self.element_position];
            self.element_position = self.element_position + 1;
            Some(item)
        } else {
            None
        }
    }

    /// Moves the cursor back to the first element.
    pub fn reset(&mut self)
        ensures
            final(self)@ == old(self)@,
            final(self).position() == 0,
    {
        self.element_position = 0;
    }

    /// Number of elements.
    pub fn len(&self) -> (r: usize)
        ensures
            r == self@.len(),
    {
        self.set.len()
    }

    /// The elements in order, for a walk that leaves the cursor alone.
    pub fn elements(&self) -> (r: &[TorusElement])
        ensures
            r@ == self@,
    {
        self.set.as_slice()
    }
}

} // verus!
