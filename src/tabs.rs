//! A cyclic selector over positioned entries, such as a row of menu tabs on
//! a terminal screen: one entry is current, and moving past either end wraps
//! around.
use vstd::prelude::*;

verus! {

/// Entries `(column, row, value)` and the index of the current one.
pub struct Tabs<T> {
    index: isize,
    positions: Vec<(u16, u16, T)>,
}

pub struct TabsView<T> {
    pub index: int,
    pub positions: Seq<(u16, u16, T)>,
}

impl<T> View for Tabs<T> {
    type V = TabsView<T>;

    closed spec fn view(&self) -> TabsView<T> {
        TabsView { index: self.index as int, positions: self.positions@ }
    }
}

impl<T> Tabs<T> {
    /// The current index is that of an entry, or 0 while there is none.
    #[verifier::type_invariant]
    spec fn wf(&self) -> bool {
        self.index == 0 || 0 <= self.index < self.positions@.len()
    }

    /// A selector over the entries, with the first one current.
    pub fn new(positions: Vec<(u16, u16, T)>) -> (r: Self)
        ensures
            r@ == (TabsView { index: 0, positions: positions@ }),
    {
        Tabs { positions, index: 0 }
    }

    /// The index of the current entry; 0 while there is none.
    pub fn current(&self) -> (r: usize)
        ensures
            r == self@.index,
            self@.index == 0 || 0 <= self@.index < self@.positions.len(),
    {
        proof {
            use_type_invariant(self);
        }
        self.index as usize
    }

    /// Position of the current entry.
    pub fn position(&self) -> (r: (u16, u16))
        requires
            self@.positions.len() > 0,
        ensures
            0 <= self@.index < self@.positions.len(),
            r == (self@.positions[self@.index].0, self@.positions[self@.index].1),
    {
        let i = self.current();
        (self.positions[i].0, self.positions[i].1)
    }

    /// Value of the current entry.
    pub fn value(&self) -> (r: &T)
        requires
            self@.positions.len() > 0,
        ensures
            0 <= self@.index < self@.positions.len(),
            *r == self@.positions[self@.index].2,
    {
        let i = self.current();
        &self.positions[i].2
    }

    /// Makes the following entry current, the first after the last.
    pub fn next(&mut self)
        requires
            0 < old(self)@.positions.len() <= isize::MAX,
        ensures
            final(self)@ == (TabsView {
                index: (old(self)@.index + 1) % (old(self)@.positions.len() as int),
                ..old(self)@
            }),
    {
        proof {
            use_type_invariant(&*self);
        }
        let len = self.positions.len() as isize;
        self.index = (self.index + 1) % len;
    }

    /// Makes the preceding entry current, the last before the first.
    pub fn prev(&mut self)
        requires
            0 < old(self)@.positions.len() <= isize::MAX,
        ensures
            final(self)@ == (TabsView {
                index: (old(self)@.index - 1 + old(self)@.positions.len()) % (
                old(self)@.positions.len() as int),
                ..old(self)@
            }),
    {
        proof {
            use_type_invariant(&*self);
        }
        let len = self.positions.len() as isize;
        let i = self.index;
        let prev = if i == 0 { len - 1 } else { i - 1 };
        assert(prev == (i - 1 + len) % (len as int)) by {
            vstd::arithmetic::div_mod::lemma_mod_self_0(len as int);
            vstd::arithmetic::div_mod::lemma_small_mod(prev as nat, len as nat);
            if i != 0 {
                vstd::arithmetic::div_mod::lemma_mod_add_multiples_vanish(prev as int, len as int);
            }
        }
        self.index = prev;
    }
}

} // verus!
