use vstd::prelude::*;

verus! {

/// The children of a virtual list: only as many children as fit in the
/// viewport exist, and they are reused for whatever items are visible.
pub struct VirtListInner<C> {
    children: Vec<C>,
    visible_count: usize,
    data_offset: usize,
}

impl<C> VirtListInner<C> {
    /// The children that exist.
    pub closed spec fn spec_children(&self) -> Seq<C> {
        self.children@
    }

    /// How many children fit in the viewport.
    pub closed spec fn spec_visible_count(&self) -> usize {
        self.visible_count
    }

    /// The index of the first item shown.
    pub closed spec fn spec_data_offset(&self) -> usize {
        self.data_offset
    }

    /// No children, nothing visible.
    pub fn new() -> (l: Self)
        ensures
            l.spec_children().len() == 0,
            l.spec_visible_count() == 0,
            l.spec_data_offset() == 0,
    {
        VirtListInner { children: Vec::new(), visible_count: 0, data_offset: 0 }
    }

    /// Set how many children fit in the viewport; returns whether it changed.
    pub fn set_visible_count(&mut self, visible_children: usize) -> (changed: bool)
        ensures
            final(self).spec_visible_count() == visible_children,
            changed == (old(self).spec_visible_count() != visible_children),
            final(self).spec_children() == old(self).spec_children(),
            final(self).spec_data_offset() == old(self).spec_data_offset(),
    {
        if self.visible_count != visible_children {
            self.visible_count = visible_children;
            true
        } else {
            false
        }
    }

    /// Set the index of the first item shown; returns whether it changed.
    pub fn set_data_offset(&mut self, children_above_offset: usize) -> (changed: bool)
        ensures
            final(self).spec_data_offset() == children_above_offset,
            changed == (old(self).spec_data_offset() != children_above_offset),
            final(self).spec_children() == old(self).spec_children(),
            final(self).spec_visible_count() == old(self).spec_visible_count(),
    {
        if self.data_offset != children_above_offset {
            self.data_offset = children_above_offset;
            true
        } else {
            false
        }
    }

    /// Make the number of children the smaller of the visible count and the
    /// number of items: surplus children are dropped from the end, missing
    /// ones are made by `make`. Returns whether the number changed.
    pub fn update_child_count<F: Fn() -> C>(&mut self, data_len: usize, make: F) -> (changed: bool)
        requires
            make.requires(()),
        ensures
            final(self).spec_children().len() == if old(self).spec_visible_count() < data_len {
                old(self).spec_visible_count() as int
            } else {
                data_len as int
            },
            changed == (final(self).spec_children().len() != old(self).spec_children().len()),
            forall|i: int|
                0 <= i < old(self).spec_children().len() && i < final(self).spec_children().len()
                    ==> #[trigger] final(self).spec_children()[i] == old(self).spec_children()[i],
            forall|i: int|
                old(self).spec_children().len() <= i < final(self).spec_children().len()
                    ==> make.ensures((), #[trigger] final(self).spec_children()[i]),
            final(self).spec_visible_count() == old(self).spec_visible_count(),
            final(self).spec_data_offset() == old(self).spec_data_offset(),
    {
        let current = self.children.len();
        let needed = if self.visible_count < data_len {
            self.visible_count
        } else {
            data_len
        };
        if current > needed {
            self.children.truncate(needed);
            true
        } else if current < needed {
            let ghost before = self.children@;
            let mut n = current;
            while n < needed
                invariant
                    make.requires(()),
                    current <= n <= needed,
                    self.children@.len() == n,
                    forall|i: int| 0 <= i < current ==> #[trigger] self.children@[i] == before[i],
                    forall|i: int| current <= i < n ==> make.ensures((), #[trigger] self.children@[i]),
                    self.visible_count == old(self).visible_count,
                    self.data_offset == old(self).data_offset,
                    before == old(self).children@,
                    before.len() == current,
                decreases needed - n,
            {
                let child = make();
                self.children.push(child);
                n = n + 1;
            }
            true
        } else {
            false
        }
    }

    /// The range of items shown: from the data offset, as many as there are
    /// children, both ends cut off at the number of items.
    pub fn visible_data_range(&self, data_len: usize) -> (r: (usize, usize))
        requires
            self.spec_data_offset() + self.spec_children().len() <= usize::MAX,
        ensures
            r.0 == if self.spec_data_offset() < data_len { self.spec_data_offset() } else { data_len },
            r.1 == if self.spec_data_offset() + self.spec_children().len() < data_len {
                (self.spec_data_offset() + self.spec_children().len()) as usize
            } else {
                data_len
            },
    {
        let from = self.data_offset;
        let to = self.data_offset + self.children.len();
        (
            if from < data_len {
                from
            } else {
                data_len
            },
            if to < data_len {
                to
            } else {
                data_len
            },
        )
    }

    /// The child that shows item `i`: children are reused round-robin.
    pub fn child_slot(&self, i: usize) -> (slot: usize)
        requires
            self.spec_children().len() > 0,
        ensures
            slot == i % (self.spec_children().len() as usize),
            slot < self.spec_children().len(),
    {
        i % self.children.len()
    }

    /// The child that shows item `i`.
    pub fn child(&self, i: usize) -> (c: &C)
        requires
            self.spec_children().len() > 0,
        ensures
            *c == self.spec_children()[(i as int) % (self.spec_children().len() as int)],
    {
        let len = self.children.len();
        &self.children[i % len]
    }
}

/// The items shown never lie beyond the data, and there are never more of
/// them than there are children; consecutive visible items are shown by
/// distinct children.
pub proof fn law_visible_range_fits(offset: int, children: int, data_len: int, from: int, to: int)
    requires
        offset >= 0,
        children >= 0,
        data_len >= 0,
        from == if offset < data_len { offset } else { data_len },
        to == if offset + children < data_len { offset + children } else { data_len },
    ensures
        0 <= from <= to <= data_len,
        to - from <= children,
        forall|a: int, b: int|
            from <= a < b < to ==> #[trigger] (a % children) != #[trigger] (b % children),
{
    assert forall|a: int, b: int| from <= a < b < to implies #[trigger] (a % children) != #[trigger] (
    b % children) by {
        if a % children == b % children {
            vstd::arithmetic::div_mod::lemma_fundamental_div_mod(a, children);
            vstd::arithmetic::div_mod::lemma_fundamental_div_mod(b, children);
            assert(children > 0);
            assert(b - a == children * (b / children - a / children)) by (nonlinear_arith)
                requires
                    a == children * (a / children) + a % children,
                    b == children * (b / children) + b % children,
                    a % children == b % children,
            ;
            let q = b / children - a / children;
            assert(false) by (nonlinear_arith)
                requires
                    b - a == children * q,
                    0 < b - a < children,
                    children > 0,
            ;
        }
    }
}

} // verus!
