//! A window of the most recent items: it holds up to a fixed number of
//! them, and an item that comes in when it is full takes the place of one
//! that leaves.

use vstd::prelude::*;

verus! {

/// The most items a window of `max_size` ever holds: its size, and one
/// where the size is zero (the item that just came in).
pub open spec fn window_bound(max_size: nat) -> nat {
    if max_size == 0 {
        1
    } else {
        max_size
    }
}

/// Whether a window of `max_size` holding `items` must let one go before
/// it takes another.
pub open spec fn must_evict<T>(items: Seq<T>, max_size: nat) -> bool {
    items.len() >= max_size && items.len() > 0
}

/// The items of a window after `item` came in, the one at `victim` leaving
/// if the window was full.
pub open spec fn window_after<T>(items: Seq<T>, max_size: nat, item: T, victim: int) -> Seq<T> {
    if must_evict(items, max_size) {
        items.remove(victim).push(item)
    } else {
        items.push(item)
    }
}

/// The items of `items` from index `from` on whose mark in `keep` is set,
/// in order.
pub open spec fn marked_from<T>(items: Seq<T>, keep: Seq<bool>, from: int) -> Seq<T>
    decreases items.len() - from,
{
    if from < 0 || from >= items.len() || keep.len() != items.len() {
        Seq::empty()
    } else if keep[from] {
        seq![items[from]] + marked_from(items, keep, from + 1)
    } else {
        marked_from(items, keep, from + 1)
    }
}

/// The items of `items` whose mark in `keep` is set, in order.
pub open spec fn marked<T>(items: Seq<T>, keep: Seq<bool>) -> Seq<T> {
    marked_from(items, keep, 0)
}

/// Keeping marked items never makes a list longer.
pub proof fn lemma_marked_is_no_longer<T>(items: Seq<T>, keep: Seq<bool>, from: int)
    requires
        0 <= from <= items.len(),
    ensures
        marked_from(items, keep, from).len() <= items.len() - from,
    decreases items.len() - from,
{
    if from < items.len() && keep.len() == items.len() {
        lemma_marked_is_no_longer(items, keep, from + 1);
    }
}

/// A window of the most recent items, oldest first.
#[derive(Clone, Debug)]
pub struct RollingWindow<T> {
    items: Vec<T>,
    max_size: usize,
}

impl<T> View for RollingWindow<T> {
    type V = Seq<T>;

    closed spec fn view(&self) -> Seq<T> {
        self.items@
    }
}

impl<T> RollingWindow<T> {
    /// The size the window was made with.
    pub closed spec fn max_size(&self) -> nat {
        self.max_size as nat
    }

    /// An empty window.
    pub fn new(max_size: usize) -> (r: RollingWindow<T>)
        ensures
            r@ == Seq::<T>::empty(),
            r.max_size() == max_size,
    {
        RollingWindow { items: Vec::new(), max_size }
    }

    /// How many items the window holds.
    pub fn len(&self) -> (r: usize)
        ensures
            r == self@.len(),
    {
        self.items.len()
    }

    /// Whether the window must let an item go before it takes another.
    pub fn is_full(&self) -> (r: bool)
        ensures
            r == must_evict(self@, self.max_size()),
    {
        self.items.len() >= self.max_size && self.items.len() > 0
    }

    /// The items of the window, oldest first.
    pub fn items(&self) -> (r: &Vec<T>)
        ensures
            r@ == self@,
    {
        &self.items
    }

    /// Takes an item in. If the window is full, the item at `victim`
    /// leaves first and is handed back.
    pub fn add(&mut self, item: T, victim: usize) -> (r: Option<T>)
        requires
            must_evict(old(self)@, old(self).max_size()) ==> victim < old(self)@.len(),
        ensures
            final(self).max_size() == old(self).max_size(),
            final(self)@ == window_after(old(self)@, old(self).max_size(), item, victim as int),
            r == if must_evict(old(self)@, old(self).max_size()) {
                Some(old(self)@[victim as int])
            } else {
                None::<T>
            },
            old(self)@.len() <= window_bound(old(self).max_size()) ==> final(self)@.len()
                <= window_bound(old(self).max_size()),
    {
        let evicted = if self.items.len() >= self.max_size && self.items.len() > 0 {
            Some(self.items.remove(victim))
        } else {
            None
        };
        self.items.push(item);
        evicted
    }

    /// Takes an item in. If the window is full, the oldest item leaves
    /// first and is handed back.
    pub fn push(&mut self, item: T) -> (r: Option<T>)
        ensures
            final(self).max_size() == old(self).max_size(),
            final(self)@ == window_after(old(self)@, old(self).max_size(), item, 0),
            r == if must_evict(old(self)@, old(self).max_size()) {
                Some(old(self)@[0])
            } else {
                None::<T>
            },
            old(self)@.len() <= window_bound(old(self).max_size()) ==> final(self)@.len()
                <= window_bound(old(self).max_size()),
    {
        self.add(item, 0)
    }

    /// Puts an item in the place of the one at `index`, which is handed
    /// back.
    pub fn replace(&mut self, index: usize, item: T) -> (r: T)
        requires
            index < old(self)@.len(),
        ensures
            final(self).max_size() == old(self).max_size(),
            final(self)@ == old(self)@.update(index as int, item),
            r == old(self)@[index as int],
    {
        let mut item = item;
        std::mem::swap(&mut item, &mut self.items[index]);
        item
    }

    /// Keeps the items whose mark is set and lets the others go.
    pub fn retain_marked(&mut self, keep: &Vec<bool>)
        requires
            keep@.len() == old(self)@.len(),
        ensures
            final(self).max_size() == old(self).max_size(),
            final(self)@ == marked(old(self)@, keep@),
            final(self)@.len() <= old(self)@.len(),
    {
        let ghost before = self.items@;
        let mut i: usize = self.items.len();
        while i > 0
            invariant
                i <= before.len(),
                keep@.len() == before.len(),
                self.max_size == old(self).max_size,
                self.items@ == before.take(i as int) + marked_from(before, keep@, i as int),
            decreases i,
        {
            i = i - 1;
            proof {
                assert(before.take(i as int + 1) == before.take(i as int).push(before[i as int]));
            }
            if keep[i] {
                proof {
                    assert(before.take(i as int).push(before[i as int]) + marked_from(
                        before,
                        keep@,
                        i as int + 1,
                    ) =~= before.take(i as int) + (seq![before[i as int]] + marked_from(
                        before,
                        keep@,
                        i as int + 1,
                    )));
                }
            } else {
                let ghost now = self.items@;
                self.items.remove(i);
                proof {
                    assert(now.remove(i as int) =~= before.take(i as int) + marked_from(
                        before,
                        keep@,
                        i as int + 1,
                    ));
                }
            }
        }
        proof {
            assert(before.take(0) + marked_from(before, keep@, 0) =~= marked_from(before, keep@, 0));
            lemma_marked_is_no_longer(before, keep@, 0);
        }
    }
}

} // verus!
