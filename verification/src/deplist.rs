//! An append-only list whose cursor also reaches the items pushed after it was made.

use std::marker::PhantomData;
use vstd::prelude::*;

verus! {

/// An append-only list.
pub struct DepList<T> {
    inner: Vec<T>,
}

impl<T> View for DepList<T> {
    type V = Seq<T>;

    closed spec fn view(&self) -> Seq<T> {
        self.inner@
    }
}

impl<T> DepList<T> {
    /// An empty list.
    pub fn new() -> (l: Self)
        ensures
            l@ == Seq::<T>::empty(),
    {
        DepList { inner: Vec::new() }
    }

    /// Appends `item` at the end.
    pub fn push(&mut self, item: T)
        ensures
            final(self)@ == old(self)@.push(item),
    {
        self.inner.push(item);
    }

    /// A cursor at the start of the list.
    ///
    /// The cursor holds a position, not a copy: items pushed later are reached too.
    pub fn iter(&self) -> (it: DepListIter<T>)
        ensures
            it.position() == 0,
    {
        DepListIter::new()
    }

    /// The number of items.
    pub fn len(&self) -> (n: usize)
        ensures
            n == self@.len(),
    {
        self.inner.len()
    }

    /// The item at `index`.
    pub fn get(&self, index: usize) -> (item: &T)
        requires
            index < self@.len(),
        ensures
            *item == self@[index as int],
    {
        &self.inner[index]
    }

    /// Mutable access to the item at `index`; the other items stay as they are.
    pub fn get_mut(&mut self, index: usize) -> (item: &mut T)
        requires
            index < old(self)@.len(),
        ensures
            *item == old(self)@[index as int],
            final(self)@ == old(self)@.update(index as int, *final(item)),
    {
        &mut self.inner[index]
    }
}

/// A cursor over a [`DepList`].
pub struct DepListIter<T> {
    current: usize,
    marker: PhantomData<T>,
}

impl<T> DepListIter<T> {
    /// The index of the item that the next call of [`DepListIter::next`] reads.
    pub closed spec fn position(&self) -> nat {
        self.current as nat
    }

    fn new() -> (it: Self)
        ensures
            it.position() == 0,
    {
        DepListIter { current: 0, marker: PhantomData }
    }

    /// The index of the item that the next call of [`DepListIter::next`] reads.
    pub fn current(&self) -> (i: usize)
        ensures
            i == self.position(),
    {
        self.current
    }

    /// Moves the cursor one item on without reading.
    pub fn advance(&mut self)
        requires
            old(self).position() < usize::MAX,
        ensures
            final(self).position() == old(self).position() + 1,
    {
        self.current = self.current + 1;
    }

}

impl<T: Clone> DepListIter<T> {
    /// A clone of the item at the cursor, or `None` past the end; either way the cursor
    /// moves one item on.
    pub fn next(&mut self, list: &DepList<T>) -> (item: Option<T>)
        requires
            old(self).position() < usize::MAX,
        ensures
            final(self).position() == old(self).position() + 1,
            old(self).position() < list@.len() ==> item is Some && cloned(
                list@[old(self).position() as int],
                item->0,
            ),
            old(self).position() >= list@.len() ==> item is None,
    {
        let result = if self.current < list.inner.len() {
            Some(list.inner[self.current].clone())
        } else {
            None
        };
        self.current = self.current + 1;
        result
    }
}

} // verus!
