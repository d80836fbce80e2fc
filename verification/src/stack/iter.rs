//! The three ways to walk a list: by value, by shared reference and by
//! exclusive reference. Each walks from the head to the tail, yields every
//! element once and then yields `None` for good.

use crate::model::{popped, top};
use crate::stack::{List, Node};
use vstd::prelude::*;

verus! {

/// Yields the elements of a list by value, the top first. It owns the list
/// and is viewed as the elements that it has not yielded yet.
pub struct IntoIter<T>(List<T>);

/// Yields shared references to the elements of a list, the top first. It
/// is viewed as the elements that it has not yielded yet.
pub struct Iter<'a, T> {
    next: Option<&'a Node<T>>,
}

/// Yields exclusive references to the elements of a list, the top first,
/// each of them once. It is viewed as the elements that it has not yielded
/// yet.
pub struct IterMut<'a, T> {
    next: Option<&'a mut Node<T>>,
}

impl<T> View for IntoIter<T> {
    type V = Seq<T>;

    closed spec fn view(&self) -> Seq<T> {
        self.0@
    }
}

impl<'a, T> View for Iter<'a, T> {
    type V = Seq<T>;

    closed spec fn view(&self) -> Seq<T> {
        match self.next {
            None => Seq::empty(),
            Some(node) => node@,
        }
    }
}

impl<'a, T> View for IterMut<'a, T> {
    type V = Seq<T>;

    open spec fn view(&self) -> Seq<T> {
        match self.cursor() {
            None => Seq::empty(),
            Some(node) => node@,
        }
    }
}

impl<T> List<T> {
    /// Turns the list into an iterator over its elements.
    pub fn into_iter(self) -> (it: IntoIter<T>)
        ensures
            it@ == self@,
    {
        IntoIter(self)
    }

    /// An iterator over shared references to the elements. The list is only
    /// borrowed: it is the same after the walk as before.
    pub fn iter<'a>(&'a self) -> (it: Iter<'a, T>)
        ensures
            it@ == self@,
    {
        Iter {
            next: match &self.head {
                None => None,
                Some(node) => Some(&**node),
            },
        }
    }

    /// An iterator over exclusive references to the elements.
    ///
    /// The iterator starts at the head with the elements as they are. When
    /// the borrow ends, the list holds what the chain under the iterator's
    /// cursor holds by then: every element with the value that its
    /// reference was left with.
    pub fn iter_mut(&mut self) -> (it: IterMut<'_, T>)
        ensures
            it@ == old(self)@,
            final(self)@ == (match it.cursor() {
                None => Seq::empty(),
                Some(node) => final(node)@,
            }),
    {
        IterMut {
            next: match &mut self.head {
                None => None,
                Some(node) => Some(&mut **node),
            },
        }
    }
}

impl<T> IntoIter<T> {
    /// Pops the next element off the list that the iterator owns.
    pub fn next(&mut self) -> (item: Option<T>)
        ensures
            item == top(old(self)@),
            final(self)@ == popped(old(self)@),
    {
        self.0.pop()
    }
}

impl<'a, T> Iter<'a, T> {
    /// Yields the element under the cursor and moves the cursor to the node
    /// behind it. `None` once the tail has been passed.
    pub fn next(&mut self) -> (item: Option<&'a T>)
        ensures
            match top(old(self)@) {
                None => item is None,
                Some(v) => item == Some(&v),
            },
            final(self)@ == popped(old(self)@),
    {
        match self.next {
            None => None,
            Some(node) => {
                self.next = match &node.next {
                    None => None,
                    Some(succ) => Some(&**succ),
                };
                Some(&node.elem)
            },
        }
    }
}

impl<'a, T> IterMut<'a, T> {
    /// The exclusive borrow that the iterator holds: of the node whose
    /// element it yields next, and with it of the chain behind that node.
    /// `None` once the tail has been passed.
    pub closed spec fn cursor(self) -> Option<&'a mut Node<T>> {
        self.next
    }

    /// Yields the element under the cursor and moves the cursor to the node
    /// behind it. `None` once the tail has been passed.
    ///
    /// The borrow that the iterator held is split in two: the reference that
    /// is returned, and the cursor that the iterator keeps. The chain that
    /// the old cursor stood on ends up with the value that the returned
    /// reference is left with, followed by what the chain under the new
    /// cursor ends up with.
    pub fn next(&mut self) -> (item: Option<&'a mut T>)
        ensures
            final(self)@ == popped(old(self)@),
            match old(self).cursor() {
                None => item is None && final(self).cursor() is None,
                Some(node) => item is Some && Some(*item->0) == top(old(self)@) && final(node)@
                    == seq![*final(item->0)] + (match final(self).cursor() {
                    None => Seq::empty(),
                    Some(succ) => final(succ)@,
                }),
            },
    {
        match self.next.take() {
            None => None,
            Some(node) => {
                self.next = match &mut node.next {
                    None => None,
                    Some(succ) => Some(&mut **succ),
                };
                Some(&mut node.elem)
            },
        }
    }

    /// An iterator that is not used any more leaves what it has not yielded
    /// as it is: the chain under its cursor ends up with the values that it
    /// holds now.
    pub proof fn lemma_unvisited_unchanged(self)
        requires
            has_resolved(self),
        ensures
            self.cursor() matches Some(node) ==> final(node)@ == node@,
    {
    }
}

} // verus!
