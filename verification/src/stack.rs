//! A stack kept as a singly-linked chain of heap nodes.
//!
//! The list owns its head node, and every node owns the node behind it, so
//! the chain is a simple path with a single owner per node. A list is viewed
//! as the sequence of its elements from the head to the tail.

use crate::model::{popped, pushed, top};
use vstd::prelude::*;

pub mod iter;

verus! {

/// One link of the chain: an element and the exclusive owner of the node
/// behind it, if there is one.
///
/// A node is viewed as the sequence of the elements from it to the tail,
/// its own element first.
pub struct Node<T> {
    elem: T,
    next: Option<Box<Node<T>>>,
}

/// A last-in, first-out stack of `T`.
pub struct List<T> {
    head: Option<Box<Node<T>>>,
}

/// The elements of the chain that `link` owns, from its first node to the tail.
spec fn chain_view<T>(link: Option<Box<Node<T>>>) -> Seq<T>
    decreases link,
{
    match link {
        None => Seq::empty(),
        Some(node) => seq![node.elem] + chain_view(node.next),
    }
}

impl<T> View for Node<T> {
    type V = Seq<T>;

    closed spec fn view(&self) -> Seq<T> {
        seq![self.elem] + chain_view(self.next)
    }
}

impl<T> View for List<T> {
    type V = Seq<T>;

    closed spec fn view(&self) -> Seq<T> {
        chain_view(self.head)
    }
}

impl<T> List<T> {
    /// An empty list.
    pub fn new() -> (list: Self)
        ensures
            list@ == Seq::<T>::empty(),
    {
        List { head: None }
    }

    /// Puts `elem` on top. The new node takes over the chain that was there.
    pub fn push(&mut self, elem: T)
        ensures
            final(self)@ == pushed(old(self)@, elem),
    {
        let new_node = Box::new(Node { elem: elem, next: self.head.take() });
        self.head = Some(new_node);
    }

    /// Takes the top element off and returns it, or returns `None` and
    /// leaves the list as it is when the list is empty.
    pub fn pop(&mut self) -> (elem: Option<T>)
        ensures
            elem == top(old(self)@),
            final(self)@ == popped(old(self)@),
    {
        match self.head.take() {
            None => None,
            Some(boxed_node) => {
                let node = *boxed_node;
                self.head = node.next;
                Some(node.elem)
            },
        }
    }

    /// A shared reference to the top element: the one that the next `pop`
    /// returns. `None` when the list is empty.
    pub fn peek(&self) -> (elem: Option<&T>)
        ensures
            match top(self@) {
                None => elem is None,
                Some(v) => elem == Some(&v),
            },
    {
        match self.head.as_ref() {
            None => None,
            Some(node) => Some(&node.elem),
        }
    }

    /// An exclusive reference to the top element: the one that the next
    /// `pop` returns. `None` when the list is empty.
    ///
    /// Nothing is removed. When the borrow ends the list holds, on top, the
    /// value that the reference was left with; the elements below are as
    /// they were.
    pub fn peek_mut(&mut self) -> (elem: Option<&mut T>)
        ensures
            match top(old(self)@) {
                None => elem is None && final(self)@ == old(self)@,
                Some(v) => elem is Some && *elem->0 == v && final(self)@ == old(self)@.update(
                    0,
                    *final(elem->0),
                ),
            },
    {
        match self.head.as_mut() {
            None => None,
            Some(node) => Some(&mut node.elem),
        }
    }
}

impl<T> Drop for List<T> {
    /// Takes the chain apart node by node, so that no node is released while
    /// it still owns another one and the depth of the call stack does not
    /// grow with the length of the list.
    fn drop(&mut self)
        ensures
            final(self)@ == Seq::<T>::empty(),
        opens_invariants none
        no_unwind
    {
        let mut cur_link: Option<Box<Node<T>>> = None;
        core::mem::swap(&mut cur_link, &mut self.head);
        loop
            invariant
                self.head is None,
            decreases chain_view(cur_link).len(),
        {
            match cur_link {
                None => {
                    break;
                },
                Some(mut boxed_node) => {
                    let mut rest: Option<Box<Node<T>>> = None;
                    core::mem::swap(&mut rest, &mut boxed_node.next);
                    cur_link = rest;
                },
            }
        }
    }
}

} // verus!
