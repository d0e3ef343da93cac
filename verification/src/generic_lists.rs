//! A stack over an arbitrary element type, stored as a singly linked
//! chain of owned nodes. Besides push and pop it offers `peek`, a
//! read-only borrow of the top element, and `peek_mut`, an exclusive
//! borrow through which the top element can be changed in place.

use vstd::prelude::*;

verus! {

/// A handle owning a chain of nodes; the head node is the top of the stack.
pub struct List<T> {
    head: Link<T>,
}

/// A link either owns the next node or ends the chain.
type Link<T> = Option<Box<Node<T>>>;

/// One element together with ownership of the rest of the chain.
struct Node<T> {
    elem: T,
    next: Link<T>,
}

/// The elements reachable through a link, oldest first: the element held
/// closest to the head comes last.
spec fn link_elems<T>(link: Link<T>) -> Seq<T>
    decreases link,
{
    match link {
        None => Seq::empty(),
        Some(node) => link_elems(node.next).push(node.elem),
    }
}

impl<T> List<T> {
    /// The list abstracted as the sequence of its elements, oldest first;
    /// the top of the stack is the last element.
    pub closed spec fn elems(self) -> Seq<T> {
        link_elems(self.head)
    }

    /// Returns an empty list.
    pub fn new() -> (l: List<T>)
        ensures
            l@ == Seq::<T>::empty(),
    {
        List { head: None }
    }

    /// Pushes `elem` on top of the stack: a fresh node takes ownership of
    /// the element and of the previous chain, and becomes the new head.
    pub fn push(&mut self, elem: T)
        ensures
            final(self)@ == old(self)@.push(elem),
    {
        let prev = self.head.take();
        self.head = Some(Box::new(Node { elem, next: prev }));
    }

    /// Pops the top of the stack: detaches the head node, promotes its
    /// successor, and returns the detached element. On an empty list this
    /// returns `None` and changes nothing.
    pub fn pop(&mut self) -> (r: Option<T>)
        ensures
            old(self)@.len() == 0 ==> r is None && *final(self) == *old(self),
            old(self)@.len() > 0 ==> r == Some(old(self)@.last())
                && final(self)@ == old(self)@.drop_last(),
    {
        match self.head.take() {
            None => None,
            Some(node) => {
                let node = *node;
                self.head = node.next;
                proof {
                    assert(old(self)@.drop_last() =~= link_elems(self.head));
                }
                Some(node.elem)
            },
        }
    }

    /// Borrows the top element read-only, without consuming it; on an
    /// empty list there is nothing to borrow and the result is `None`.
    pub fn peek(&self) -> (r: Option<&T>)
        ensures
            self@.len() == 0 ==> r is None,
            self@.len() > 0 ==> r is Some && *r.unwrap() == self@.last(),
    {
        match &self.head {
            None => None,
            Some(node) => Some(&node.elem),
        }
    }

    /// Borrows the top element exclusively: through the returned reference
    /// the caller may overwrite the top element in place, and the list
    /// afterwards holds whatever value the caller left behind. On an empty
    /// list there is nothing to borrow, the result is `None`, and the list
    /// is unchanged.
    pub fn peek_mut(&mut self) -> (r: Option<&mut T>)
        ensures
            old(self)@.len() == 0 ==> r is None && *final(self) == *old(self),
            old(self)@.len() > 0 ==> r is Some && *r.unwrap() == old(self)@.last()
                && final(self)@ == old(self)@.drop_last().push(*final(r.unwrap())),
    {
        match &mut self.head {
            None => None,
            Some(node) => {
                let r = &mut node.elem;
                proof {
                    assert(old(self)@.drop_last() =~= link_elems(old(self).head.unwrap().next));
                }
                Some(r)
            },
        }
    }
}

impl<T> Drop for List<T> {
    /// Tears the chain down iteratively: repeatedly detaches the head node
    /// and discards it, so destruction uses constant stack space however
    /// long the chain is.
    fn drop(&mut self)
        opens_invariants none
        no_unwind
    {
        let mut cur: Link<T> = None;
        core::mem::swap(&mut self.head, &mut cur);
        loop
            decreases link_elems(cur).len(),
        {
            match cur {
                None => {
                    break;
                },
                Some(node) => {
                    let node = *node;
                    cur = node.next;
                },
            }
        }
    }
}

impl<T> View for List<T> {
    type V = Seq<T>;

    open spec fn view(&self) -> Seq<T> {
        self.elems()
    }
}

} // verus!
