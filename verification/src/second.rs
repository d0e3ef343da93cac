//! A stack of 32-bit integers stored as a singly linked chain of owned
//! nodes, with the chain expressed through optional ownership: a link is
//! `Some` node or `None` at the end of the chain.

use vstd::prelude::*;

verus! {

/// A handle owning a chain of nodes; the head node is the top of the stack.
pub struct List {
    head: Link,
}

/// A link either owns the next node or ends the chain.
type Link = Option<Box<Node>>;

/// One element together with ownership of the rest of the chain.
struct Node {
    elem: i32,
    next: Link,
}

/// The elements reachable through a link, oldest first: the element held
/// closest to the head comes last.
spec fn link_elems(link: Link) -> Seq<i32>
    decreases link,
{
    match link {
        None => Seq::empty(),
        Some(node) => link_elems(node.next).push(node.elem),
    }
}

impl List {
    /// The list abstracted as the sequence of its elements, oldest first;
    /// the top of the stack is the last element.
    pub closed spec fn elems(self) -> Seq<i32> {
        link_elems(self.head)
    }

    /// Returns an empty list.
    pub fn new() -> (l: List)
        ensures
            l@ == Seq::<i32>::empty(),
    {
        List { head: None }
    }

    /// Pushes `elem` on top of the stack: a fresh node takes ownership of
    /// the element and of the previous chain, and becomes the new head.
    pub fn push(&mut self, elem: i32)
        ensures
            final(self)@ == old(self)@.push(elem),
    {
        let prev = self.head.take();
        self.head = Some(Box::new(Node { elem, next: prev }));
    }

    /// Pops the top of the stack: detaches the head node, promotes its
    /// successor, and returns the detached element. On an empty list this
    /// returns `None` and changes nothing.
    pub fn pop(&mut self) -> (r: Option<i32>)
        ensures
            old(self)@.len() == 0 ==> r is None && *final(self) == *old(self),
            old(self)@.len() > 0 ==> r == Some(old(self)@.last())
                && final(self)@ == old(self)@.drop_last(),
    {
        match self.head.take() {
            None => None,
            Some(node) => {
                let node = *node;
                self.head = node.next;
                proof {
                    assert(old(self)@.drop_last() =~= link_elems(self.head));
                }
                Some(node.elem)
            },
        }
    }
}

impl Drop for List {
    /// Tears the chain down iteratively: repeatedly detaches the head node
    /// and discards it, so destruction uses constant stack space however
    /// long the chain is.
    fn drop(&mut self)
        opens_invariants none
        no_unwind
    {
        let mut cur: Link = None;
        core::mem::swap(&mut self.head, &mut cur);
        loop
            decreases link_elems(cur).len(),
        {
            match cur {
                None => {
                    break;
                },
                Some(node) => {
                    let node = *node;
                    cur = node.next;
                },
            }
        }
    }
}

impl View for List {
    type V = Seq<i32>;

    open spec fn view(&self) -> Seq<i32> {
        self.elems()
    }
}

} // verus!
