//! A singly linked list with owned nodes, viewed as the sequence of its
//! values from front to back.

use vstd::prelude::*;

verus! {

/// One node of the list: a value and the rest of the chain.
pub struct Node<T> {
    value: T,
    next: Option<Box<Node<T>>>,
}

/// The values hanging off an optional node chain, front first.
pub closed spec fn opt_elems<T>(n: Option<Box<Node<T>>>) -> Seq<T>
    decreases n,
{
    match n {
        Option::None => Seq::<T>::empty(),
        Option::Some(node) => seq![node.value] + opt_elems(node.next),
    }
}

impl<T> Node<T> {
    /// The values of the chain starting at this node, front first.
    pub closed spec fn elems(self) -> Seq<T> {
        seq![self.value] + opt_elems(self.next)
    }

    /// A node holding `value` in front of the chain `next`.
    pub fn new(value: T, next: Option<Box<Node<T>>>) -> (r: Node<T>)
        ensures
            r.elems() == seq![value] + opt_elems(next),
    {
        Node { value, next }
    }
}

/// A singly linked list of owned values.
pub struct LinkedList<T> {
    head: Option<Box<Node<T>>>,
    size: usize,
}

impl<T> View for LinkedList<T> {
    type V = Seq<T>;

    closed spec fn view(&self) -> Seq<T> {
        opt_elems(self.head)
    }
}

impl<T> LinkedList<T> {
    /// The stored length agrees with the chain.
    pub closed spec fn wf(&self) -> bool {
        self.size == opt_elems(self.head).len()
    }

    /// An empty list.
    pub fn new() -> (r: LinkedList<T>)
        ensures
            r.wf(),
            r@ == Seq::<T>::empty(),
    {
        LinkedList { head: None, size: 0 }
    }

    /// How many values the list holds.
    pub fn get_size(&self) -> (r: usize)
        requires
            self.wf(),
        ensures
            r == self@.len(),
    {
        self.size
    }

    /// Whether the list holds no value.
    pub fn is_empty(&self) -> (r: bool)
        requires
            self.wf(),
        ensures
            r == (self@.len() == 0),
    {
        self.get_size() == 0
    }

    /// Puts `value` in front of the list.
    pub fn push_front(&mut self, value: T)
        requires
            old(self).wf(),
            old(self)@.len() < usize::MAX,
        ensures
            final(self).wf(),
            final(self)@ == seq![value] + old(self)@,
    {
        let old_head = self.head.take();
        self.head = Some(Box::new(Node::new(value, old_head)));
        self.size = self.size + 1;
    }

    /// Takes the front value out of the list, if there is one.
    pub fn pop_front(&mut self) -> (r: Option<T>)
        requires
            old(self).wf(),
        ensures
            final(self).wf(),
            old(self)@.len() == 0 ==> r is None && final(self)@ == old(self)@,
            old(self)@.len() > 0 ==> r == Some(old(self)@[0]) && final(self)@ == old(
                self,
            )@.drop_first(),
    {
        let old_head = self.head.take();
        match old_head {
            None => {
                proof {
                    assert(self@ =~= old(self)@);
                }
                None
            },
            Some(boxed) => {
                let node = *boxed;
                self.head = node.next;
                self.size = self.size - 1;
                proof {
                    assert(self@ =~= old(self)@.drop_first());
                }
                Some(node.value)
            },
        }
    }
}

} // verus!
