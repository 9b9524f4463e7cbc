use vstd::prelude::*;

verus! {

/// A link of a list: a node, or the end of the list.
pub type Link<T> = Option<Box<Node<T>>>;

/// A node of a list: its value, and the link to the node behind it.
pub struct Node<T> {
    pub data: T,
    pub next: Link<T>,
}

/// A linked list that is used as a stack: values are put on at its head and taken off
/// there.
pub struct LinkedList<T> {
    pub head: Link<T>,
}

/// The values of a chain of nodes, from the first node on.
pub open spec fn items<T>(link: Link<T>) -> Seq<T>
    decreases link,
{
    match link {
        None => Seq::<T>::empty(),
        Some(node) => seq![node.data] + items(node.next),
    }
}

impl<T> View for LinkedList<T> {
    type V = Seq<T>;

    open spec fn view(&self) -> Seq<T> {
        items(self.head)
    }
}

impl<T> LinkedList<T> {
    pub fn new() -> (r: LinkedList<T>)
        ensures
            r@ == Seq::<T>::empty(),
    {
        LinkedList { head: None }
    }

    /// Takes the whole chain of nodes out of the list, which is empty afterwards.
    pub fn top(&mut self) -> (r: Link<T>)
        ensures
            items(r) == old(self)@,
            final(self)@ == Seq::<T>::empty(),
    {
        self.head.take()
    }

    /// Puts a value at the head of the list.
    pub fn push(&mut self, data: T)
        ensures
            final(self)@ == seq![data] + old(self)@,
    {
        let rest = self.head.take();
        self.head = Some(Box::new(Node { data, next: rest }));
    }

    /// Takes the value at the head of the list off, if there is one.
    pub fn pop(&mut self) -> (r: Option<T>)
        ensures
            match r {
                Some(v) => old(self)@.len() > 0 && v == old(self)@[0] && final(self)@ == old(
                    self,
                )@.skip(1),
                None => old(self)@.len() == 0 && final(self)@ == old(self)@,
            },
    {
        match self.head.take() {
            None => None,
            Some(node) => {
                let node = *node;
                self.head = node.next;
                assert(old(self)@.skip(1) =~= items(node.next));
                Some(node.data)
            },
        }
    }

    /// The value at the head of the list, if there is one.
    pub fn peek(&self) -> (r: Option<&T>)
        ensures
            match r {
                Some(v) => self@.len() > 0 && *v == self@[0],
                None => self@.len() == 0,
            },
    {
        match &self.head {
            None => None,
            Some(node) => Some(&node.data),
        }
    }

    /// The value of the first node of a chain, if there is one.
    pub fn peek_node_value(node: Link<T>) -> (r: Option<T>)
        ensures
            match r {
                Some(v) => items(node).len() > 0 && v == items(node)[0],
                None => items(node).len() == 0,
            },
    {
        match node {
            None => None,
            Some(first) => {
                let first = *first;
                Some(first.data)
            },
        }
    }

    /// The chain behind the first node of a chain; the end of the list has nothing
    /// behind it.
    pub fn next_node(node: Link<T>) -> (r: Link<T>)
        ensures
            items(r) == if items(node).len() > 0 {
                items(node).skip(1)
            } else {
                Seq::<T>::empty()
            },
    {
        match node {
            None => None,
            Some(first) => {
                let first = *first;
                assert(items(node).skip(1) =~= items(first.next));
                first.next
            },
        }
    }
}

} // verus!
