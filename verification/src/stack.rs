use vstd::prelude::*;

verus! {

type Link<T> = Option<Box<Node<T>>>;

struct Node<T> {
    data: T,
    next: Link<T>,
}

/// The values held by a chain of nodes, the first node's value first.
spec fn chain<T>(link: Link<T>) -> Seq<T>
    decreases link,
{
    match link {
        None => Seq::empty(),
        Some(node) => seq![node.data] + chain(node.next),
    }
}

/// The sequence `s` with `v` put on top of it.
pub open spec fn pushed<T>(s: Seq<T>, v: T) -> Seq<T> {
    seq![v] + s
}

/// The top value of `s`, if it has one.
pub open spec fn top<T>(s: Seq<T>) -> Option<T> {
    if s.len() == 0 {
        None
    } else {
        Some(s[0])
    }
}

/// What is left of `s` once its top value is taken off; an empty `s` stays as it is.
pub open spec fn rest<T>(s: Seq<T>) -> Seq<T> {
    if s.len() == 0 {
        s
    } else {
        s.skip(1)
    }
}

/// The node, if any, that `link` leads to.
fn first_node<T>(link: &Link<T>) -> (cursor: Option<&Node<T>>)
    ensures
        below(cursor) == chain(*link),
{
    match link {
        None => None,
        Some(node) => Some(&**node),
    }
}

/// The values from the node at `cursor` on, that node's value first.
spec fn below<T>(cursor: Option<&Node<T>>) -> Seq<T> {
    match cursor {
        None => Seq::empty(),
        Some(node) => seq![node.data] + chain(node.next),
    }
}

/// A stack whose nodes each own their successor.
pub struct Stack<T> {
    root: Link<T>,
}

impl<T> View for Stack<T> {
    type V = Seq<T>;

    /// The stack's values from the top down.
    closed spec fn view(&self) -> Seq<T> {
        chain(self.root)
    }
}

impl<T> Stack<T> {
    /// Returns a new empty stack.
    pub fn new() -> (s: Self)
        ensures
            s@ == Seq::<T>::empty(),
    {
        Self { root: None }
    }

    /// Puts `data` on top of the stack.
    pub fn push(&mut self, data: T)
        ensures
            final(self)@ == pushed(old(self)@, data),
    {
        let new_node = Box::new(Node::<T> { data, next: self.root.take() });
        self.root = Some(new_node);
    }

    /// Takes the top value off the stack and returns it; `None` on an empty stack,
    /// which stays empty.
    pub fn pop(&mut self) -> (r: Option<T>)
        ensures
            r == top(old(self)@),
            final(self)@ == rest(old(self)@),
    {
        match self.root.take() {
            None => None,
            Some(root_node) => {
                let node = *root_node;
                proof {
                    assert((seq![node.data] + chain(node.next)).skip(1) =~= chain(node.next));
                }
                self.root = node.next;
                Some(node.data)
            },
        }
    }

    /// Returns the top value without taking it off; `None` on an empty stack.
    pub fn peek(&self) -> (r: Option<&T>)
        ensures
            match r {
                Some(x) => top(self@) == Some(*x),
                None => top(self@) is None,
            },
    {
        match &self.root {
            None => None,
            Some(node) => Some(&node.data),
        }
    }

    /// Returns the top value for changing it in place; `None` on an empty stack.
    /// Whatever the caller writes through the reference becomes the new top value,
    /// and nothing below it changes.
    pub fn peek_mut(&mut self) -> (r: Option<&mut T>)
        ensures
            match r {
                Some(x) => top(old(self)@) == Some(*x) && final(self)@ == old(self)@.update(
                    0,
                    *final(x),
                ),
                None => top(old(self)@) is None && final(self)@ == old(self)@,
            },
    {
        match &mut self.root {
            None => None,
            Some(node) => Some(&mut node.data),
        }
    }

    /// Returns a traversal of the stack from the top down, positioned at the top.
    /// The stack is only read, and every call gives a traversal of its own.
    pub fn iter(&self) -> (it: StackIter<'_, T>)
        ensures
            it@ == self@,
    {
        StackIter { cursor: first_node(&self.root) }
    }

    /// Turns the stack into a traversal that hands its values out from the top
    /// down, as repeated calls of `pop` would.
    pub fn into_iter(self) -> (it: StackIntoIter<T>)
        ensures
            it@ == self@,
    {
        StackIntoIter(self)
    }

    /// Returns true if the stack holds no value.
    pub fn is_empty(&self) -> (r: bool)
        ensures
            r == (self@.len() == 0),
    {
        self.root.is_none()
    }
}

/// A traversal that owns the stack and empties it as it goes.
pub struct StackIntoIter<T>(Stack<T>);

impl<T> View for StackIntoIter<T> {
    type V = Seq<T>;

    /// The values still to come, the next one first.
    closed spec fn view(&self) -> Seq<T> {
        self.0@
    }
}

impl<T> StackIntoIter<T> {
    /// Hands out the next value, or `None` once all are out.
    pub fn next(&mut self) -> (r: Option<T>)
        ensures
            r == top(old(self)@),
            final(self)@ == rest(old(self)@),
    {
        self.0.pop()
    }
}

/// A read-only traversal of a stack from the top down.
pub struct StackIter<'s, T> {
    cursor: Option<&'s Node<T>>,
}

impl<'s, T> View for StackIter<'s, T> {
    type V = Seq<T>;

    /// The values still to come, the next one first.
    closed spec fn view(&self) -> Seq<T> {
        below(self.cursor)
    }
}

impl<'s, T> StackIter<'s, T> {
    /// Hands out the next value and moves one node down, or returns `None` at
    /// the bottom.
    pub fn next(&mut self) -> (r: Option<&'s T>)
        ensures
            match r {
                Some(x) => top(old(self)@) == Some(*x),
                None => top(old(self)@) is None,
            },
            final(self)@ == rest(old(self)@),
    {
        match self.cursor {
            None => None,
            Some(node) => {
                proof {
                    assert((seq![node.data] + chain(node.next)).skip(1) =~= chain(node.next));
                }
                self.cursor = first_node(&node.next);
                Some(&node.data)
            },
        }
    }
}

impl<T> Default for Stack<T> {
    /// The empty stack.
    fn default() -> (s: Self)
        ensures
            s@ == Seq::<T>::empty(),
    {
        Self::new()
    }
}

impl<T> Drop for Stack<T> {
    /// Releases the nodes one by one from the top down. Each node is cut off from
    /// its successor before it is discarded, so discarding it releases nothing
    /// else, however long the chain is.
    fn drop(&mut self)
        ensures
            final(self)@ == Seq::<T>::empty(),
        opens_invariants none
        no_unwind
    {
        let mut root: Link<T> = None;
        core::mem::swap(&mut self.root, &mut root);
        loop
            invariant
                self@ == Seq::<T>::empty(),
            decreases chain(root).len(),
        {
            match root {
                None => {
                    break ;
                },
                Some(mut node) => {
                    let mut successor: Link<T> = None;
                    core::mem::swap(&mut node.next, &mut successor);
                    root = successor;
                },
            }
        }
    }
}

} // verus!
