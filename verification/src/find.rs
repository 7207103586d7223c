//! Positions as types, and access to the element at a position.

use vstd::prelude::*;
use crate::list::Cons;

verus! {

/// The position of the head of a list: zero steps into it.
///
/// A position is only ever named as a type. The one value of `Here` carries
/// nothing and no operation of this crate takes or returns it.
pub enum Here {
    Head,
}

/// The position one step further into the tail than `P`.
///
/// Like `Here` it is only ever named as a type; it cannot be constructed
/// outside this module.
pub struct There<P>(core::marker::PhantomData<P>);

/// `Find<T, I>` is implemented for a list if position `I` of the list is a `T`.
///
/// `slot` and `with_slot` say in specifications what `get` reads and what a
/// write through `get_mut` leaves behind. The three lemmas make them a
/// well-behaved pair for every implementation: a write is seen by the next
/// read, writing back what was read changes nothing, and the later of two
/// writes wins.
pub trait Find<T, I>: Sized {
    /// The element at position `I`.
    spec fn slot(&self) -> T;

    /// The list with `item` at position `I` in place of the element there.
    spec fn with_slot(self, item: T) -> Self;

    /// Reading position `I` after `item` was written there gives `item`.
    proof fn lemma_read_after_write(self, item: T)
        ensures
            self.with_slot(item).slot() == item,
    ;

    /// Writing the element of position `I` back to it leaves the list as it is.
    proof fn lemma_write_back(self)
        ensures
            self.with_slot(self.slot()) == self,
    ;

    /// Of two writes to position `I` only the second is left.
    proof fn lemma_write_twice(self, first: T, second: T)
        ensures
            self.with_slot(first).with_slot(second) == self.with_slot(second),
    ;

    /// Retrieves a `&T`: a reference to the element at position `I`.
    fn get(&self) -> (item: &T)
        ensures
            *item == self.slot(),
    ;

    /// Retrieves a `&mut T`: an exclusive reference to the element at
    /// position `I`.
    ///
    /// The reference starts out at the element. Once the caller is done with
    /// it, the list is the list as it was with position `I` holding whatever
    /// the caller left behind the reference.
    fn get_mut(&mut self) -> (item: &mut T)
        ensures
            *item == old(self).slot(),
            *final(self) == old(self).with_slot(*final(item)),
    ;
}

/// Position zero of a list is its head.
impl<T, Tail> Find<T, Here> for Cons<T, Tail> {
    open spec fn slot(&self) -> T {
        self.0
    }

    open spec fn with_slot(self, item: T) -> Self {
        Cons(item, self.1)
    }

    proof fn lemma_read_after_write(self, item: T) {
    }

    proof fn lemma_write_back(self) {
    }

    proof fn lemma_write_twice(self, first: T, second: T) {
    }

    fn get(&self) -> (item: &T) {
        &self.0
    }

    fn get_mut(&mut self) -> (item: &mut T) {
        &mut self.0
    }
}

/// Position `TailIndex + 1` of a list is position `TailIndex` of its tail,
/// whatever the head is.
impl<Head, T, Tail, TailIndex> Find<T, There<TailIndex>> for Cons<Head, Tail> where
    Tail: Find<T, TailIndex>,
 {
    open spec fn slot(&self) -> T {
        self.1.slot()
    }

    open spec fn with_slot(self, item: T) -> Self {
        Cons(self.0, self.1.with_slot(item))
    }

    proof fn lemma_read_after_write(self, item: T) {
        self.1.lemma_read_after_write(item);
    }

    proof fn lemma_write_back(self) {
        self.1.lemma_write_back();
    }

    proof fn lemma_write_twice(self, first: T, second: T) {
        self.1.lemma_write_twice(first, second);
    }

    fn get(&self) -> (item: &T) {
        self.1.get()
    }

    fn get_mut(&mut self) -> (item: &mut T) {
        self.1.get_mut()
    }
}

} // verus!
