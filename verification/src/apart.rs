//! Two different positions of one list do not disturb each other.

use vstd::prelude::*;
use crate::find::{Find, Here, There};
use crate::list::Cons;

verus! {

/// `Apart<T, I, U, J>` is implemented for a list if `I` and `J` are two
/// different positions of it, holding a `T` and a `U`.
///
/// The implementations follow the two positions down the list until one of
/// them stops at a head while the other goes on into the tail. Two equal
/// positions never part that way, so for them there is no implementation.
pub trait Apart<T, I, U, J>: Find<T, I> + Find<U, J> {
    /// A write at position `I` leaves the element at position `J` as it was.
    proof fn lemma_write_first_keeps_second(self, item: T)
        ensures
            Find::<U, J>::slot(&Find::<T, I>::with_slot(self, item)) == Find::<U, J>::slot(&self),
    ;

    /// A write at position `J` leaves the element at position `I` as it was.
    proof fn lemma_write_second_keeps_first(self, item: U)
        ensures
            Find::<T, I>::slot(&Find::<U, J>::with_slot(self, item)) == Find::<T, I>::slot(&self),
    ;

    /// Writes at the two positions give the same list in either order.
    proof fn lemma_writes_commute(self, first: T, second: U)
        ensures
            Find::<U, J>::with_slot(Find::<T, I>::with_slot(self, first), second)
                == Find::<T, I>::with_slot(Find::<U, J>::with_slot(self, second), first),
    ;
}

/// The head and any position of the tail.
impl<T, U, J, Tail> Apart<T, Here, U, There<J>> for Cons<T, Tail> where Tail: Find<U, J> {
    proof fn lemma_write_first_keeps_second(self, item: T) {
    }

    proof fn lemma_write_second_keeps_first(self, item: U) {
    }

    proof fn lemma_writes_commute(self, first: T, second: U) {
    }
}

/// Any position of the tail and the head.
impl<Head, T, I, Tail> Apart<T, There<I>, Head, Here> for Cons<Head, Tail> where
    Tail: Find<T, I>,
 {
    proof fn lemma_write_first_keeps_second(self, item: T) {
    }

    proof fn lemma_write_second_keeps_first(self, item: Head) {
    }

    proof fn lemma_writes_commute(self, first: T, second: Head) {
    }
}

/// Two positions of the tail that are apart there.
impl<Head, T, I, U, J, Tail> Apart<T, There<I>, U, There<J>> for Cons<Head, Tail> where
    Tail: Apart<T, I, U, J>,
 {
    proof fn lemma_write_first_keeps_second(self, item: T) {
        Apart::<T, I, U, J>::lemma_write_first_keeps_second(self.1, item);
    }

    proof fn lemma_write_second_keeps_first(self, item: U) {
        Apart::<T, I, U, J>::lemma_write_second_keeps_first(self.1, item);
    }

    proof fn lemma_writes_commute(self, first: T, second: U) {
        Apart::<T, I, U, J>::lemma_writes_commute(self.1, first, second);
    }
}

} // verus!
