//! The two node shapes of a heterogeneous list, and `push`.

use vstd::prelude::*;

verus! {

/// The empty list.
///
/// `Nil` has no position: it implements `Find` for no element type, so a
/// request that walks past the last element of a list does not compile.
pub struct Nil;

/// A list with `H` at position 0, and `T` as the rest of the list.
///
/// The node owns both: field 0 is the head, field 1 the tail.
pub struct Cons<H, T>(pub H, pub T);

/// The trait that `Nil` and `Cons<H, T>` share. It provides `push`.
pub trait HList: Sized {
    /// Consumes the list and returns the list with `item` in front of it:
    /// the head of the result is `item`, its tail is the list as it was.
    ///
    /// `item` may be of any type, also one that the list already holds.
    fn push<N>(self, item: N) -> (list: Cons<N, Self>)
        ensures
            list == Cons(item, self),
    {
        Cons(item, self)
    }
}

impl HList for Nil {}

impl<H, T> HList for Cons<H, T> {}

} // verus!
