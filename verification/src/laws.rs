//! What `push` and the two `Find` implementations promise together.
//!
//! A list is built by `push` alone, and `push` returns `Cons(item, list)`. The
//! first two lemmas say where each element of such a list is found. Applied
//! once per `push`, they locate every element of a chain of pushes: the
//! element pushed last at `Here`, the one before it at `There<Here>`, and so
//! on down to the element pushed first. The next two say in the same way what
//! a write through `get_mut` does to such a list.

use vstd::prelude::*;
use crate::find::{Find, Here, There};
use crate::list::{Cons, HList};

verus! {

/// The element pushed last is the element at position zero.
pub proof fn lemma_push_then_here<L: HList, N>(list: L, item: N)
    ensures
        Find::<N, Here>::slot(&Cons(item, list)) == item,
{
}

/// A `push` moves every element one step further in: what was at position `I`
/// of `list` is at position `There<I>` of the list that `push` returns.
pub proof fn lemma_push_then_there<L: HList + Find<T, I>, N, T, I>(list: L, item: N)
    ensures
        Find::<T, There<I>>::slot(&Cons(item, list)) == Find::<T, I>::slot(&list),
{
}

/// A write at position zero replaces the element pushed last and keeps the
/// list that it was pushed onto.
pub proof fn lemma_write_here<L: HList, N>(list: L, item: N, new: N)
    ensures
        Find::<N, Here>::with_slot(Cons(item, list), new) == Cons(new, list),
{
}

/// A write at position `There<I>` keeps the element pushed last and is a
/// write at position `I` of the list that it was pushed onto.
pub proof fn lemma_write_there<L: HList + Find<T, I>, N, T, I>(list: L, item: N, new: T)
    ensures
        Find::<T, There<I>>::with_slot(Cons(item, list), new) == Cons(
            item,
            Find::<T, I>::with_slot(list, new),
        ),
{
}

/// Two elements of one type are told apart by position: after `a` and then
/// `b` were pushed, zero steps lead to `b` and one step leads to `a`.
pub proof fn lemma_same_type_twice<L: HList, T>(list: L, a: T, b: T)
    ensures
        Find::<T, Here>::slot(&Cons(b, Cons(a, list))) == b,
        Find::<T, There<Here>>::slot(&Cons(b, Cons(a, list))) == a,
{
}

} // verus!
