//! Heterogeneous lists: `Nil` and `Cons<H, T>` build lists whose element types
//! are part of the list's type, so that `Cons<i64, Cons<i32, Nil>>` holds an
//! `i64` followed by an `i32`.
//!
//! The `Find` trait reaches the element at a position that is itself a type:
//! `Here` for the head, `There<P>` for one step further than `P`. Where a list
//! holds exactly one element of the requested type, the compiler can usually
//! infer the position from the element type alone.
//!
//! Every operation carries a contract, and the laws that connect `push`, `get`
//! and `get_mut` are proved in `laws` and `apart`.

pub mod apart;
pub mod find;
pub mod laws;
pub mod list;

pub use crate::apart::Apart;
pub use crate::find::{Find, Here, There};
pub use crate::list::{Cons, HList, Nil};
