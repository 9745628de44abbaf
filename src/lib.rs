//! A single-owner mutable memory cell.
//!
//! `ClosureCell<T>` holds exactly one value of type `T`. Besides the usual
//! cell primitives (`set`, `replace`, `swap`, `take`, `get`) it offers
//! `with_inner`, which hands a closure a plain `&mut T` to the contents.
//!
//! Every operation that changes the contents takes the cell by exclusive
//! reference. That exclusivity is what makes `with_inner` sound without a
//! run-time "borrowed" flag: while the closure runs, the cell is borrowed
//! mutably, so the compiler rejects any closure that captures the same cell,
//! or any value that holds a reference to it, before the program runs.
use vstd::prelude::*;

pub mod cell;
pub mod laws;
pub mod slice;

pub use cell::ClosureCell;
