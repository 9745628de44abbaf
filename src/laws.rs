//! Laws that relate the cell's operations to one another, each stated over
//! the operations' own contracts.
use vstd::prelude::*;

use crate::cell::ClosureCell;
use crate::slice::contents;
use vstd::std_specs::cmp::{PartialEqSpec, PartialOrdSpec};

verus! {

/// Wrapping a value in a cell and unwrapping it again gives back that value.
pub proof fn lemma_new_into_inner<T>(v: T, c: ClosureCell<T>, r: T)
    requires
        call_ensures(ClosureCell::<T>::new, (v,), c),
        call_ensures(ClosureCell::<T>::into_inner, (c,), r),
    ensures
        r == v,
{
}

/// After `set(v2)` on a cell made with `v1`, reading the cell gives `v2`.
pub proof fn lemma_set_then_get<T: Copy>(v1: T, v2: T, c: &mut ClosureCell<T>, r: T)
    requires
        call_ensures(ClosureCell::<T>::new, (v1,), *c),
        call_ensures(ClosureCell::<T>::set, (c, v2), ()),
        call_ensures(ClosureCell::<T>::get, (&*final(c),), r),
    ensures
        r == v2,
{
}

/// `replace(v2)` on a cell made with `v1` returns `v1`, and the cell then
/// holds `v2`.
pub proof fn lemma_replace<T>(v1: T, v2: T, c: &mut ClosureCell<T>, r: T, after: T)
    requires
        call_ensures(ClosureCell::<T>::new, (v1,), *c),
        call_ensures(ClosureCell::<T>::replace, (c, v2), r),
        call_ensures(ClosureCell::<T>::into_inner, (*final(c),), after),
    ensures
        r == v1,
        after == v2,
{
}

/// Swapping two cells made with `x` and `y` leaves them holding `y` and `x`.
pub proof fn lemma_swap<T>(x: T, y: T, a: &mut ClosureCell<T>, b: &mut ClosureCell<T>)
    requires
        call_ensures(ClosureCell::<T>::new, (x,), *a),
        call_ensures(ClosureCell::<T>::new, (y,), *b),
        call_ensures(ClosureCell::<T>::swap, (a, b), ()),
    ensures
        final(a)@ == y,
        final(b)@ == x,
{
}

/// `take` on a cell made with `v` returns `v` and leaves the type's default
/// value in the cell.
pub proof fn lemma_take<T: Default>(v: T, c: &mut ClosureCell<T>, r: T)
    requires
        call_ensures(ClosureCell::<T>::new, (v,), *c),
        call_ensures(ClosureCell::<T>::take, (c,), r),
    ensures
        r == v,
        call_ensures(T::default, (), final(c)@),
{
}

/// `with_inner` with a closure that adds one to its argument adds one to
/// the cell's contents.
pub proof fn lemma_with_inner_increments<F: FnOnce(&mut u64)>(c: &mut ClosureCell<u64>, f: F)
    requires
        forall|x: &mut u64| call_ensures(f, (x,), ()) ==> *final(x) == *x + 1,
        call_ensures(ClosureCell::<u64>::with_inner::<F>, (c, f), ()),
    ensures
        final(c)@ == old(c)@ + 1,
{
}

/// Calling `with_inner` `n` times in a row, each time with a closure that
/// adds one to its argument, adds `n` to the cell's contents: `states[k]` is
/// the cell before call `k`, made through `borrows[k]` with `closures[k]`.
pub proof fn lemma_with_inner_repeated<F: FnOnce(&mut u64)>(
    states: Seq<ClosureCell<u64>>,
    borrows: Seq<&mut ClosureCell<u64>>,
    closures: Seq<F>,
    n: nat,
)
    requires
        states.len() == n + 1,
        borrows.len() == n,
        closures.len() == n,
        forall|k: int, x: &mut u64|
            0 <= k < n && #[trigger] call_ensures(closures[k], (x,), ()) ==> *final(x) == *x + 1,
        forall|k: int|
            0 <= k < n ==> {
                &&& *#[trigger] borrows[k] == states[k]
                &&& *final(borrows[k]) == states[k + 1]
                &&& call_ensures(
                    ClosureCell::<u64>::with_inner::<F>,
                    (borrows[k], closures[k]),
                    (),
                )
            },
    ensures
        states[n as int]@ == states[0]@ + n,
    decreases n,
{
    if n > 0 {
        let m = (n - 1) as nat;
        lemma_with_inner_repeated(
            states.subrange(0, m + 1 as int),
            borrows.subrange(0, m as int),
            closures.subrange(0, m as int),
            m,
        );
        lemma_with_inner_increments(borrows[m as int], closures[m as int]);
    }
}

/// Splitting a cell that holds a sequence of length `n` gives `n` cells;
/// setting cell `i` to `v` and joining the cells again gives the original
/// sequence with element `i` replaced by `v`.
pub proof fn lemma_slice_of_cells<T>(
    whole: ClosureCell<Vec<T>>,
    cells: Vec<ClosureCell<T>>,
    i: int,
    v: T,
    element: &mut ClosureCell<T>,
    updated: Vec<ClosureCell<T>>,
    joined: ClosureCell<Vec<T>>,
)
    requires
        call_ensures(ClosureCell::<Vec<T>>::as_slice_of_cells, (whole,), cells),
        0 <= i < whole@@.len(),
        *element == cells@[i],
        call_ensures(ClosureCell::<T>::set, (element, v), ()),
        updated@ == cells@.update(i, *final(element)),
        call_ensures(ClosureCell::<Vec<T>>::from_slice_of_cells, (updated,), joined),
    ensures
        cells@.len() == whole@@.len(),
        joined@@ == whole@@.update(i, v),
{
    assert(contents(updated@) =~= whole@@.update(i, v));
}

/// Comparing two cells compares their contents: for cells made with `a` and
/// `b`, `partial_cmp` gives what `a.partial_cmp(&b)` gives, and `==` what
/// `a == b` gives.
pub proof fn lemma_compare_forwards<T: PartialEqSpec + PartialOrdSpec>(
    a: T,
    b: T,
    ca: ClosureCell<T>,
    cb: ClosureCell<T>,
    ord: Option<core::cmp::Ordering>,
    eq: bool,
)
    requires
        T::obeys_eq_spec(),
        T::obeys_partial_cmp_spec(),
        call_ensures(ClosureCell::<T>::new, (a,), ca),
        call_ensures(ClosureCell::<T>::new, (b,), cb),
        call_ensures(<ClosureCell<T> as PartialOrd>::partial_cmp, (&ca, &cb), ord),
        call_ensures(<ClosureCell<T> as PartialEq>::eq, (&ca, &cb), eq),
    ensures
        ord == a.partial_cmp_spec(&b),
        eq == a.eq_spec(&b),
{
}

} // verus!
