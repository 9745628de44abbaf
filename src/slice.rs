//! Viewing a cell that holds a sequence as a sequence of cells, one per
//! element, and back.
use vstd::prelude::*;

use crate::cell::ClosureCell;

verus! {

/// The values held by a sequence of cells, in order.
pub open spec fn contents<T>(cells: Seq<ClosureCell<T>>) -> Seq<T> {
    cells.map_values(|c: ClosureCell<T>| c@)
}

impl<T> ClosureCell<Vec<T>> {
    /// Splits a cell holding a sequence into one cell per element, so each
    /// element can be mutated on its own. The elements are moved, in order;
    /// none is copied.
    pub fn as_slice_of_cells(self) -> (r: Vec<ClosureCell<T>>)
        ensures
            r@.len() == self@@.len(),
            contents(r@) == self@@,
    {
        let ghost s = self@@;
        let mut rest = self.into_inner();
        let mut reversed: Vec<ClosureCell<T>> = Vec::new();
        while rest.len() > 0
            invariant
                rest@.len() + reversed@.len() == s.len(),
                rest@ == s.subrange(0, rest@.len() as int),
                forall|j: int|
                    0 <= j < reversed@.len() ==> (#[trigger] reversed@[j])@ == s[s.len() - 1 - j],
            decreases rest.len(),
        {
            let x = rest.pop().unwrap();
            reversed.push(ClosureCell::new(x));
        }
        let mut cells: Vec<ClosureCell<T>> = Vec::new();
        while reversed.len() > 0
            invariant
                cells@.len() + reversed@.len() == s.len(),
                forall|k: int| 0 <= k < cells@.len() ==> (#[trigger] cells@[k])@ == s[k],
                forall|j: int|
                    0 <= j < reversed@.len() ==> (#[trigger] reversed@[j])@ == s[s.len() - 1 - j],
            decreases reversed.len(),
        {
            let c = reversed.pop().unwrap();
            cells.push(c);
        }
        assert(contents(cells@) =~= s);
        cells
    }

    /// Joins a sequence of cells back into one cell holding the sequence of
    /// their values, in order.
    pub fn from_slice_of_cells(cells: Vec<ClosureCell<T>>) -> (r: Self)
        ensures
            r@@ == contents(cells@),
    {
        let ghost s = contents(cells@);
        let mut rest = cells;
        let mut reversed: Vec<T> = Vec::new();
        while rest.len() > 0
            invariant
                rest@.len() + reversed@.len() == s.len(),
                contents(rest@) == s.subrange(0, rest@.len() as int),
                forall|j: int| 0 <= j < reversed@.len() ==> #[trigger] reversed@[j] == s[s.len() - 1 - j],
            decreases rest.len(),
        {
            let ghost before = rest@;
            let c = rest.pop().unwrap();
            proof {
                assert(c@ == contents(before)[rest@.len() as int]);
                assert(contents(rest@) =~= contents(before).subrange(0, rest@.len() as int));
            }
            reversed.push(c.into_inner());
        }
        let mut values: Vec<T> = Vec::new();
        while reversed.len() > 0
            invariant
                values@.len() + reversed@.len() == s.len(),
                forall|k: int| 0 <= k < values@.len() ==> #[trigger] values@[k] == s[k],
                forall|j: int| 0 <= j < reversed@.len() ==> #[trigger] reversed@[j] == s[s.len() - 1 - j],
            decreases reversed.len(),
        {
            let x = reversed.pop().unwrap();
            values.push(x);
        }
        assert(values@ =~= s);
        ClosureCell::new(values)
    }
}

} // verus!
