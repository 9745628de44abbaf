use closure_cell::ClosureCell;
use std::cmp::Ordering;

#[test]
fn new_into_inner_round_trip() {
    assert_eq!(ClosureCell::new(7u32).into_inner(), 7);
    assert_eq!(ClosureCell::new(String::from("abc")).into_inner(), "abc");
    assert_eq!(ClosureCell::new(vec![1u8, 2, 3]).into_inner(), vec![1, 2, 3]);
    assert_eq!(ClosureCell::new(()).into_inner(), ());
}

#[test]
fn set_then_get_gives_new_value() {
    let mut c = ClosureCell::new(1i64);
    c.set(2);
    assert_eq!(c.get(), 2);

    let mut s = ClosureCell::new(String::from("old"));
    s.set(String::from("new"));
    assert_eq!(s.into_inner(), "new");
}

#[test]
fn replace_returns_previous_value() {
    let mut c = ClosureCell::new(10u32);
    assert_eq!(c.replace(20), 10);
    assert_eq!(c.get(), 20);
    assert_eq!(c.replace(30), 20);
    assert_eq!(c.into_inner(), 30);
}

#[test]
fn swap_exchanges_contents() {
    let mut a = ClosureCell::new(String::from("x"));
    let mut b = ClosureCell::new(String::from("y"));
    a.swap(&mut b);
    assert_eq!(a.into_inner(), "y");
    assert_eq!(b.into_inner(), "x");
}

#[test]
fn swap_of_equal_values_keeps_them() {
    let mut a = ClosureCell::new(5u8);
    let mut b = ClosureCell::new(5u8);
    a.swap(&mut b);
    assert_eq!(a.get(), 5);
    assert_eq!(b.get(), 5);
}

#[test]
fn take_leaves_default() {
    let mut c = ClosureCell::new(42u64);
    assert_eq!(c.take(), 42);
    assert_eq!(c.get(), 0);

    let mut s = ClosureCell::new(String::from("abc"));
    assert_eq!(s.take(), "abc");
    assert_eq!(s.into_inner(), "");

    let mut v = ClosureCell::new(vec![1u32, 2]);
    assert_eq!(v.take(), vec![1, 2]);
    assert!(v.into_inner().is_empty());
}

#[test]
fn with_inner_mutates_cell() {
    let mut c = ClosureCell::new(0u64);
    c.with_inner(|x: &mut u64| *x += 1);
    assert_eq!(c.get(), 1);
}

#[test]
fn with_inner_called_n_times_gives_n() {
    let mut c = ClosureCell::new(0u64);
    for _ in 0..25 {
        c.with_inner(|x: &mut u64| *x += 1);
    }
    assert_eq!(c.get(), 25);
}

#[test]
fn with_inner_on_non_copy_contents() {
    let mut c = ClosureCell::new(vec![1u32]);
    let extra = 9u32;
    c.with_inner(move |v: &mut Vec<u32>| v.push(extra));
    assert_eq!(c.into_inner(), vec![1, 9]);
}

#[test]
fn get_mut_writes_through() {
    let mut c = ClosureCell::new(3i32);
    *c.get_mut() = -4;
    assert_eq!(c.get(), -4);
}

#[test]
fn slice_of_cells_has_one_cell_per_element() {
    let whole = ClosureCell::new(vec![10u32, 20, 30, 40]);
    let mut cells = whole.as_slice_of_cells();
    assert_eq!(cells.len(), 4);
    assert_eq!(cells[0].get(), 10);
    assert_eq!(cells[3].get(), 40);
    for i in 0..4 {
        cells[i].set(i as u32 * 100 + 1);
    }
    let joined = ClosureCell::from_slice_of_cells(cells);
    assert_eq!(joined.into_inner(), vec![1, 101, 201, 301]);
}

#[test]
fn slice_of_cells_mutating_one_element() {
    for i in 0..3usize {
        let whole = ClosureCell::new(vec![String::from("a"), String::from("b"), String::from("c")]);
        let mut cells = whole.as_slice_of_cells();
        cells[i].set(String::from("z"));
        let joined = ClosureCell::from_slice_of_cells(cells).into_inner();
        let mut expected = vec![String::from("a"), String::from("b"), String::from("c")];
        expected[i] = String::from("z");
        assert_eq!(joined, expected);
    }
}

#[test]
fn slice_of_cells_empty() {
    let whole: ClosureCell<Vec<u8>> = ClosureCell::new(Vec::new());
    let cells = whole.as_slice_of_cells();
    assert_eq!(cells.len(), 0);
    assert!(ClosureCell::from_slice_of_cells(cells).into_inner().is_empty());
}

#[test]
fn ordering_forwards_to_contents() {
    let pairs = [(1u32, 2u32), (2, 2), (3, 2)];
    for (a, b) in pairs {
        let ca = ClosureCell::new(a);
        let cb = ClosureCell::new(b);
        assert_eq!(ca.cmp(&cb), a.cmp(&b));
        assert_eq!(ca.partial_cmp(&cb), a.partial_cmp(&b));
        assert_eq!(ca < cb, a < b);
        assert_eq!(ca <= cb, a <= b);
        assert_eq!(ca > cb, a > b);
        assert_eq!(ca >= cb, a >= b);
        assert_eq!(ca == cb, a == b);
    }
    assert_eq!(ClosureCell::new(1i8).cmp(&ClosureCell::new(-1i8)), Ordering::Greater);
    assert_eq!(ClosureCell::new(1i8).cmp(&ClosureCell::new(1i8)), Ordering::Equal);
    assert_eq!(ClosureCell::new(-5i8).cmp(&ClosureCell::new(1i8)), Ordering::Less);
}

#[test]
fn clone_copies_current_value() {
    let mut c = ClosureCell::new(8u16);
    let d = c.clone();
    c.set(9);
    assert_eq!(d.get(), 8);
    assert_eq!(c.get(), 9);
}

#[test]
fn from_and_default() {
    let c: ClosureCell<u32> = ClosureCell::from(17);
    assert_eq!(c.get(), 17);
    let d: ClosureCell<u32> = ClosureCell::default();
    assert_eq!(d.get(), 0);
    let e: ClosureCell<bool> = Default::default();
    assert!(!e.get());
}
