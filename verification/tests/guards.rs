use std::cell::Cell;
use std::rc::Rc;

use dispatching::guard::{Guard, Guards, OrGuard};

/// Accepts integers at or above a threshold.
struct AtLeast(i32);

impl Guard<i32> for AtLeast {
    fn spec_check(&self, _update: &i32) -> bool {
        unreachable!()
    }

    fn check(&self, update: &i32) -> bool {
        *update >= self.0
    }
}

/// Returns a fixed answer and counts how often it was consulted.
struct Counting {
    hits: Rc<Cell<u32>>,
    result: bool,
}

impl Guard<i32> for Counting {
    fn spec_check(&self, _update: &i32) -> bool {
        unreachable!()
    }

    fn check(&self, _update: &i32) -> bool {
        self.hits.set(self.hits.get() + 1);
        self.result
    }
}

fn counting(hits: &Rc<Cell<u32>>, result: bool) -> Counting {
    Counting { hits: hits.clone(), result }
}

#[test]
fn guard_conjunction_matches_boolean_and() {
    for x in [1, 5, 9] {
        let gs = Guards::new().add(AtLeast(3)).add(AtLeast(7));
        assert_eq!(gs.check(&x), (x >= 3) && (x >= 7));
    }
}

#[test]
fn empty_conjunction_accepts_everything() {
    let gs: Guards<i32, AtLeast> = Guards::new();
    assert!(gs.check(&-100));
}

#[test]
fn conjunction_short_circuits_on_first_rejection() {
    let first = Rc::new(Cell::new(0));
    let second = Rc::new(Cell::new(0));
    let gs = Guards::new()
        .add(counting(&first, false))
        .add(counting(&second, true));
    assert!(!gs.check(&0));
    assert_eq!(first.get(), 1);
    assert_eq!(second.get(), 0);
}

#[test]
fn guards_with_concatenates_both_sets() {
    let left = Guards::new().add(AtLeast(3));
    let right = Guards::new().add(AtLeast(7));
    let gs = left.with(right);
    assert!(gs.check(&8));
    assert!(!gs.check(&5));
}

#[test]
fn add_guard_extends_in_place() {
    let mut gs = Guards::new();
    gs.add_guard(AtLeast(3));
    gs.add_guard(AtLeast(7));
    assert!(gs.check(&7));
    assert!(!gs.check(&6));
}

#[test]
fn or_guard_matches_boolean_or() {
    for (a, b) in [(false, false), (false, true), (true, false), (true, true)] {
        let hits = Rc::new(Cell::new(0));
        let g = OrGuard::new(counting(&hits, a), counting(&hits, b));
        assert_eq!(g.check(&0), a || b);
    }
}

#[test]
fn or_guard_skips_right_when_left_accepts() {
    let left = Rc::new(Cell::new(0));
    let right = Rc::new(Cell::new(0));
    let g = OrGuard::new(counting(&left, true), counting(&right, true));
    assert!(g.check(&0));
    assert_eq!(left.get(), 1);
    assert_eq!(right.get(), 0);
}

#[test]
fn or_guard_consults_right_when_left_rejects() {
    let left = Rc::new(Cell::new(0));
    let right = Rc::new(Cell::new(0));
    let g = OrGuard::new(counting(&left, false), counting(&right, true));
    assert!(g.check(&0));
    assert_eq!(left.get(), 1);
    assert_eq!(right.get(), 1);
}
