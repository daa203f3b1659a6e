use std::cell::Cell;
use std::rc::Rc;

use vstd::prelude::Seq;

use transform::Expander;
use transform::Source;
use transform::Transform;
use transform::VecSource;

/// An endless source of the natural numbers that counts how many elements
/// have been pulled from it.
struct Naturals {
    next_value: u64,
    pulls: Rc<Cell<u64>>,
}

impl Source for Naturals {
    type Item = u64;

    fn remaining(&self) -> Seq<u64> {
        unreachable!()
    }

    fn next(&mut self) -> Option<u64> {
        self.pulls.set(self.pulls.get() + 1);
        let x = self.next_value;
        self.next_value += 1;
        Some(x)
    }
}

/// Keeps even numbers and counts how often it is invoked.
struct CountedKeepEven {
    calls: Rc<Cell<u64>>,
}

impl Expander for CountedKeepEven {
    type Input = u64;
    type Output = u64;

    fn expansion(_: u64) -> Seq<u64> {
        unreachable!()
    }

    fn expand(&mut self, x: u64) -> Vec<u64> {
        self.calls.set(self.calls.get() + 1);
        if x % 2 == 0 {
            vec![x]
        } else {
            vec![]
        }
    }
}

/// Expands `n` into `[n, n + 1]` and counts how often it is invoked.
struct CountedPair {
    calls: Rc<Cell<u64>>,
}

impl Expander for CountedPair {
    type Input = i32;
    type Output = i32;

    fn expansion(_: i32) -> Seq<i32> {
        unreachable!()
    }

    fn expand(&mut self, x: i32) -> Vec<i32> {
        self.calls.set(self.calls.get() + 1);
        vec![x, x + 1]
    }
}

#[test]
fn bounded_prefix_of_an_endless_source() {
    let pulls = Rc::new(Cell::new(0));
    let calls = Rc::new(Cell::new(0));
    let src = Naturals { next_value: 0, pulls: Rc::clone(&pulls) };
    let f = CountedKeepEven { calls: Rc::clone(&calls) };
    let mut t = src.transform(f);

    // Requesting five outputs of an endless source terminates, touching
    // only the prefix 0..=8 of the naturals.
    let mut out: Vec<u64> = Vec::new();
    for _ in 0..5 {
        out.push(t.next().unwrap());
    }
    assert_eq!(out, vec![0, 2, 4, 6, 8]);
    assert_eq!(pulls.get(), 9);
    assert_eq!(calls.get(), 9);
}

#[test]
fn expander_called_once_per_pulled_element() {
    let calls = Rc::new(Cell::new(0));
    let src = VecSource::new(vec![10, 20, 30]);
    let f = CountedPair { calls: Rc::clone(&calls) };
    let mut t = src.transform(f);

    // Building the adapter invokes the expander on nothing.
    assert_eq!(calls.get(), 0);

    // Each input element is expanded exactly once, when first needed, and
    // emitting the rest of its expansion expands nothing further.
    assert_eq!(t.next(), Some(10));
    assert_eq!(calls.get(), 1);
    assert_eq!(t.next(), Some(11));
    assert_eq!(calls.get(), 1);
    assert_eq!(t.next(), Some(20));
    assert_eq!(calls.get(), 2);
    assert_eq!(t.next(), Some(21));
    assert_eq!(calls.get(), 2);
    assert_eq!(t.next(), Some(30));
    assert_eq!(calls.get(), 3);
    assert_eq!(t.next(), Some(31));
    assert_eq!(calls.get(), 3);

    // Exhaustion never re-invokes the expander.
    assert_eq!(t.next(), None);
    assert_eq!(t.next(), None);
    assert_eq!(calls.get(), 3);
}
