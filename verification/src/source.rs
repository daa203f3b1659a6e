//! Pull-based producers of lazy sequences, and the per-element mapping
//! functions that expand one input element into zero or more outputs.

use vstd::prelude::*;

verus! {

/// A pull-based producer of a lazy sequence of elements.
///
/// The spec function [`Source::remaining`] is the mathematical model of a
/// source: the sequence of elements it will still produce, in order. Each
/// call of [`Source::next`] either hands out the first remaining element and
/// drops it from the model, or reports exhaustion, in which case the model
/// is empty and stays empty: exhaustion is permanent.
pub trait Source {
    /// The type of the elements produced.
    type Item;

    /// The elements this source will still produce, in order.
    spec fn remaining(&self) -> Seq<Self::Item>;

    /// Pull the next element, or report that the source is exhausted.
    fn next(&mut self) -> (r: Option<Self::Item>)
        ensures
            match r {
                Some(x) => old(self).remaining().len() > 0
                    && x == old(self).remaining().first()
                    && final(self).remaining() == old(self).remaining().drop_first(),
                None => old(self).remaining().len() == 0
                    && final(self).remaining() == old(self).remaining(),
            },
    ;
}

/// A mapping function from one input element to zero or more output
/// elements, of a possibly different type.
///
/// The spec function [`Expander::expansion`] pins down, for every input
/// element, the sequence of outputs that element expands to. The exec method
/// [`Expander::expand`] returns exactly that sequence; it takes `&mut self`,
/// so an implementation may keep state of its own (a call counter, a cache),
/// but the elements it returns are a function of the input element alone.
pub trait Expander {
    /// The type of the elements taken in.
    type Input;

    /// The type of the elements produced.
    type Output;

    /// The outputs that a single input element expands to, in order.
    spec fn expansion(x: Self::Input) -> Seq<Self::Output>;

    /// Expand one input element into its sequence of outputs.
    fn expand(&mut self, x: Self::Input) -> (r: Vec<Self::Output>)
        ensures
            r@ == Self::expansion(x),
    ;
}

/// A source that produces the elements of a vector, front to back.
pub struct VecSource<T> {
    items: Vec<T>,
}

impl<T> VecSource<T> {
    /// Wrap a vector as a source of its elements.
    pub fn new(items: Vec<T>) -> (r: VecSource<T>)
        ensures
            r.remaining() == items@,
    {
        VecSource { items }
    }
}

impl<T> Source for VecSource<T> {
    type Item = T;

    closed spec fn remaining(&self) -> Seq<T> {
        self.items@
    }

    fn next(&mut self) -> (r: Option<T>) {
        if self.items.len() > 0 {
            let x = self.items.remove(0);
            proof {
                assert(self.items@ =~= old(self).items@.drop_first());
            }
            Some(x)
        } else {
            None
        }
    }
}

/// Drain a source to the end, collecting every element it produces into a
/// vector, in order. Terminates only for sources with finitely many
/// remaining elements, which is every source this library can model.
pub fn collect_all<S: Source>(s: S) -> (out: Vec<S::Item>)
    ensures
        out@ == s.remaining(),
{
    let mut src = s;
    let ghost total = src.remaining();
    let mut out: Vec<S::Item> = Vec::new();
    loop
        invariant_except_break
            out@ + src.remaining() == total,
        ensures
            out@ == total,
        decreases src.remaining().len(),
    {
        match src.next() {
            Some(x) => {
                out.push(x);
                proof {
                    assert(out@ + src.remaining() =~= total);
                }
            },
            None => {
                proof {
                    assert(out@ =~= total);
                }
                break;
            },
        }
    }
    out
}

} // verus!
