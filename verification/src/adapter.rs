//! The transforming sequence adapter: a source combined with an expander,
//! producing the ordered concatenation of the per-element expansions.

use vstd::prelude::*;

use crate::source::Expander;
use crate::source::Source;

verus! {

/// The ordered concatenation of the expansions of the elements of `s`:
/// what a transforming sequence built over a source with remaining
/// elements `s` produces in total.
pub open spec fn flatten_expansions<F: Expander>(s: Seq<F::Input>) -> Seq<F::Output>
    decreases s.len(),
{
    if s.len() == 0 {
        Seq::empty()
    } else {
        F::expansion(s.first()) + flatten_expansions::<F>(s.drop_first())
    }
}

/// A source that maps each element of an underlying source to zero or more
/// elements of a possibly different type, lazily.
///
/// At any time it holds at most one pending expansion: the not-yet-emitted
/// outputs of the most recently pulled input element. An absent buffer means
/// no expansion is in progress.
pub struct TransformIter<I, F> where I: Source, F: Expander<Input = I::Item> {
    /// The underlying source of input elements.
    iter: I,
    /// The mapping function applied to each input element.
    func: F,
    /// The pending expansion: outputs of the current input element that have
    /// not been emitted yet.
    buf: Option<Vec<F::Output>>,
}

impl<I, F> TransformIter<I, F> where I: Source, F: Expander<Input = I::Item> {
    /// The not-yet-emitted outputs of the pending expansion, if one is
    /// present.
    pub closed spec fn buffered(&self) -> Seq<F::Output> {
        match self.buf {
            Some(b) => b@,
            None => Seq::empty(),
        }
    }
}

impl<I, F> Source for TransformIter<I, F> where I: Source, F: Expander<Input = I::Item> {
    type Item = F::Output;

    /// What is still to come: first the pending expansion, then the
    /// expansions of the input elements not yet pulled.
    closed spec fn remaining(&self) -> Seq<F::Output> {
        self.buffered() + flatten_expansions::<F>(self.iter.remaining())
    }

    /// Produce the next output element, or report that both the pending
    /// expansion and the underlying source are exhausted. Pulls input
    /// elements one at a time, skipping those whose expansion is empty, and
    /// never pulls beyond the first input element that yields an output.
    #[verifier::loop_isolation(false)]
    fn next(&mut self) -> (r: Option<F::Output>) {
        let ghost entry = self.remaining();

        // Flush the pending expansion first.
        let mut pending: Option<Vec<F::Output>> = None;
        core::mem::swap(&mut pending, &mut self.buf);
        match pending {
            Some(mut b) => {
                if b.len() > 0 {
                    let x = b.remove(0);
                    self.buf = Some(b);
                    proof {
                        assert(self.remaining() =~= entry.drop_first());
                    }
                    return Some(x);
                }
                proof {
                    assert(entry =~= flatten_expansions::<F>(self.iter.remaining()));
                }
            },
            None => {
                proof {
                    assert(entry =~= flatten_expansions::<F>(self.iter.remaining()));
                }
            },
        }

        // The pending expansion was absent or already drained: pull input
        // elements until one expands to at least one output, or the source
        // ends. Each pulled element is expanded exactly once.
        loop
            invariant
                self.buf is None,
                flatten_expansions::<F>(self.iter.remaining()) == entry,
            decreases self.iter.remaining().len(),
        {
            let ghost prev = self.iter.remaining();
            match self.iter.next() {
                None => {
                    proof {
                        assert(self.remaining() =~= entry);
                    }
                    return None;
                },
                Some(x) => {
                    proof {
                        assert(flatten_expansions::<F>(prev) == F::expansion(prev.first())
                            + flatten_expansions::<F>(prev.drop_first()));
                    }
                    let mut exp = self.func.expand(x);
                    if exp.len() > 0 {
                        let first = exp.remove(0);
                        proof {
                            assert(exp@ =~= F::expansion(x).drop_first());
                        }
                        self.buf = Some(exp);
                        proof {
                            assert(self.remaining() =~= entry.drop_first());
                        }
                        return Some(first);
                    }
                    proof {
                        assert(flatten_expansions::<F>(self.iter.remaining()) =~= entry);
                    }
                },
            }
        }
    }
}

/// The expansions of the elements of `s`, one sequence per element, in
/// order, not yet concatenated.
pub open spec fn expansions_of<F: Expander>(s: Seq<F::Input>) -> Seq<Seq<F::Output>> {
    s.map_values(|x: F::Input| F::expansion(x))
}

/// The first output of the expansion of each element of `s`, in order.
pub open spec fn first_expansions<F: Expander>(s: Seq<F::Input>) -> Seq<F::Output> {
    s.map_values(|x: F::Input| F::expansion(x).first())
}

/// Flatten-map law: over any finite sequence of input elements, the total
/// output of the transforming sequence equals the concatenation, in order,
/// of the expansion of each input element. By the contracts of
/// [`Transform::transform`] and [`collect_all`](crate::source::collect_all),
/// [`flatten_expansions`] is exactly what draining the adapter yields.
pub proof fn lemma_flatten_map_law<F: Expander>(s: Seq<F::Input>)
    ensures
        flatten_expansions::<F>(s) == expansions_of::<F>(s).flatten(),
    decreases s.len(),
{
    if s.len() == 0 {
        assert(flatten_expansions::<F>(s) =~= expansions_of::<F>(s).flatten());
    } else {
        lemma_flatten_map_law::<F>(s.drop_first());
        assert(expansions_of::<F>(s.drop_first()) =~= expansions_of::<F>(s).drop_first());
        assert(expansions_of::<F>(s).flatten() == expansions_of::<F>(s).first()
            + expansions_of::<F>(s).drop_first().flatten());
        assert(flatten_expansions::<F>(s) =~= expansions_of::<F>(s).flatten());
    }
}

/// One-to-one mapping law: if every input element expands to exactly one
/// output, the transforming sequence reproduces the input sequence mapped
/// elementwise by the single-valued part of the expander.
pub proof fn lemma_singleton_expansions<F: Expander>(s: Seq<F::Input>)
    requires
        forall|x: F::Input| (#[trigger] F::expansion(x)).len() == 1,
    ensures
        flatten_expansions::<F>(s) == first_expansions::<F>(s),
    decreases s.len(),
{
    if s.len() == 0 {
        assert(flatten_expansions::<F>(s) =~= first_expansions::<F>(s));
    } else {
        lemma_singleton_expansions::<F>(s.drop_first());
        assert(flatten_expansions::<F>(s) =~= first_expansions::<F>(s));
    }
}

/// Empty-expansion law: if every element of the input sequence expands to
/// no outputs at all, the transforming sequence is empty, whatever the
/// length of the input sequence.
pub proof fn lemma_empty_expansions<F: Expander>(s: Seq<F::Input>)
    requires
        forall|i: int| 0 <= i < s.len() ==> (#[trigger] F::expansion(s[i])).len() == 0,
    ensures
        flatten_expansions::<F>(s) == Seq::<F::Output>::empty(),
    decreases s.len(),
{
    if s.len() == 0 {
    } else {
        assert forall|i: int| 0 <= i < s.drop_first().len() implies (#[trigger] F::expansion(
            s.drop_first()[i],
        )).len() == 0 by {
            assert(s.drop_first()[i] == s[i + 1]);
        }
        lemma_empty_expansions::<F>(s.drop_first());
        assert(F::expansion(s.first()) == F::expansion(s[0]));
        assert(flatten_expansions::<F>(s) =~= Seq::<F::Output>::empty());
    }
}

/// Adds [`Transform::transform`] to every [`Source`], the way the adapter
/// is meant to be used: `source.transform(expander)`.
pub trait Transform: Source {
    /// Build a transforming sequence over this source: a new source that
    /// produces, in order, the concatenation of the expansions of this
    /// source's elements, pulling them only as its own elements are
    /// requested.
    fn transform<F>(self, func: F) -> (r: TransformIter<Self, F>) where
        Self: Sized,
        F: Expander<Input = Self::Item>,
        ensures
            r.remaining() == flatten_expansions::<F>(self.remaining()),
    {
        let r = TransformIter { iter: self, func, buf: None };
        proof {
            assert(r.remaining() =~= flatten_expansions::<F>(r.iter.remaining()));
        }
        r
    }
}

impl<T: Source> Transform for T {}

} // verus!
