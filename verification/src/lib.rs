//! A lazily transforming sequence adapter.
//!
//! The library provides the [`Transform`] trait, which turns any [`Source`]
//! of elements together with an [`Expander`] (a mapping from one input
//! element to zero or more output elements) into a [`TransformIter`]: a new
//! source that produces, in order, the concatenation of the expansions of
//! the input elements, pulling from the underlying source only as needed.

pub mod adapter;
pub mod prelude;
pub mod source;

pub use adapter::expansions_of;
pub use adapter::first_expansions;
pub use adapter::flatten_expansions;
pub use adapter::lemma_empty_expansions;
pub use adapter::lemma_flatten_map_law;
pub use adapter::lemma_singleton_expansions;
pub use adapter::Transform;
pub use adapter::TransformIter;
pub use source::collect_all;
pub use source::Expander;
pub use source::Source;
pub use source::VecSource;
