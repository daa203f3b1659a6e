//! A convenient place for importing the traits of this crate in one go.

pub use crate::adapter::Transform;
pub use crate::source::Expander;
pub use crate::source::Source;
