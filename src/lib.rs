//! Values that carry a proof of validity: a `Refined<R>` can only be built by
//! running the rule `R`, and holds a value that `R` accepts for as long as it
//! lives. Rules compose through boolean combinators and sequence transformers.
pub mod refined;
pub mod result;
pub mod rule;

pub use refined::Refined;
