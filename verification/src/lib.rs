//! Schema-driven synthesis of error-chaining implementations.
//!
//! Given the declared shape of a type (a single product shape, a list of
//! variants, or an uninhabited type), the library resolves per-field cause
//! annotations into a cause selection for every variant, and synthesizes a
//! structural representation of the implementation body: one destructuring
//! pattern and one cause expression per variant, together with a bounds
//! assertion that pins the target type to `Send + Sync + 'static`.
//! A small runtime walks the resulting chain of causes.

use vstd::prelude::*;

pub mod chain;
pub mod laws;
pub mod resolve;
pub mod schema;
pub mod synth;

pub use chain::{Error, Iter};

verus! {

/// The two ways a tagged field designates a cause: the field itself is the
/// cause, or the field's own cause (one hop further) is reported instead.
#[derive(Clone, Copy, PartialEq, Eq, Structural, Debug)]
pub enum CauseTag {
    Direct,
    Deferred,
}

} // verus!
