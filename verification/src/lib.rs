//! Branded types: nominally distinct single-field wrappers around an inner
//! value, and the generator that writes their forwarding implementations.
//!
//! A brand such as `UserId(String)` keeps a user's identifier apart from an
//! order's, though both are strings. For a declaration of such a wrapper the
//! generator writes the constructor and the accessors, and one implementation
//! for each capability of the inner type that the wrapper forwards. Each
//! implementation is bounded by the same capability on the inner type, so a
//! wrapper has exactly those capabilities that its inner type has.
//!
//! [`generator::expand_branded_derive`] is the whole path from a declaration
//! and its flags to the definition that replaces it; [`laws`] states what
//! holds of every request.

use vstd::prelude::*;

pub mod capability;
pub mod core_emitter;
pub mod error;
pub mod generator;
pub mod laws;
pub mod optional_emitter;
pub mod options;
pub mod source;
pub mod unit;

pub use crate::capability::{Capability, Gate};
pub use crate::error::{GenerationError, ShapeError};
pub use crate::generator::{assemble, expand_branded_derive, generate};
pub use crate::options::{
    resolve,
    CapabilityRequestSet,
    Declaration,
    DeclarationKind,
    WrapperDeclaration,
};
pub use crate::unit::{exposed_capabilities, EmittedUnit};

verus! {

/// A type that is a brand of some inner type.
///
/// The generated definition implements this trait for every wrapper. Code
/// that is generic over all brands can be written against it.
pub trait Branded {
    /// The inner type of the brand.
    type Inner;

    /// Borrows the inner value.
    fn inner(&self) -> &Self::Inner;

    /// Gives up the brand and hands out the inner value.
    fn into_inner(self) -> Self::Inner;
}

} // verus!
