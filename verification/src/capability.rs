//! Capabilities of a type, and the gates that make an implementation
//! conditional on what the inner type supports.

use vstd::prelude::*;

verus! {

/// A behaviour that a type may or may not support.
///
/// The same tags describe both sides of a forwarding implementation: what the
/// wrapper gains, and what the inner type has to support for it.
#[derive(Clone, Copy, Debug, PartialEq, Eq, Hash, Structural)]
pub enum Capability {
    /// `Branded`: borrowing the inner value and taking it out.
    Accessors,
    /// The constructor `new`.
    Constructor,
    /// `Clone`.
    Clone,
    /// `Copy`.
    Copy,
    /// `Display`.
    Display,
    /// `Debug`.
    Debug,
    /// `Default`.
    Default,
    /// `PartialEq`.
    PartialEq,
    /// `Eq`.
    Eq,
    /// `Ord`.
    Ord,
    /// `PartialOrd`.
    PartialOrd,
    /// `Hash`.
    Hash,
    /// `serde::Serialize`.
    Serialize,
    /// `serde::Deserialize`.
    Deserialize,
    /// `sqlx::Type`.
    SqlType,
    /// `sqlx::Decode`.
    SqlDecode,
    /// `sqlx::Encode`.
    SqlEncode,
    /// The factories `nil` and `new_v4` of `uuid::Uuid`.
    UuidFactories,
}

impl Capability {
    /// The capabilities that every wrapper forwards without being asked:
    /// duplication, rendering, default, equality, ordering and hashing.
    pub open spec fn is_core(self) -> bool {
        match self {
            Capability::Clone
            | Capability::Copy
            | Capability::Display
            | Capability::Debug
            | Capability::Default
            | Capability::PartialEq
            | Capability::Eq
            | Capability::Ord
            | Capability::PartialOrd
            | Capability::Hash => true,
            _ => false,
        }
    }

    /// The capabilities that a wrapper has whatever its inner type is.
    pub open spec fn is_unconditional(self) -> bool {
        self == Capability::Accessors || self == Capability::Constructor
    }
}

/// When an emitted implementation applies.
#[derive(Clone, Copy, Debug, PartialEq, Eq, Structural)]
pub enum Gate {
    /// Whatever the inner type is.
    Always,
    /// Only when the inner type supports the capability.
    InnerSupports(Capability),
}

impl Gate {
    /// Whether an inner type that supports exactly `supported` passes.
    pub open spec fn admits(self, supported: Set<Capability>) -> bool {
        match self {
            Gate::Always => true,
            Gate::InnerSupports(capability) => supported.contains(capability),
        }
    }

    /// Decides whether an inner type with the listed capabilities passes.
    pub fn is_open_for(&self, inner: &Vec<Capability>) -> (open: bool)
        ensures
            open == self.admits(inner@.to_set()),
    {
        match self {
            Gate::Always => true,
            Gate::InnerSupports(capability) => supports(inner, *capability),
        }
    }
}

/// Whether `capability` is among the capabilities listed in `inner`.
pub fn supports(inner: &Vec<Capability>, capability: Capability) -> (found: bool)
    ensures
        found == inner@.to_set().contains(capability),
{
    let mut i: usize = 0;
    while i < inner.len()
        invariant
            i <= inner.len(),
            forall|j: int| 0 <= j < i ==> inner@[j] != capability,
        decreases inner.len() - i,
    {
        if inner[i] == capability {
            return true;
        }
        i += 1;
    }
    false
}

} // verus!
