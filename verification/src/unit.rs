//! Emitted units: one generated implementation each.

use vstd::prelude::*;
use crate::capability::{Capability, Gate};

verus! {

/// One self-contained generated implementation.
#[derive(Clone, Debug, PartialEq, Eq)]
pub struct EmittedUnit {
    /// The capability that the implementation gives the wrapper.
    pub capability: Capability,
    /// When the implementation applies.
    pub gate: Gate,
    /// The implementation, as Rust source.
    pub source: String,
}

/// An emitted unit as a mathematical value.
pub struct EmittedUnitView {
    pub capability: Capability,
    pub gate: Gate,
    pub source: Seq<char>,
}

impl View for EmittedUnit {
    type V = EmittedUnitView;

    open spec fn view(&self) -> EmittedUnitView {
        EmittedUnitView { capability: self.capability, gate: self.gate, source: self.source@ }
    }
}

impl DeepView for EmittedUnit {
    type V = EmittedUnitView;

    open spec fn deep_view(&self) -> EmittedUnitView {
        self@
    }
}

impl EmittedUnitView {
    /// Whether the unit applies to an inner type that supports exactly
    /// `supported`.
    pub open spec fn applies_to(self, supported: Set<Capability>) -> bool {
        self.gate.admits(supported)
    }
}

impl EmittedUnit {
    /// Decides whether the unit applies to an inner type with the listed
    /// capabilities.
    pub fn applies_to(&self, inner: &Vec<Capability>) -> (applies: bool)
        ensures
            applies == self@.applies_to(inner@.to_set()),
    {
        self.gate.is_open_for(inner)
    }
}

/// The capabilities that `units` give a wrapper whose inner type supports
/// exactly `supported`, in the order of the units.
pub open spec fn exposed(units: Seq<EmittedUnitView>, supported: Set<Capability>) -> Seq<Capability>
    decreases units.len(),
{
    if units.len() == 0 {
        Seq::empty()
    } else {
        let before = exposed(units.drop_last(), supported);
        if units.last().applies_to(supported) {
            before.push(units.last().capability)
        } else {
            before
        }
    }
}

/// Lists the capabilities that `units` give a wrapper whose inner type has
/// the capabilities listed in `inner`.
pub fn exposed_capabilities(
    units: &Vec<EmittedUnit>,
    inner: &Vec<Capability>,
) -> (capabilities: Vec<Capability>)
    ensures
        capabilities@ == exposed(units.deep_view(), inner@.to_set()),
{
    let mut capabilities: Vec<Capability> = Vec::new();
    let mut i: usize = 0;
    while i < units.len()
        invariant
            i <= units.len(),
            capabilities@ == exposed(units.deep_view().take(i as int), inner@.to_set()),
        decreases units.len() - i,
    {
        proof {
            let all = units.deep_view();
            assert(all.take(i + 1).drop_last() == all.take(i as int));
            assert(all.take(i + 1).last() == units@[i as int]@);
        }
        if units[i].applies_to(inner) {
            capabilities.push(units[i].capability);
        }
        i += 1;
    }
    proof {
        assert(units.deep_view().take(i as int) == units.deep_view());
    }
    capabilities
}

} // verus!
