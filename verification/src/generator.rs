//! From a declaration and its flags to the definition that replaces it.
//!
//! A request is resolved, the core capabilities are emitted, then the
//! requested ones, and the units are joined in that order. A request that
//! does not resolve emits nothing.

use vstd::prelude::*;
use vstd::string::*;
use crate::core_emitter::{core_units, emit_core};
use crate::error::{GenerationError, GenerationErrorView};
use crate::optional_emitter::{emit_optional, optional_units};
use crate::options::{
    resolution,
    resolve,
    CapabilityRequestSet,
    Declaration,
    DeclarationView,
    WrapperDeclarationView,
};
use crate::source::append_units;
use crate::unit::{EmittedUnit, EmittedUnitView};

verus! {

/// The units emitted for a wrapper: the core capabilities first, then the
/// requested ones.
pub open spec fn generated_units(
    wrapper: WrapperDeclarationView,
    requests: CapabilityRequestSet,
) -> Seq<EmittedUnitView> {
    core_units(wrapper) + optional_units(wrapper.name, requests)
}

/// What a generation request gives: the emitted units in order, or the
/// failure.
pub open spec fn generation(
    declaration: DeclarationView,
    flags: Seq<Seq<char>>,
) -> Result<Seq<EmittedUnitView>, GenerationErrorView> {
    match resolution(declaration, flags) {
        Ok((wrapper, requests)) => Ok(generated_units(wrapper, requests)),
        Err(error) => Err(error),
    }
}

/// The sources of `units`, one after the other.
pub open spec fn assembled(units: Seq<EmittedUnitView>) -> Seq<char>
    decreases units.len(),
{
    if units.len() == 0 {
        Seq::empty()
    } else {
        assembled(units.drop_last()) + units.last().source
    }
}

/// What a generation request writes: the definition that replaces the
/// declaration, or the failure.
pub open spec fn expansion(
    declaration: DeclarationView,
    flags: Seq<Seq<char>>,
) -> Result<Seq<char>, GenerationErrorView> {
    match generation(declaration, flags) {
        Ok(units) => Ok(assembled(units)),
        Err(error) => Err(error),
    }
}

/// Generates the units for a declaration and its requested flags.
///
/// Fails, with nothing emitted, exactly when the declaration is no tuple
/// struct with one field or a flag names no optional capability.
pub fn generate(
    declaration: &Declaration,
    flags: &Vec<String>,
) -> (generated: Result<Vec<EmittedUnit>, GenerationError>)
    ensures
        match generation(declaration@, flags.deep_view()) {
            Ok(units) => generated matches Ok(found) && found.deep_view() == units,
            Err(error) => generated matches Err(found) && found@ == error,
        },
{
    match resolve(declaration, flags) {
        Ok((wrapper, requests)) => {
            let mut units = emit_core(&wrapper);
            append_units(&mut units, emit_optional(wrapper.name.as_str(), requests));
            Ok(units)
        },
        Err(error) => Err(error),
    }
}

/// Joins the units, in the order in which they stand, into one definition.
pub fn assemble(units: &Vec<EmittedUnit>) -> (definition: String)
    ensures
        definition@ == assembled(units.deep_view()),
{
    let mut definition = String::new();
    let mut i: usize = 0;
    while i < units.len()
        invariant
            i <= units.len(),
            definition@ == assembled(units.deep_view().take(i as int)),
        decreases units.len() - i,
    {
        proof {
            let all = units.deep_view();
            assert(all.take(i + 1).drop_last() == all.take(i as int));
            assert(all.take(i + 1).last() == units@[i as int]@);
        }
        definition.append(units[i].source.as_str());
        i += 1;
    }
    proof {
        assert(units.deep_view().take(i as int) == units.deep_view());
    }
    definition
}

/// Writes the definition that replaces a declaration: every unit that the
/// declaration and its flags call for, core capabilities first.
///
/// Fails, with nothing written, exactly when the declaration is no tuple
/// struct with one field or a flag names no optional capability.
pub fn expand_branded_derive(
    declaration: &Declaration,
    flags: &Vec<String>,
) -> (expanded: Result<String, GenerationError>)
    ensures
        match expansion(declaration@, flags.deep_view()) {
            Ok(definition) => expanded matches Ok(found) && found@ == definition,
            Err(error) => expanded matches Err(found) && found@ == error,
        },
{
    match generate(declaration, flags) {
        Ok(units) => Ok(assemble(&units)),
        Err(error) => Err(error),
    }
}

} // verus!
