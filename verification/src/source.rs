//! The Rust source that implementations are written in.
//!
//! Every emitted implementation bounds the inner type under a `for<'__branded>`
//! binder. The compiler checks such a bound only where the implementation is
//! used, so an implementation whose bound the inner type does not meet stays
//! in the program without an error and simply never applies.

use vstd::prelude::*;
use vstd::string::*;
use crate::capability::{Capability, Gate};
use crate::unit::{EmittedUnit, EmittedUnitView};

verus! {

/// The bound `trait_path` on the inner type, as it stands in a `where` clause.
pub open spec fn inner_bound(trait_path: Seq<char>) -> Seq<char> {
    "for<'__branded> <Self as Branded>::Inner: "@ + trait_path + ","@
}

/// An implementation of `trait_path` for the wrapper `name`.
pub open spec fn trait_impl(
    generics: Seq<char>,
    trait_path: Seq<char>,
    name: Seq<char>,
    bounds: Seq<char>,
    body: Seq<char>,
) -> Seq<char> {
    "impl"@ + generics + " "@ + trait_path + " for "@ + name + " where "@ + bounds + " { "@ + body
        + " }\n"@
}

/// The unit that gives the wrapper `name` the capability `capability` when
/// its inner type supports the same.
pub open spec fn gated_unit(
    capability: Capability,
    generics: Seq<char>,
    trait_path: Seq<char>,
    name: Seq<char>,
    bounds: Seq<char>,
    body: Seq<char>,
) -> EmittedUnitView {
    EmittedUnitView {
        capability,
        gate: Gate::InnerSupports(capability),
        source: trait_impl(generics, trait_path, name, bounds, body),
    }
}

/// The unit that forwards the trait `trait_path` to the inner type: an
/// implementation without parameters of its own, bounded by the same trait on
/// the inner type.
pub open spec fn forwarding_unit(
    capability: Capability,
    trait_path: Seq<char>,
    name: Seq<char>,
    body: Seq<char>,
) -> EmittedUnitView {
    gated_unit(capability, Seq::empty(), trait_path, name, inner_bound(trait_path), body)
}

/// Writes the bound `trait_path` on the inner type.
pub fn write_inner_bound(trait_path: &str) -> (bound: String)
    ensures
        bound@ == inner_bound(trait_path@),
{
    let mut bound = String::from_str("for<'__branded> <Self as Branded>::Inner: ");
    bound.append(trait_path);
    bound.append(",");
    bound
}

/// Writes an implementation of `trait_path` for the wrapper `name`.
pub fn write_trait_impl(
    generics: &str,
    trait_path: &str,
    name: &str,
    bounds: &str,
    body: &str,
) -> (source: String)
    ensures
        source@ == trait_impl(generics@, trait_path@, name@, bounds@, body@),
{
    let mut source = String::from_str("impl");
    source.append(generics);
    source.append(" ");
    source.append(trait_path);
    source.append(" for ");
    source.append(name);
    source.append(" where ");
    source.append(bounds);
    source.append(" { ");
    source.append(body);
    source.append(" }\n");
    source
}

/// Emits the unit that gives the wrapper `name` the capability `capability`
/// when its inner type supports the same.
pub fn emit_gated(
    capability: Capability,
    generics: &str,
    trait_path: &str,
    name: &str,
    bounds: &str,
    body: &str,
) -> (unit: EmittedUnit)
    ensures
        unit@ == gated_unit(capability, generics@, trait_path@, name@, bounds@, body@),
{
    let source = write_trait_impl(generics, trait_path, name, bounds, body);
    EmittedUnit { capability, gate: Gate::InnerSupports(capability), source }
}

/// Emits the unit that forwards the trait `trait_path` to the inner type.
pub fn emit_forwarding(
    capability: Capability,
    trait_path: &str,
    name: &str,
    body: &str,
) -> (unit: EmittedUnit)
    ensures
        unit@ == forwarding_unit(capability, trait_path@, name@, body@),
{
    let bounds = write_inner_bound(trait_path);
    proof {
        lemma_empty_text();
    }
    emit_gated(capability, "", trait_path, name, bounds.as_str(), body)
}

/// Moves the units of `more` to the end of `units`.
pub fn append_units(units: &mut Vec<EmittedUnit>, more: Vec<EmittedUnit>)
    ensures
        final(units).deep_view() == old(units).deep_view() + more.deep_view(),
{
    let ghost added = more.deep_view();
    let mut more = more;
    units.append(&mut more);
    proof {
        assert(units.deep_view() =~= old(units).deep_view() + added);
    }
}

/// The empty literal is the empty text.
pub proof fn lemma_empty_text()
    ensures
        ""@ == Seq::<char>::empty(),
{
    reveal_strlit("");
    assert(""@ =~= Seq::<char>::empty());
}

} // verus!
