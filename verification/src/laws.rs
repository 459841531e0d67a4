//! What holds of every generation request.

use vstd::prelude::*;
use crate::capability::{Capability, Gate};
use crate::core_emitter::{core_units, debug_body};
use crate::generator::{assembled, expansion, generated_units, generation};
use crate::optional_emitter::optional_units;
use crate::options::{
    is_first_unknown,
    is_known_flag,
    requested,
    resolution,
    shape_error,
    CapabilityRequestSet,
    DeclarationKind,
    DeclarationView,
    WrapperDeclarationView,
};
use crate::unit::{exposed, EmittedUnitView};

verus! {

/// Whether generation emits an implementation of `capability` for a request
/// set: always for the accessors, the constructor and the core capabilities,
/// and for an optional capability when its flag was given.
pub open spec fn offered(capability: Capability, requests: CapabilityRequestSet) -> bool {
    match capability {
        Capability::Serialize | Capability::Deserialize => requests.serde,
        Capability::SqlType | Capability::SqlDecode | Capability::SqlEncode => requests.sqlx,
        Capability::UuidFactories => requests.uuid,
        _ => true,
    }
}

/// The capabilities of `units`, in order.
pub open spec fn capabilities_of(units: Seq<EmittedUnitView>) -> Seq<Capability> {
    units.map_values(|unit: EmittedUnitView| unit.capability)
}

/// A unit is gated by the capability that it forwards; the accessors and the
/// constructor are not gated at all.
pub open spec fn gated_by_own_capability(unit: EmittedUnitView) -> bool {
    if unit.capability.is_unconditional() {
        unit.gate == Gate::Always
    } else {
        unit.gate == Gate::InnerSupports(unit.capability)
    }
}

/// A capability is exposed exactly when some unit gives it and applies.
pub proof fn lemma_exposed_contains(
    units: Seq<EmittedUnitView>,
    supported: Set<Capability>,
    capability: Capability,
)
    ensures
        exposed(units, supported).contains(capability) <==> exists|i: int|
            0 <= i < units.len() && (#[trigger] units[i]).capability == capability && units[i].applies_to(
                supported,
            ),
    decreases units.len(),
{
    if units.len() > 0 {
        let before = units.drop_last();
        let last = units.last();
        lemma_exposed_contains(before, supported, capability);
        let found = exposed(units, supported);
        if found.contains(capability) {
            let at = choose|at: int| 0 <= at < found.len() && found[at] == capability;
            if last.applies_to(supported) && at == found.len() - 1 {
                assert(units[units.len() - 1].capability == capability);
            } else {
                assert(exposed(before, supported)[at] == capability);
                let i = choose|i: int|
                    0 <= i < before.len() && (#[trigger] before[i]).capability == capability
                        && before[i].applies_to(supported);
                assert(units[i] == before[i]);
            }
        }
        if exists|i: int|
            0 <= i < units.len() && (#[trigger] units[i]).capability == capability && units[i].applies_to(
                supported,
            ) {
            let i = choose|i: int|
                0 <= i < units.len() && (#[trigger] units[i]).capability == capability
                    && units[i].applies_to(supported);
            if i == units.len() - 1 {
                assert(found.last() == capability);
            } else {
                assert(before[i] == units[i]);
                let at = choose|at: int|
                    0 <= at < exposed(before, supported).len() && exposed(before, supported)[at]
                        == capability;
                assert(found[at] == capability);
            }
        }
    }
}

/// The capabilities that generation emits: the accessors and the constructor,
/// the ten core capabilities, then those of each requested flag, in this
/// order; and each unit is gated by its own capability.
pub proof fn lemma_emitted_capabilities(wrapper: WrapperDeclarationView, requests: CapabilityRequestSet)
    ensures
        capabilities_of(core_units(wrapper)) == seq![
            Capability::Accessors,
            Capability::Constructor,
            Capability::Clone,
            Capability::Copy,
            Capability::Display,
            Capability::Debug,
            Capability::Default,
            Capability::PartialEq,
            Capability::Eq,
            Capability::Ord,
            Capability::PartialOrd,
            Capability::Hash,
        ],
        capabilities_of(optional_units(wrapper.name, requests)) == (if requests.serde {
            seq![Capability::Serialize, Capability::Deserialize]
        } else {
            Seq::empty()
        }) + (if requests.sqlx {
            seq![Capability::SqlType, Capability::SqlDecode, Capability::SqlEncode]
        } else {
            Seq::empty()
        }) + (if requests.uuid {
            seq![Capability::UuidFactories]
        } else {
            Seq::empty()
        }),
        capabilities_of(generated_units(wrapper, requests)) == capabilities_of(core_units(wrapper))
            + capabilities_of(optional_units(wrapper.name, requests)),
        forall|i: int|
            0 <= i < generated_units(wrapper, requests).len() ==> gated_by_own_capability(
                #[trigger] generated_units(wrapper, requests)[i],
            ),
{
    let name = wrapper.name;
    let core = core_units(wrapper);
    let optional = optional_units(name, requests);
    assert(core.len() == 12);
    assert(capabilities_of(core) =~= seq![
        Capability::Accessors,
        Capability::Constructor,
        Capability::Clone,
        Capability::Copy,
        Capability::Display,
        Capability::Debug,
        Capability::Default,
        Capability::PartialEq,
        Capability::Eq,
        Capability::Ord,
        Capability::PartialOrd,
        Capability::Hash,
    ]);
    assert(capabilities_of(optional) =~= (if requests.serde {
        seq![Capability::Serialize, Capability::Deserialize]
    } else {
        Seq::empty()
    }) + (if requests.sqlx {
        seq![Capability::SqlType, Capability::SqlDecode, Capability::SqlEncode]
    } else {
        Seq::empty()
    }) + (if requests.uuid {
        seq![Capability::UuidFactories]
    } else {
        Seq::empty()
    }));
    assert(capabilities_of(generated_units(wrapper, requests)) =~= capabilities_of(core) + capabilities_of(
        optional,
    ));
    assert forall|i: int| 0 <= i < core.len() implies gated_by_own_capability(#[trigger] core[i]) by {
        assert(capabilities_of(core)[i] == core[i].capability);
    }
    assert forall|i: int| 0 <= i < optional.len() implies gated_by_own_capability(
        #[trigger] optional[i],
    ) by {
        assert(capabilities_of(optional)[i] == optional[i].capability);
    }
}

/// Conditional conformance, for every capability: the wrapper exposes a
/// capability exactly when generation emits it for the request and the inner
/// type supports it. The accessors and the constructor ask nothing of the
/// inner type.
pub proof fn lemma_exposure(
    wrapper: WrapperDeclarationView,
    requests: CapabilityRequestSet,
    supported: Set<Capability>,
    capability: Capability,
)
    ensures
        exposed(generated_units(wrapper, requests), supported).contains(capability) <==> offered(
            capability,
            requests,
        ) && (capability.is_unconditional() || supported.contains(capability)),
{
    let units = generated_units(wrapper, requests);
    let tags = capabilities_of(units);
    lemma_emitted_capabilities(wrapper, requests);
    lemma_exposed_contains(units, supported, capability);
    assert(tags.len() == units.len());
    if exposed(units, supported).contains(capability) {
        let i = choose|i: int|
            0 <= i < units.len() && (#[trigger] units[i]).capability == capability && units[i].applies_to(
                supported,
            );
        assert(gated_by_own_capability(units[i]));
        assert(tags[i] == capability);
    }
    if offered(capability, requests) && (capability.is_unconditional() || supported.contains(capability)) {
        assert(tags.contains(capability)) by {
            lemma_offered_is_emitted(wrapper, requests, capability);
        }
        let i = choose|i: int| 0 <= i < tags.len() && tags[i] == capability;
        assert(units[i].capability == capability);
        assert(gated_by_own_capability(units[i]));
    }
}

/// Generation emits a unit for each capability that it offers.
pub proof fn lemma_offered_is_emitted(
    wrapper: WrapperDeclarationView,
    requests: CapabilityRequestSet,
    capability: Capability,
)
    requires
        offered(capability, requests),
    ensures
        capabilities_of(generated_units(wrapper, requests)).contains(capability),
{
    lemma_emitted_capabilities(wrapper, requests);
    let core = capabilities_of(core_units(wrapper));
    let optional = capabilities_of(optional_units(wrapper.name, requests));
    let tags = capabilities_of(generated_units(wrapper, requests));
    let serde: Seq<Capability> = if requests.serde {
        seq![Capability::Serialize, Capability::Deserialize]
    } else {
        Seq::empty()
    };
    let sqlx: Seq<Capability> = if requests.sqlx {
        seq![Capability::SqlType, Capability::SqlDecode, Capability::SqlEncode]
    } else {
        Seq::empty()
    };
    let at: int = match capability {
        Capability::Accessors => 0int,
        Capability::Constructor => 1int,
        Capability::Clone => 2int,
        Capability::Copy => 3int,
        Capability::Display => 4int,
        Capability::Debug => 5int,
        Capability::Default => 6int,
        Capability::PartialEq => 7int,
        Capability::Eq => 8int,
        Capability::Ord => 9int,
        Capability::PartialOrd => 10int,
        Capability::Hash => 11int,
        Capability::Serialize => 12int,
        Capability::Deserialize => 13int,
        Capability::SqlType => 12 + serde.len() as int,
        Capability::SqlDecode => 13 + serde.len() as int,
        Capability::SqlEncode => 14 + serde.len() as int,
        Capability::UuidFactories => 12 + serde.len() as int + sqlx.len() as int,
    };
    assert(0 <= at < tags.len() && tags[at] == capability);
}

/// A wrapper has each core capability exactly when its inner type has it:
/// duplication, rendering, default, equality, ordering and hashing are
/// forwarded where the inner type supports them, and nowhere else.
pub proof fn lemma_conditional_conformance(
    wrapper: WrapperDeclarationView,
    requests: CapabilityRequestSet,
    supported: Set<Capability>,
    capability: Capability,
)
    requires
        capability.is_core(),
    ensures
        exposed(generated_units(wrapper, requests), supported).contains(capability)
            <==> supported.contains(capability),
{
    lemma_exposure(wrapper, requests, supported, capability);
}

/// A wrapper has the accessors and the constructor whatever its inner type
/// supports.
pub proof fn lemma_accessors_are_unconditional(
    wrapper: WrapperDeclarationView,
    requests: CapabilityRequestSet,
    supported: Set<Capability>,
)
    ensures
        exposed(generated_units(wrapper, requests), supported).contains(Capability::Accessors),
        exposed(generated_units(wrapper, requests), supported).contains(Capability::Constructor),
{
    lemma_exposure(wrapper, requests, supported, Capability::Accessors);
    lemma_exposure(wrapper, requests, supported, Capability::Constructor);
}

/// A capability that was not requested is never exposed, whatever the inner
/// type supports.
pub proof fn lemma_unrequested_is_never_exposed(
    wrapper: WrapperDeclarationView,
    requests: CapabilityRequestSet,
    supported: Set<Capability>,
    capability: Capability,
)
    requires
        !offered(capability, requests),
    ensures
        !exposed(generated_units(wrapper, requests), supported).contains(capability),
{
    lemma_exposure(wrapper, requests, supported, capability);
}

/// A request that the inner type cannot back is no error: generation
/// succeeds whatever the inner type supports, and a unit whose capability the
/// inner type lacks is emitted and never applies.
pub proof fn lemma_unbacked_request_is_deferred(
    declaration: DeclarationView,
    flags: Seq<Seq<char>>,
    supported: Set<Capability>,
    capability: Capability,
)
    requires
        resolution(declaration, flags) is Ok,
        !capability.is_unconditional(),
        !supported.contains(capability),
    ensures
        generation(declaration, flags) matches Ok(units) && !exposed(units, supported).contains(
            capability,
        ),
{
    let (wrapper, requests) = resolution(declaration, flags)->Ok_0;
    lemma_exposure(wrapper, requests, supported, capability);
}

/// A request resolves exactly when the declaration is a tuple struct with one
/// field and every flag names an optional capability.
pub proof fn lemma_resolution_succeeds_iff(declaration: DeclarationView, flags: Seq<Seq<char>>)
    ensures
        resolution(declaration, flags) is Ok <==> declaration.kind == DeclarationKind::TupleStruct
            && declaration.field_types.len() == 1 && forall|i: int|
            0 <= i < flags.len() ==> is_known_flag(#[trigger] flags[i]),
        generation(declaration, flags) is Ok <==> resolution(declaration, flags) is Ok,
        expansion(declaration, flags) is Ok <==> resolution(declaration, flags) is Ok,
{
    if shape_error(declaration) is None {
        if exists|i: int| 0 <= i < flags.len() && !is_known_flag(#[trigger] flags[i]) {
            let some = choose|i: int| 0 <= i < flags.len() && !is_known_flag(#[trigger] flags[i]);
            lemma_first_unknown_exists(flags, some);
        }
    }
}

/// Where some flag is unknown, one position holds the first unknown flag.
pub proof fn lemma_first_unknown_exists(flags: Seq<Seq<char>>, unknown: int)
    requires
        0 <= unknown < flags.len(),
        !is_known_flag(flags[unknown]),
    ensures
        exists|first: int| is_first_unknown(flags, first),
    decreases unknown,
{
    if exists|earlier: int| 0 <= earlier < unknown && !is_known_flag(#[trigger] flags[earlier]) {
        let earlier = choose|earlier: int| 0 <= earlier < unknown && !is_known_flag(#[trigger] flags[earlier]);
        lemma_first_unknown_exists(flags, earlier);
    } else {
        assert(is_first_unknown(flags, unknown));
    }
}

/// The request set is a set: two lists that name the same flags, in whatever
/// order and however often, request the same capabilities, and a declaration
/// that resolves with one of them resolves to the same with the other.
pub proof fn lemma_flags_are_a_set(declaration: DeclarationView, first: Seq<Seq<char>>, second: Seq<Seq<char>>)
    requires
        first.to_set() == second.to_set(),
    ensures
        requested(first) == requested(second),
        resolution(declaration, first) is Ok <==> resolution(declaration, second) is Ok,
        resolution(declaration, first) is Ok ==> resolution(declaration, first) == resolution(
            declaration,
            second,
        ) && expansion(declaration, first) == expansion(declaration, second),
{
    assert forall|flag: Seq<char>| first.contains(flag) <==> second.contains(flag) by {
        assert(first.to_set().contains(flag) <==> first.contains(flag));
        assert(second.to_set().contains(flag) <==> second.contains(flag));
    }
    lemma_resolution_succeeds_iff(declaration, first);
    lemma_resolution_succeeds_iff(declaration, second);
    if forall|i: int| 0 <= i < first.len() ==> is_known_flag(#[trigger] first[i]) {
        assert forall|i: int| 0 <= i < second.len() implies is_known_flag(#[trigger] second[i]) by {
            assert(second.contains(second[i]));
            let at = choose|at: int| 0 <= at < first.len() && first[at] == second[i];
            assert(is_known_flag(first[at]));
        }
    }
    if forall|i: int| 0 <= i < second.len() ==> is_known_flag(#[trigger] second[i]) {
        assert forall|i: int| 0 <= i < first.len() implies is_known_flag(#[trigger] first[i]) by {
            assert(first.contains(first[i]));
            let at = choose|at: int| 0 <= at < second.len() && second[at] == first[i];
            assert(is_known_flag(second[at]));
        }
    }
}

/// Joining keeps the order of the units: the definition of two runs of units
/// is the definition of the first followed by that of the second.
pub proof fn lemma_assembled_in_order(first: Seq<EmittedUnitView>, second: Seq<EmittedUnitView>)
    ensures
        assembled(first + second) == assembled(first) + assembled(second),
    decreases second.len(),
{
    if second.len() == 0 {
        assert(first + second == first);
        assert(assembled(first) + assembled(second) == assembled(first));
    } else {
        lemma_assembled_in_order(first, second.drop_last());
        assert((first + second).drop_last() == first + second.drop_last());
        assert((first + second).last() == second.last());
        assert(assembled(first + second) == (assembled(first) + assembled(second.drop_last()))
            + second.last().source);
        assert((assembled(first) + assembled(second.drop_last())) + second.last().source
            == assembled(first) + (assembled(second.drop_last()) + second.last().source));
    }
}

/// The core capabilities come first: what a request with flags writes is what
/// the same declaration writes without flags, followed by the requested
/// capabilities.
pub proof fn lemma_requested_follow_core(wrapper: WrapperDeclarationView, requests: CapabilityRequestSet)
    ensures
        assembled(generated_units(wrapper, requests)) == assembled(core_units(wrapper)) + assembled(
            optional_units(wrapper.name, requests),
        ),
        assembled(
            generated_units(wrapper, CapabilityRequestSet { serde: false, sqlx: false, uuid: false }),
        ) == assembled(core_units(wrapper)),
{
    let none = CapabilityRequestSet { serde: false, sqlx: false, uuid: false };
    lemma_assembled_in_order(core_units(wrapper), optional_units(wrapper.name, requests));
    assert(optional_units(wrapper.name, none) == Seq::<EmittedUnitView>::empty());
    assert(generated_units(wrapper, none) == core_units(wrapper));
}

/// `Debug` names the brand: the `Debug` implementations of two wrappers with
/// different names write different tuple structs. (`Display` carries no name:
/// its body is the same text for every wrapper.)
pub proof fn lemma_debug_names_the_brand(first: Seq<char>, second: Seq<char>)
    requires
        first != second,
    ensures
        debug_body(first) != debug_body(second),
{
    let head =
        "fn fmt(&self, f: &mut ::std::fmt::Formatter<'_>) -> ::std::fmt::Result { f.debug_tuple(stringify!("@;
    let tail = ")).field(self.inner()).finish() }"@;
    if debug_body(first) == debug_body(second) {
        assert(debug_body(first).len() == head.len() + first.len() + tail.len());
        assert(debug_body(second).len() == head.len() + second.len() + tail.len());
        assert forall|i: int| 0 <= i < first.len() implies first[i] == second[i] by {
            assert(debug_body(first)[head.len() + i] == first[i]);
            assert(debug_body(second)[head.len() + i] == second[i]);
        }
        assert(first =~= second);
    }
}

} // verus!
