//! The capabilities that every wrapper gets: the accessors, the constructor,
//! and one forwarding implementation for each of duplication, rendering,
//! default, equality, ordering and hashing.

use vstd::prelude::*;
use vstd::string::*;
use crate::capability::{Capability, Gate};
use crate::options::{WrapperDeclaration, WrapperDeclarationView};
use crate::source::{append_units, emit_forwarding, forwarding_unit, lemma_empty_text};
use crate::unit::{EmittedUnit, EmittedUnitView};

verus! {

pub const CLONE_TRAIT: &'static str = "::std::clone::Clone";

pub const CLONE_BODY: &'static str = "fn clone(&self) -> Self { Self::new(self.inner().clone()) }";

pub const COPY_TRAIT: &'static str = "::std::marker::Copy";

pub const DISPLAY_TRAIT: &'static str = "::std::fmt::Display";

pub const DISPLAY_BODY: &'static str =
    "fn fmt(&self, f: &mut ::std::fmt::Formatter<'_>) -> ::std::fmt::Result { ::std::fmt::Display::fmt(&self.inner(), f) }";

pub const DEBUG_TRAIT: &'static str = "::std::fmt::Debug";

pub const DEFAULT_TRAIT: &'static str = "::std::default::Default";

pub const DEFAULT_BODY: &'static str =
    "fn default() -> Self { Self::new(<Self as Branded>::Inner::default()) }";

pub const PARTIAL_EQ_TRAIT: &'static str = "::std::cmp::PartialEq";

pub const PARTIAL_EQ_BODY: &'static str =
    "fn eq(&self, other: &Self) -> bool { self.inner().eq(other.inner()) }";

pub const EQ_TRAIT: &'static str = "::std::cmp::Eq";

pub const ORD_TRAIT: &'static str = "::std::cmp::Ord";

pub const ORD_BODY: &'static str =
    "fn cmp(&self, other: &Self) -> ::std::cmp::Ordering { self.0.cmp(&other.0) }";

pub const PARTIAL_ORD_TRAIT: &'static str = "::std::cmp::PartialOrd";

pub const PARTIAL_ORD_BODY: &'static str =
    "fn partial_cmp(&self, other: &Self) -> ::std::option::Option<::std::cmp::Ordering> { self.0.partial_cmp(&other.0) }";

pub const HASH_TRAIT: &'static str = "::std::hash::Hash";

pub const HASH_BODY: &'static str =
    "fn hash<H: ::std::hash::Hasher>(&self, state: &mut H) { self.inner().hash(state); }";

/// The implementation of `Branded`: `inner` borrows the field, `into_inner`
/// moves it out.
pub open spec fn accessor_impl(name: Seq<char>, inner_type: Seq<char>) -> Seq<char> {
    "impl Branded for "@ + name + " { type Inner = "@ + inner_type + "; fn inner(&self) -> &"@ + inner_type
        + " { &self.0 } fn into_inner(self) -> "@ + inner_type + " { self.0 } }\n"@
}

/// The constructor `new`, which wraps the value it is given.
pub open spec fn constructor_impl(name: Seq<char>, inner_type: Seq<char>) -> Seq<char> {
    "impl "@ + name + " { #[doc = \"Construct a new `"@ + name + "` value.\"] pub fn new(inner: "@
        + inner_type + ") -> Self { Self(inner) } }\n"@
}

/// The accessors and the constructor. They apply whatever the inner type is.
pub open spec fn accessor_units(name: Seq<char>, inner_type: Seq<char>) -> Seq<EmittedUnitView> {
    seq![
        EmittedUnitView {
            capability: Capability::Accessors,
            gate: Gate::Always,
            source: accessor_impl(name, inner_type),
        },
        EmittedUnitView {
            capability: Capability::Constructor,
            gate: Gate::Always,
            source: constructor_impl(name, inner_type),
        },
    ]
}

/// `Clone` clones the inner value and wraps the clone; `Copy` marks the
/// wrapper.
pub open spec fn clone_copy_units(name: Seq<char>) -> Seq<EmittedUnitView> {
    seq![
        forwarding_unit(Capability::Clone, CLONE_TRAIT@, name, CLONE_BODY@),
        forwarding_unit(Capability::Copy, COPY_TRAIT@, name, Seq::empty()),
    ]
}

/// What `Debug` does for the wrapper `name`: it writes a tuple struct called
/// `name` whose one field is the inner value.
pub open spec fn debug_body(name: Seq<char>) -> Seq<char> {
    "fn fmt(&self, f: &mut ::std::fmt::Formatter<'_>) -> ::std::fmt::Result { f.debug_tuple(stringify!("@
        + name + ")).field(self.inner()).finish() }"@
}

/// `Display` hands the formatter to the inner value; `Debug` names the
/// wrapper around it.
pub open spec fn debug_display_units(name: Seq<char>) -> Seq<EmittedUnitView> {
    seq![
        forwarding_unit(Capability::Display, DISPLAY_TRAIT@, name, DISPLAY_BODY@),
        forwarding_unit(Capability::Debug, DEBUG_TRAIT@, name, debug_body(name)),
    ]
}

/// `Default` wraps the inner type's default.
pub open spec fn default_units(name: Seq<char>) -> Seq<EmittedUnitView> {
    seq![forwarding_unit(Capability::Default, DEFAULT_TRAIT@, name, DEFAULT_BODY@)]
}

/// `PartialEq` compares through the accessor and `Eq` marks the wrapper;
/// `Ord` and `PartialOrd` compare the fields themselves.
pub open spec fn ord_units(name: Seq<char>) -> Seq<EmittedUnitView> {
    seq![
        forwarding_unit(Capability::PartialEq, PARTIAL_EQ_TRAIT@, name, PARTIAL_EQ_BODY@),
        forwarding_unit(Capability::Eq, EQ_TRAIT@, name, Seq::empty()),
        forwarding_unit(Capability::Ord, ORD_TRAIT@, name, ORD_BODY@),
        forwarding_unit(Capability::PartialOrd, PARTIAL_ORD_TRAIT@, name, PARTIAL_ORD_BODY@),
    ]
}

/// `Hash` feeds the inner value to the hasher.
pub open spec fn hash_units(name: Seq<char>) -> Seq<EmittedUnitView> {
    seq![forwarding_unit(Capability::Hash, HASH_TRAIT@, name, HASH_BODY@)]
}

/// Everything that is emitted without being asked for, in emission order.
pub open spec fn core_units(wrapper: WrapperDeclarationView) -> Seq<EmittedUnitView> {
    accessor_units(wrapper.name, wrapper.inner_type)
        + clone_copy_units(wrapper.name)
        + debug_display_units(wrapper.name)
        + default_units(wrapper.name)
        + ord_units(wrapper.name)
        + hash_units(wrapper.name)
}

/// Emits the implementation of `Branded` and the constructor.
pub fn expand_accessor_impl(brand_struct_name: &str, inner_type: &str) -> (units: Vec<EmittedUnit>)
    ensures
        units.deep_view() == accessor_units(brand_struct_name@, inner_type@),
{
    let mut accessors = String::from_str("impl Branded for ");
    accessors.append(brand_struct_name);
    accessors.append(" { type Inner = ");
    accessors.append(inner_type);
    accessors.append("; fn inner(&self) -> &");
    accessors.append(inner_type);
    accessors.append(" { &self.0 } fn into_inner(self) -> ");
    accessors.append(inner_type);
    accessors.append(" { self.0 } }\n");
    let mut constructor = String::from_str("impl ");
    constructor.append(brand_struct_name);
    constructor.append(" { #[doc = \"Construct a new `");
    constructor.append(brand_struct_name);
    constructor.append("` value.\"] pub fn new(inner: ");
    constructor.append(inner_type);
    constructor.append(") -> Self { Self(inner) } }\n");
    let mut units = Vec::new();
    units.push(EmittedUnit { capability: Capability::Accessors, gate: Gate::Always, source: accessors });
    units.push(EmittedUnit { capability: Capability::Constructor, gate: Gate::Always, source: constructor });
    units
}

/// Emits `Clone` and `Copy`, each for an inner type that has it.
pub fn expand_clone_copy_impl(brand_struct_name: &str) -> (units: Vec<EmittedUnit>)
    ensures
        units.deep_view() == clone_copy_units(brand_struct_name@),
{
    proof {
        lemma_empty_text();
    }
    let mut units = Vec::new();
    units.push(emit_forwarding(Capability::Clone, CLONE_TRAIT, brand_struct_name, CLONE_BODY));
    units.push(emit_forwarding(Capability::Copy, COPY_TRAIT, brand_struct_name, ""));
    units
}

/// Emits `Display` and `Debug`, each for an inner type that has it.
///
/// `Display` prints what the inner value prints. `Debug` prints the inner
/// value inside a tuple struct that carries the wrapper's name.
pub fn expand_debug_display_impl(brand_struct_name: &str) -> (units: Vec<EmittedUnit>)
    ensures
        units.deep_view() == debug_display_units(brand_struct_name@),
{
    let mut debug = String::from_str(
        "fn fmt(&self, f: &mut ::std::fmt::Formatter<'_>) -> ::std::fmt::Result { f.debug_tuple(stringify!(",
    );
    debug.append(brand_struct_name);
    debug.append(")).field(self.inner()).finish() }");
    let mut units = Vec::new();
    units.push(emit_forwarding(Capability::Display, DISPLAY_TRAIT, brand_struct_name, DISPLAY_BODY));
    units.push(emit_forwarding(Capability::Debug, DEBUG_TRAIT, brand_struct_name, debug.as_str()));
    units
}

/// Emits `Default` for an inner type that has it.
pub fn expand_default_impl(brand_struct_name: &str) -> (units: Vec<EmittedUnit>)
    ensures
        units.deep_view() == default_units(brand_struct_name@),
{
    let mut units = Vec::new();
    units.push(emit_forwarding(Capability::Default, DEFAULT_TRAIT, brand_struct_name, DEFAULT_BODY));
    units
}

/// Emits `PartialEq`, `Eq`, `Ord` and `PartialOrd`, each for an inner type
/// that has it.
pub fn expand_ord_impl(brand_struct_name: &str) -> (units: Vec<EmittedUnit>)
    ensures
        units.deep_view() == ord_units(brand_struct_name@),
{
    proof {
        lemma_empty_text();
    }
    let mut units = Vec::new();
    units.push(emit_forwarding(Capability::PartialEq, PARTIAL_EQ_TRAIT, brand_struct_name, PARTIAL_EQ_BODY));
    units.push(emit_forwarding(Capability::Eq, EQ_TRAIT, brand_struct_name, ""));
    units.push(emit_forwarding(Capability::Ord, ORD_TRAIT, brand_struct_name, ORD_BODY));
    units.push(emit_forwarding(Capability::PartialOrd, PARTIAL_ORD_TRAIT, brand_struct_name, PARTIAL_ORD_BODY));
    units
}

/// Emits `Hash` for an inner type that has it.
pub fn expand_hash_impl(brand_struct_name: &str) -> (units: Vec<EmittedUnit>)
    ensures
        units.deep_view() == hash_units(brand_struct_name@),
{
    let mut units = Vec::new();
    units.push(emit_forwarding(Capability::Hash, HASH_TRAIT, brand_struct_name, HASH_BODY));
    units
}

/// Emits everything that a wrapper gets without being asked for: the
/// accessors and the constructor, then duplication, rendering, default,
/// equality and ordering, and hashing.
pub fn emit_core(wrapper: &WrapperDeclaration) -> (units: Vec<EmittedUnit>)
    ensures
        units.deep_view() == core_units(wrapper@),
{
    let name = wrapper.name.as_str();
    let mut units = expand_accessor_impl(name, wrapper.inner_type.as_str());
    append_units(&mut units, expand_clone_copy_impl(name));
    append_units(&mut units, expand_debug_display_impl(name));
    append_units(&mut units, expand_default_impl(name));
    append_units(&mut units, expand_ord_impl(name));
    append_units(&mut units, expand_hash_impl(name));
    units
}

} // verus!
