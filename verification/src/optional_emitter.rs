//! The capabilities that a wrapper gets only when its declaration asks for
//! them: serialization, the database codec, and the unique-identifier helpers.

use vstd::prelude::*;
use vstd::string::*;
use crate::capability::{Capability, Gate};
use crate::options::CapabilityRequestSet;
use crate::source::{
    append_units,
    emit_forwarding,
    emit_gated,
    forwarding_unit,
    gated_unit,
    inner_bound,
    write_inner_bound,
};
use crate::unit::{EmittedUnit, EmittedUnitView};

verus! {

pub const SERIALIZE_TRAIT: &'static str = "::serde::Serialize";

pub const SERIALIZE_BODY: &'static str =
    "fn serialize<S>(&self, serializer: S) -> Result<S::Ok, S::Error> where S: ::serde::Serializer, { self.inner().serialize(serializer) }";

pub const DESERIALIZE_GENERICS: &'static str = "<'de>";

pub const DESERIALIZE_TRAIT: &'static str = "::serde::Deserialize<'de>";

pub const DESERIALIZE_BODY: &'static str =
    "fn deserialize<D>(deserializer: D) -> Result<Self, D::Error> where D: ::serde::Deserializer<'de>, { <Self as Branded>::Inner::deserialize(deserializer).map(Self::new) }";

pub const SQL_TYPE_GENERICS: &'static str = "<DB>";

pub const SQL_TYPE_TRAIT: &'static str = "::sqlx::Type<DB>";

pub const SQL_DATABASE_BOUND: &'static str = " DB: ::sqlx::Database,";

pub const SQL_TYPE_BODY: &'static str =
    "fn type_info() -> DB::TypeInfo { <Self as Branded>::Inner::type_info() }";

pub const SQL_DECODE_GENERICS: &'static str = "<'de, DB>";

pub const SQL_DECODE_TRAIT: &'static str = "::sqlx::Decode<'de, DB>";

pub const SQL_DECODE_BOUNDS: &'static str =
    "for<'__branded> Self: Branded, <Self as Branded>::Inner: for<'a> ::sqlx::Decode<'a, DB>, DB: ::sqlx::Database,";

pub const SQL_ENCODE_GENERICS: &'static str = "<'en, DB>";

pub const SQL_ENCODE_TRAIT: &'static str = "::sqlx::Encode<'en, DB>";

pub const SQL_ENCODE_BOUNDS: &'static str =
    "for<'__branded> Self: Branded, <Self as Branded>::Inner: for<'a> ::sqlx::Encode<'a, DB>, DB: ::sqlx::Database,";

pub const SQL_ENCODE_BODY: &'static str =
    "fn encode_by_ref(&self, buf: &mut DB::ArgumentBuffer<'_>) -> ::std::result::Result<::sqlx::encode::IsNull, ::sqlx::error::BoxDynError> { self.inner().encode_by_ref(buf) }";

pub const UUID_BODY: &'static str =
    "#[doc = r\" Get the nil UUID.\"] fn nil() -> Self { Self::new(::uuid::Uuid::nil()) } #[doc = r\" Get a new random UUID v4.\"] fn new_v4() -> Self { Self::new(::uuid::Uuid::new_v4()) }";

/// `Serialize` writes what the inner value writes; `Deserialize` reads an
/// inner value and wraps it.
pub open spec fn serde_units(name: Seq<char>) -> Seq<EmittedUnitView> {
    seq![
        forwarding_unit(Capability::Serialize, SERIALIZE_TRAIT@, name, SERIALIZE_BODY@),
        gated_unit(
            Capability::Deserialize,
            DESERIALIZE_GENERICS@,
            DESERIALIZE_TRAIT@,
            name,
            inner_bound(DESERIALIZE_TRAIT@),
            DESERIALIZE_BODY@,
        ),
    ]
}

/// What `Decode` does for the wrapper `name`: it decodes an inner value and
/// wraps it.
pub open spec fn sql_decode_body(name: Seq<char>) -> Seq<char> {
    "fn decode(value: DB::ValueRef<'_>) -> ::std::result::Result<"@ + name
        + ", ::sqlx::error::BoxDynError> { <Self as Branded>::Inner::decode(value).map(Self::new) }"@
}

/// `Type` describes the wrapper as the inner type, `Decode` decodes an inner
/// value and wraps it, `Encode` encodes the inner value through the accessor.
pub open spec fn sqlx_units(name: Seq<char>) -> Seq<EmittedUnitView> {
    seq![
        gated_unit(
            Capability::SqlType,
            SQL_TYPE_GENERICS@,
            SQL_TYPE_TRAIT@,
            name,
            inner_bound(SQL_TYPE_TRAIT@) + SQL_DATABASE_BOUND@,
            SQL_TYPE_BODY@,
        ),
        gated_unit(
            Capability::SqlDecode,
            SQL_DECODE_GENERICS@,
            SQL_DECODE_TRAIT@,
            name,
            SQL_DECODE_BOUNDS@,
            sql_decode_body(name),
        ),
        gated_unit(
            Capability::SqlEncode,
            SQL_ENCODE_GENERICS@,
            SQL_ENCODE_TRAIT@,
            name,
            SQL_ENCODE_BOUNDS@,
            SQL_ENCODE_BODY@,
        ),
    ]
}

/// The factories `nil` and `new_v4`, which hold when the inner type is
/// `uuid::Uuid`.
pub open spec fn uuid_impl(name: Seq<char>) -> Seq<char> {
    "impl "@ + name + " where for<'__branded> Self: Branded<Inner = ::uuid::Uuid> { "@ + UUID_BODY@
        + " }\n"@
}

/// `nil` wraps the nil identifier and `new_v4` a fresh random one.
pub open spec fn uuid_units(name: Seq<char>) -> Seq<EmittedUnitView> {
    seq![
        EmittedUnitView {
            capability: Capability::UuidFactories,
            gate: Gate::InnerSupports(Capability::UuidFactories),
            source: uuid_impl(name),
        },
    ]
}

/// What is emitted for the requested capabilities: serialization, then the
/// database codec, then the unique-identifier helpers, each only when it is
/// requested.
pub open spec fn optional_units(
    name: Seq<char>,
    requests: CapabilityRequestSet,
) -> Seq<EmittedUnitView> {
    (if requests.serde {
        serde_units(name)
    } else {
        Seq::empty()
    }) + (if requests.sqlx {
        sqlx_units(name)
    } else {
        Seq::empty()
    }) + (if requests.uuid {
        uuid_units(name)
    } else {
        Seq::empty()
    })
}

/// Emits `serde::Serialize` and `serde::Deserialize`, each for an inner type
/// that has it.
pub fn expand_serde_impl(brand_struct_name: &str) -> (units: Vec<EmittedUnit>)
    ensures
        units.deep_view() == serde_units(brand_struct_name@),
{
    let bounds = write_inner_bound(DESERIALIZE_TRAIT);
    let mut units = Vec::new();
    units.push(emit_forwarding(Capability::Serialize, SERIALIZE_TRAIT, brand_struct_name, SERIALIZE_BODY));
    units.push(
        emit_gated(
            Capability::Deserialize,
            DESERIALIZE_GENERICS,
            DESERIALIZE_TRAIT,
            brand_struct_name,
            bounds.as_str(),
            DESERIALIZE_BODY,
        ),
    );
    units
}

/// Emits `sqlx::Type`, `sqlx::Decode` and `sqlx::Encode`, each for every
/// database for which the inner type has it.
pub fn expand_sqlx_impl(brand_struct_name: &str) -> (units: Vec<EmittedUnit>)
    ensures
        units.deep_view() == sqlx_units(brand_struct_name@),
{
    let mut type_bounds = write_inner_bound(SQL_TYPE_TRAIT);
    type_bounds.append(SQL_DATABASE_BOUND);
    let mut decode = String::from_str("fn decode(value: DB::ValueRef<'_>) -> ::std::result::Result<");
    decode.append(brand_struct_name);
    decode.append(
        ", ::sqlx::error::BoxDynError> { <Self as Branded>::Inner::decode(value).map(Self::new) }",
    );
    let mut units = Vec::new();
    units.push(
        emit_gated(
            Capability::SqlType,
            SQL_TYPE_GENERICS,
            SQL_TYPE_TRAIT,
            brand_struct_name,
            type_bounds.as_str(),
            SQL_TYPE_BODY,
        ),
    );
    units.push(
        emit_gated(
            Capability::SqlDecode,
            SQL_DECODE_GENERICS,
            SQL_DECODE_TRAIT,
            brand_struct_name,
            SQL_DECODE_BOUNDS,
            decode.as_str(),
        ),
    );
    units.push(
        emit_gated(
            Capability::SqlEncode,
            SQL_ENCODE_GENERICS,
            SQL_ENCODE_TRAIT,
            brand_struct_name,
            SQL_ENCODE_BOUNDS,
            SQL_ENCODE_BODY,
        ),
    );
    units
}

/// Emits the factories `nil` and `new_v4` for an inner type that is
/// `uuid::Uuid`.
pub fn expand_uuid_impl(brand_struct_name: &str) -> (units: Vec<EmittedUnit>)
    ensures
        units.deep_view() == uuid_units(brand_struct_name@),
{
    let mut source = String::from_str("impl ");
    source.append(brand_struct_name);
    source.append(" where for<'__branded> Self: Branded<Inner = ::uuid::Uuid> { ");
    source.append(UUID_BODY);
    source.append(" }\n");
    let mut units = Vec::new();
    units.push(
        EmittedUnit {
            capability: Capability::UuidFactories,
            gate: Gate::InnerSupports(Capability::UuidFactories),
            source,
        },
    );
    units
}

/// Emits what the request set asks for, and nothing for a capability that it
/// does not name.
pub fn emit_optional(
    brand_struct_name: &str,
    requests: CapabilityRequestSet,
) -> (units: Vec<EmittedUnit>)
    ensures
        units.deep_view() == optional_units(brand_struct_name@, requests),
{
    let mut units = Vec::new();
    if requests.serde {
        append_units(&mut units, expand_serde_impl(brand_struct_name));
    }
    if requests.sqlx {
        append_units(&mut units, expand_sqlx_impl(brand_struct_name));
    }
    if requests.uuid {
        append_units(&mut units, expand_uuid_impl(brand_struct_name));
    }
    units
}

} // verus!
