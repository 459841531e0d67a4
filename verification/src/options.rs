//! Resolving a declaration and its requested flags into what the generator
//! works on.

use vstd::prelude::*;
use vstd::seq_lib::lemma_seq_contains_after_push;
use vstd::string::*;
use crate::error::{GenerationError, GenerationErrorView, ShapeError};

verus! {

/// What kind of item a declaration is.
#[derive(Clone, Copy, Debug, PartialEq, Eq, Structural)]
pub enum DeclarationKind {
    /// A struct with unnamed fields, `struct Id(u32);`.
    TupleStruct,
    /// A struct with named fields, `struct Id { raw: u32 }`.
    NamedStruct,
    /// A struct without fields, `struct Id;`.
    UnitStruct,
    /// An enum.
    Enum,
    /// A union.
    Union,
}

impl DeclarationKind {
    pub open spec fn is_struct(self) -> bool {
        self == DeclarationKind::TupleStruct || self == DeclarationKind::NamedStruct || self
            == DeclarationKind::UnitStruct
    }
}

/// A declaration as it was written, before anything is known of its shape.
#[derive(Clone, Debug, PartialEq, Eq)]
pub struct Declaration {
    /// The declared type's name.
    pub name: String,
    /// What kind of item it is.
    pub kind: DeclarationKind,
    /// The types of its fields, in order. Empty for an enum or a union.
    pub field_types: Vec<String>,
}

/// A declaration as a mathematical value.
pub struct DeclarationView {
    pub name: Seq<char>,
    pub kind: DeclarationKind,
    pub field_types: Seq<Seq<char>>,
}

impl View for Declaration {
    type V = DeclarationView;

    open spec fn view(&self) -> DeclarationView {
        DeclarationView { name: self.name@, kind: self.kind, field_types: self.field_types.deep_view() }
    }
}

/// A single-field wrapper: its name and the type of its one field.
#[derive(Clone, Debug, PartialEq, Eq)]
pub struct WrapperDeclaration {
    /// The wrapper's name.
    pub name: String,
    /// The type of the wrapped value.
    pub inner_type: String,
}

/// A wrapper declaration as a mathematical value.
pub struct WrapperDeclarationView {
    pub name: Seq<char>,
    pub inner_type: Seq<char>,
}

impl View for WrapperDeclaration {
    type V = WrapperDeclarationView;

    open spec fn view(&self) -> WrapperDeclarationView {
        WrapperDeclarationView { name: self.name@, inner_type: self.inner_type@ }
    }
}

/// The optional capabilities that a request asks for.
#[derive(Clone, Copy, Debug, PartialEq, Eq, Structural)]
pub struct CapabilityRequestSet {
    /// Serialization, flag `serde`.
    pub serde: bool,
    /// The database codec, flag `sqlx`.
    pub sqlx: bool,
    /// The unique-identifier helpers, flag `uuid`.
    pub uuid: bool,
}

pub const SERDE_FLAG: &'static str = "serde";

pub const SQLX_FLAG: &'static str = "sqlx";

pub const UUID_FLAG: &'static str = "uuid";

/// Whether a flag names an optional capability.
pub open spec fn is_known_flag(flag: Seq<char>) -> bool {
    flag == SERDE_FLAG@ || flag == SQLX_FLAG@ || flag == UUID_FLAG@
}

/// The request set that a list of flags stands for: a capability is
/// requested when its flag occurs, however often and wherever.
pub open spec fn requested(flags: Seq<Seq<char>>) -> CapabilityRequestSet {
    CapabilityRequestSet {
        serde: flags.contains(SERDE_FLAG@),
        sqlx: flags.contains(SQLX_FLAG@),
        uuid: flags.contains(UUID_FLAG@),
    }
}

/// What is wrong with a declaration's shape, if anything.
pub open spec fn shape_error(declaration: DeclarationView) -> Option<ShapeError> {
    if !declaration.kind.is_struct() {
        Some(ShapeError::NotAStruct)
    } else if declaration.kind != DeclarationKind::TupleStruct || declaration.field_types.len() != 1 {
        Some(ShapeError::NotNewtype)
    } else {
        None
    }
}

/// `position` holds the first flag that names no optional capability.
pub open spec fn is_first_unknown(flags: Seq<Seq<char>>, position: int) -> bool {
    &&& 0 <= position < flags.len()
    &&& !is_known_flag(flags[position])
    &&& forall|earlier: int| 0 <= earlier < position ==> is_known_flag(#[trigger] flags[earlier])
}

/// What resolving a declaration and its flags gives: the wrapper and the
/// request set, or the failure. A wrong shape is reported before an unknown
/// flag, and of several unknown flags the first.
pub open spec fn resolution(
    declaration: DeclarationView,
    flags: Seq<Seq<char>>,
) -> Result<(WrapperDeclarationView, CapabilityRequestSet), GenerationErrorView> {
    if let Some(shape) = shape_error(declaration) {
        Err(GenerationErrorView::Shape(shape))
    } else if exists|position: int| is_first_unknown(flags, position) {
        let position = choose|position: int| is_first_unknown(flags, position);
        Err(GenerationErrorView::UnknownCapability { flag: flags[position], position: position as nat })
    } else {
        Ok(
            (
                WrapperDeclarationView { name: declaration.name, inner_type: declaration.field_types[0] },
                requested(flags),
            ),
        )
    }
}

/// Whether two texts are the same.
fn same_text(text: &String, other: &str) -> (same: bool)
    ensures
        same == (text@ == other@),
{
    let other = String::from_str(other);
    text.eq(&other)
}

/// Resolves a declaration and its requested flags.
///
/// Succeeds exactly for a tuple struct with one field whose flags all name
/// optional capabilities.
pub fn resolve(
    declaration: &Declaration,
    flags: &Vec<String>,
) -> (resolved: Result<(WrapperDeclaration, CapabilityRequestSet), GenerationError>)
    ensures
        match resolution(declaration@, flags.deep_view()) {
            Ok((wrapper, requests)) => resolved matches Ok(found) && found.0@ == wrapper && found.1
                == requests,
            Err(error) => resolved matches Err(found) && found@ == error,
        },
{
    match declaration.kind {
        DeclarationKind::Enum | DeclarationKind::Union => {
            return Err(GenerationError::Shape(ShapeError::NotAStruct));
        },
        DeclarationKind::NamedStruct | DeclarationKind::UnitStruct => {
            return Err(GenerationError::Shape(ShapeError::NotNewtype));
        },
        DeclarationKind::TupleStruct => {},
    }
    if declaration.field_types.len() != 1 {
        return Err(GenerationError::Shape(ShapeError::NotNewtype));
    }
    let ghost all = flags.deep_view();
    let mut requests = CapabilityRequestSet { serde: false, sqlx: false, uuid: false };
    let mut i: usize = 0;
    while i < flags.len()
        invariant
            i <= flags.len(),
            all == flags.deep_view(),
            shape_error(declaration@) is None,
            requests == requested(all.take(i as int)),
            forall|earlier: int| 0 <= earlier < i ==> is_known_flag(#[trigger] all[earlier]),
        decreases flags.len() - i,
    {
        let flag = &flags[i];
        proof {
            assert(all.take(i + 1) == all.take(i as int).push(flag@));
            assert(all[i as int] == flag@);
            lemma_seq_contains_after_push(all.take(i as int), flag@, SERDE_FLAG@);
            lemma_seq_contains_after_push(all.take(i as int), flag@, SQLX_FLAG@);
            lemma_seq_contains_after_push(all.take(i as int), flag@, UUID_FLAG@);
            lemma_flags_differ();
        }
        if same_text(flag, SERDE_FLAG) {
            requests.serde = true;
        } else if same_text(flag, SQLX_FLAG) {
            requests.sqlx = true;
        } else if same_text(flag, UUID_FLAG) {
            requests.uuid = true;
        } else {
            proof {
                assert(is_first_unknown(all, i as int));
                lemma_first_unknown_is_unique(all, i as int, choose|position: int| is_first_unknown(all, position));
            }
            return Err(GenerationError::UnknownCapability { flag: flag.clone(), position: i });
        }
        i += 1;
    }
    proof {
        assert(all.take(i as int) == all);
        assert(forall|position: int| !is_first_unknown(all, position));
    }
    let wrapper = WrapperDeclaration {
        name: declaration.name.clone(),
        inner_type: declaration.field_types[0].clone(),
    };
    Ok((wrapper, requests))
}

/// The three flags are three different texts.
pub proof fn lemma_flags_differ()
    ensures
        SERDE_FLAG@ != SQLX_FLAG@,
        SERDE_FLAG@ != UUID_FLAG@,
        SQLX_FLAG@ != UUID_FLAG@,
{
    reveal_strlit("serde");
    reveal_strlit("sqlx");
    reveal_strlit("uuid");
    assert(SERDE_FLAG@.len() == 5);
    assert(SQLX_FLAG@.len() == 4);
    assert(SQLX_FLAG@[0] == 's');
    assert(UUID_FLAG@[0] == 'u');
}

/// At most one position holds the first unknown flag.
pub proof fn lemma_first_unknown_is_unique(flags: Seq<Seq<char>>, first: int, second: int)
    requires
        is_first_unknown(flags, first),
        is_first_unknown(flags, second),
    ensures
        first == second,
{
    if first < second {
        assert(is_known_flag(flags[first]));
    } else if second < first {
        assert(is_known_flag(flags[second]));
    }
}

} // verus!
