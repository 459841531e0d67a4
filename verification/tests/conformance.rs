use branded::capability::supports;
use branded::{exposed_capabilities, generate, Branded, Capability, Declaration, DeclarationKind, Gate};
use std::fmt::{Debug, Display};
use std::hash::Hash;

pub struct UserId(u32);

impl Branded for UserId { type Inner = u32; fn inner(&self) -> &u32 { &self.0 } fn into_inner(self) -> u32 { self.0 } }
impl UserId { pub fn new(inner: u32) -> Self { Self(inner) } }
impl ::std::clone::Clone for UserId where for<'__branded> <Self as Branded>::Inner: ::std::clone::Clone, { fn clone(&self) -> Self { Self::new(self.inner().clone()) } }
impl ::std::marker::Copy for UserId where for<'__branded> <Self as Branded>::Inner: ::std::marker::Copy, {  }
impl ::std::fmt::Display for UserId where for<'__branded> <Self as Branded>::Inner: ::std::fmt::Display, { fn fmt(&self, f: &mut ::std::fmt::Formatter<'_>) -> ::std::fmt::Result { ::std::fmt::Display::fmt(&self.inner(), f) } }
impl ::std::fmt::Debug for UserId where for<'__branded> <Self as Branded>::Inner: ::std::fmt::Debug, { fn fmt(&self, f: &mut ::std::fmt::Formatter<'_>) -> ::std::fmt::Result { f.debug_tuple("UserId").field(self.inner()).finish() } }
impl ::std::default::Default for UserId where for<'__branded> <Self as Branded>::Inner: ::std::default::Default, { fn default() -> Self { Self::new(<Self as Branded>::Inner::default()) } }
impl ::std::cmp::PartialEq for UserId where for<'__branded> <Self as Branded>::Inner: ::std::cmp::PartialEq, { fn eq(&self, other: &Self) -> bool { self.inner().eq(other.inner()) } }
impl ::std::cmp::Eq for UserId where for<'__branded> <Self as Branded>::Inner: ::std::cmp::Eq, {  }
impl ::std::cmp::Ord for UserId where for<'__branded> <Self as Branded>::Inner: ::std::cmp::Ord, { fn cmp(&self, other: &Self) -> ::std::cmp::Ordering { self.0.cmp(&other.0) } }
impl ::std::cmp::PartialOrd for UserId where for<'__branded> <Self as Branded>::Inner: ::std::cmp::PartialOrd, { fn partial_cmp(&self, other: &Self) -> ::std::option::Option<::std::cmp::Ordering> { self.0.partial_cmp(&other.0) } }
impl ::std::hash::Hash for UserId where for<'__branded> <Self as Branded>::Inner: ::std::hash::Hash, { fn hash<H: ::std::hash::Hasher>(&self, state: &mut H) { self.inner().hash(state); } }

pub struct Opaque;

pub struct Handle(Opaque);

impl Branded for Handle { type Inner = Opaque; fn inner(&self) -> &Opaque { &self.0 } fn into_inner(self) -> Opaque { self.0 } }
impl Handle { pub fn new(inner: Opaque) -> Self { Self(inner) } }
impl ::std::clone::Clone for Handle where for<'__branded> <Self as Branded>::Inner: ::std::clone::Clone, { fn clone(&self) -> Self { Self::new(self.inner().clone()) } }
impl ::std::marker::Copy for Handle where for<'__branded> <Self as Branded>::Inner: ::std::marker::Copy, {  }
impl ::std::fmt::Display for Handle where for<'__branded> <Self as Branded>::Inner: ::std::fmt::Display, { fn fmt(&self, f: &mut ::std::fmt::Formatter<'_>) -> ::std::fmt::Result { ::std::fmt::Display::fmt(&self.inner(), f) } }
impl ::std::fmt::Debug for Handle where for<'__branded> <Self as Branded>::Inner: ::std::fmt::Debug, { fn fmt(&self, f: &mut ::std::fmt::Formatter<'_>) -> ::std::fmt::Result { f.debug_tuple("Handle").field(self.inner()).finish() } }
impl ::std::default::Default for Handle where for<'__branded> <Self as Branded>::Inner: ::std::default::Default, { fn default() -> Self { Self::new(<Self as Branded>::Inner::default()) } }
impl ::std::cmp::PartialEq for Handle where for<'__branded> <Self as Branded>::Inner: ::std::cmp::PartialEq, { fn eq(&self, other: &Self) -> bool { self.inner().eq(other.inner()) } }
impl ::std::cmp::Eq for Handle where for<'__branded> <Self as Branded>::Inner: ::std::cmp::Eq, {  }
impl ::std::cmp::Ord for Handle where for<'__branded> <Self as Branded>::Inner: ::std::cmp::Ord, { fn cmp(&self, other: &Self) -> ::std::cmp::Ordering { self.0.cmp(&other.0) } }
impl ::std::cmp::PartialOrd for Handle where for<'__branded> <Self as Branded>::Inner: ::std::cmp::PartialOrd, { fn partial_cmp(&self, other: &Self) -> ::std::option::Option<::std::cmp::Ordering> { self.0.partial_cmp(&other.0) } }
impl ::std::hash::Hash for Handle where for<'__branded> <Self as Branded>::Inner: ::std::hash::Hash, { fn hash<H: ::std::hash::Hasher>(&self, state: &mut H) { self.inner().hash(state); } }

fn newtype(name: &str, inner_type: &str) -> Declaration {
    Declaration {
        name: name.to_string(),
        kind: DeclarationKind::TupleStruct,
        field_types: vec![inner_type.to_string()],
    }
}

fn flags(names: &[&str]) -> Vec<String> {
    names.iter().map(|name| name.to_string()).collect()
}

const CORE: [Capability; 10] = [
    Capability::Clone,
    Capability::Copy,
    Capability::Display,
    Capability::Debug,
    Capability::Default,
    Capability::PartialEq,
    Capability::Eq,
    Capability::Ord,
    Capability::PartialOrd,
    Capability::Hash,
];

#[test]
fn conforms_to_inner_traits() {
    fn needs_clone<T: Clone>() {}
    fn needs_copy<T: Copy>() {}
    fn needs_default<T: Default>() {}
    fn needs_debug<T: Debug>() {}
    fn needs_display<T: Display>() {}
    fn needs_eq<T: PartialEq>() {}
    fn needs_hash<T: Hash>() {}
    fn needs_ord<T: PartialOrd>() {}

    needs_clone::<UserId>();
    needs_copy::<UserId>();
    needs_default::<UserId>();
    needs_debug::<UserId>();
    needs_display::<UserId>();
    needs_eq::<UserId>();
    needs_hash::<UserId>();
    needs_ord::<UserId>();
}

#[test]
fn the_implementations_above_are_the_emitted_ones() {
    let definition = branded::expand_branded_derive(&newtype("UserId", "u32"), &flags(&[])).unwrap();
    assert_eq!(definition.replace("stringify!(UserId)", "\"UserId\""), written_above("UserId", "u32"));
}

fn written_above(name: &str, inner: &str) -> String {
    let lines = [
        format!("impl Branded for {name} {{ type Inner = {inner}; fn inner(&self) -> &{inner} {{ &self.0 }} fn into_inner(self) -> {inner} {{ self.0 }} }}"),
        format!("impl {name} {{ #[doc = \"Construct a new `{name}` value.\"] pub fn new(inner: {inner}) -> Self {{ Self(inner) }} }}"),
        format!("impl ::std::clone::Clone for {name} where for<'__branded> <Self as Branded>::Inner: ::std::clone::Clone, {{ fn clone(&self) -> Self {{ Self::new(self.inner().clone()) }} }}"),
        format!("impl ::std::marker::Copy for {name} where for<'__branded> <Self as Branded>::Inner: ::std::marker::Copy, {{  }}"),
        format!("impl ::std::fmt::Display for {name} where for<'__branded> <Self as Branded>::Inner: ::std::fmt::Display, {{ fn fmt(&self, f: &mut ::std::fmt::Formatter<'_>) -> ::std::fmt::Result {{ ::std::fmt::Display::fmt(&self.inner(), f) }} }}"),
        format!("impl ::std::fmt::Debug for {name} where for<'__branded> <Self as Branded>::Inner: ::std::fmt::Debug, {{ fn fmt(&self, f: &mut ::std::fmt::Formatter<'_>) -> ::std::fmt::Result {{ f.debug_tuple(\"{name}\").field(self.inner()).finish() }} }}"),
        format!("impl ::std::default::Default for {name} where for<'__branded> <Self as Branded>::Inner: ::std::default::Default, {{ fn default() -> Self {{ Self::new(<Self as Branded>::Inner::default()) }} }}"),
        format!("impl ::std::cmp::PartialEq for {name} where for<'__branded> <Self as Branded>::Inner: ::std::cmp::PartialEq, {{ fn eq(&self, other: &Self) -> bool {{ self.inner().eq(other.inner()) }} }}"),
        format!("impl ::std::cmp::Eq for {name} where for<'__branded> <Self as Branded>::Inner: ::std::cmp::Eq, {{  }}"),
        format!("impl ::std::cmp::Ord for {name} where for<'__branded> <Self as Branded>::Inner: ::std::cmp::Ord, {{ fn cmp(&self, other: &Self) -> ::std::cmp::Ordering {{ self.0.cmp(&other.0) }} }}"),
        format!("impl ::std::cmp::PartialOrd for {name} where for<'__branded> <Self as Branded>::Inner: ::std::cmp::PartialOrd, {{ fn partial_cmp(&self, other: &Self) -> ::std::option::Option<::std::cmp::Ordering> {{ self.0.partial_cmp(&other.0) }} }}"),
        format!("impl ::std::hash::Hash for {name} where for<'__branded> <Self as Branded>::Inner: ::std::hash::Hash, {{ fn hash<H: ::std::hash::Hasher>(&self, state: &mut H) {{ self.inner().hash(state); }} }}"),
    ];
    let mut text = String::new();
    for line in lines {
        text.push_str(&line);
        text.push('\n');
    }
    text
}

#[test]
fn a_wrapper_without_inner_capabilities_still_has_its_accessors() {
    let definition = branded::expand_branded_derive(&newtype("Handle", "Opaque"), &flags(&[])).unwrap();
    assert_eq!(definition.replace("stringify!(Handle)", "\"Handle\""), written_above("Handle", "Opaque"));
    let handle = Handle::new(Opaque);
    let _: &Opaque = handle.inner();
    let _: Opaque = handle.into_inner();
}

#[test]
fn forwarded_capabilities_behave_as_the_inner_ones() {
    let five = UserId::new(5);
    let copied = five;
    assert_eq!(five.clone().into_inner(), 5);
    assert_eq!(copied.into_inner(), 5);
    assert_eq!(UserId::default().into_inner(), u32::default());
    assert!(UserId::new(1) < UserId::new(2));
    assert_eq!(UserId::new(3).cmp(&UserId::new(3)), std::cmp::Ordering::Equal);
    assert_eq!(UserId::new(4).partial_cmp(&UserId::new(2)), 4u32.partial_cmp(&2));
    let hash = |value: &dyn Fn(&mut std::collections::hash_map::DefaultHasher)| {
        let mut hasher = std::collections::hash_map::DefaultHasher::new();
        value(&mut hasher);
        std::hash::Hasher::finish(&hasher)
    };
    assert_eq!(hash(&|state| UserId::new(77).hash(state)), hash(&|state| 77u32.hash(state)));
}

#[test]
fn equality_is_the_inner_equality() {
    let values = [0u32, 1, 2, 123, u32::MAX];
    for a in values {
        for b in values {
            assert_eq!(UserId::new(a) == UserId::new(b), a == b);
        }
    }
}

#[test]
fn full_inner_type_exposes_every_core_capability() {
    let units = generate(&newtype("UserId", "u32"), &flags(&[])).unwrap();
    let mut expected = vec![Capability::Accessors, Capability::Constructor];
    expected.extend(CORE);
    assert_eq!(exposed_capabilities(&units, &CORE.to_vec()), expected);
}

#[test]
fn bare_inner_type_exposes_only_what_is_unconditional() {
    let units = generate(&newtype("Handle", "Opaque"), &flags(&["serde", "sqlx", "uuid"])).unwrap();
    assert_eq!(exposed_capabilities(&units, &vec![]), vec![Capability::Accessors, Capability::Constructor]);
}

#[test]
fn each_core_capability_is_exposed_exactly_when_supported() {
    let units = generate(&newtype("Id", "T"), &flags(&[])).unwrap();
    for chosen in 0u32..1024 {
        let inner: Vec<Capability> =
            CORE.iter().enumerate().filter(|(bit, _)| chosen >> bit & 1 == 1).map(|(_, c)| *c).collect();
        let exposed = exposed_capabilities(&units, &inner);
        for capability in CORE {
            assert_eq!(exposed.contains(&capability), inner.contains(&capability));
        }
        assert!(exposed.contains(&Capability::Accessors));
        assert!(exposed.contains(&Capability::Constructor));
        assert_eq!(exposed.len(), inner.len() + 2);
    }
}

#[test]
fn optional_capabilities_need_both_request_and_support() {
    let inner = vec![Capability::Serialize, Capability::SqlType, Capability::Clone];
    let plain = generate(&newtype("Id", "T"), &flags(&[])).unwrap();
    assert_eq!(
        exposed_capabilities(&plain, &inner),
        vec![Capability::Accessors, Capability::Constructor, Capability::Clone]
    );
    let serde = generate(&newtype("Id", "T"), &flags(&["serde"])).unwrap();
    assert_eq!(
        exposed_capabilities(&serde, &inner),
        vec![Capability::Accessors, Capability::Constructor, Capability::Clone, Capability::Serialize]
    );
    let all = generate(&newtype("Id", "T"), &flags(&["serde", "sqlx", "uuid"])).unwrap();
    assert_eq!(
        exposed_capabilities(&all, &inner),
        vec![
            Capability::Accessors,
            Capability::Constructor,
            Capability::Clone,
            Capability::Serialize,
            Capability::SqlType,
        ]
    );
}

#[test]
fn gates_and_support() {
    let inner = vec![Capability::Debug, Capability::Hash, Capability::Debug];
    assert!(supports(&inner, Capability::Debug));
    assert!(supports(&inner, Capability::Hash));
    assert!(!supports(&inner, Capability::Clone));
    assert!(!supports(&vec![], Capability::Debug));
    assert!(Gate::Always.is_open_for(&vec![]));
    assert!(Gate::InnerSupports(Capability::Hash).is_open_for(&inner));
    assert!(!Gate::InnerSupports(Capability::Ord).is_open_for(&inner));
    let units = generate(&newtype("Id", "T"), &flags(&[])).unwrap();
    assert!(units[0].applies_to(&vec![]));
    assert!(!units[2].applies_to(&vec![]));
    assert!(units[2].applies_to(&vec![Capability::Clone]));
}
