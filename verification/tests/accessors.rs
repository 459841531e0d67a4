use branded::{expand_branded_derive, Branded, Declaration, DeclarationKind};

pub struct UserId(u32);

impl Branded for UserId {
    type Inner = u32;
    fn inner(&self) -> &u32 {
        &self.0
    }
    fn into_inner(self) -> u32 {
        self.0
    }
}

impl UserId {
    pub fn new(inner: u32) -> Self {
        Self(inner)
    }
}

pub struct Label(String);

impl Branded for Label {
    type Inner = String;
    fn inner(&self) -> &String {
        &self.0
    }
    fn into_inner(self) -> String {
        self.0
    }
}

impl Label {
    pub fn new(inner: String) -> Self {
        Self(inner)
    }
}

fn newtype(name: &str, inner_type: &str) -> Declaration {
    Declaration {
        name: name.to_string(),
        kind: DeclarationKind::TupleStruct,
        field_types: vec![inner_type.to_string()],
    }
}

#[test]
fn test_accessors() {
    let user_id = UserId::new(123);
    assert_eq!(user_id.inner(), &123);
    assert_eq!(user_id.into_inner(), 123);
}

#[test]
fn accessors_are_written_as_declared_above() {
    let definition = expand_branded_derive(&newtype("UserId", "u32"), &vec![]).unwrap();
    let mut lines = definition.lines();
    assert_eq!(
        lines.next(),
        Some(
            "impl Branded for UserId { type Inner = u32; fn inner(&self) -> &u32 { &self.0 } fn into_inner(self) -> u32 { self.0 } }"
        )
    );
    assert_eq!(
        lines.next(),
        Some(
            "impl UserId { #[doc = \"Construct a new `UserId` value.\"] pub fn new(inner: u32) -> Self { Self(inner) } }"
        )
    );
}

#[test]
fn construction_then_extraction_is_identity() {
    for value in [0u32, 1, 7, 123, 65_535, u32::MAX] {
        assert_eq!(UserId::new(value).into_inner(), value);
        assert_eq!(*UserId::new(value.clone()).inner(), value);
    }
    for value in ["", "123", "a longer identifier", "with `ticks` and \"quotes\""] {
        let value = value.to_string();
        assert_eq!(Label::new(value.clone()).into_inner(), value);
        assert_eq!(*Label::new(value.clone()).inner(), value);
    }
}

#[test]
fn text_wrapper_hands_back_its_text() {
    assert_eq!(Label::new("123".to_string()).into_inner(), "123");
}

fn inner_of<B: Branded>(brand: &B) -> &B::Inner {
    brand.inner()
}

#[test]
fn generic_code_reaches_the_inner_value() {
    assert_eq!(*inner_of(&UserId::new(9)), 9);
    assert_eq!(inner_of(&Label::new("x".to_string())), "x");
}
