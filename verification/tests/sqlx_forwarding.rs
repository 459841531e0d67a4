use branded::optional_emitter::expand_sqlx_impl;
use branded::Branded;
use sqlx::Database;

pub struct UserId(String);

impl Branded for UserId { type Inner = String; fn inner(&self) -> &String { &self.0 } fn into_inner(self) -> String { self.0 } }
impl UserId { pub fn new(inner: String) -> Self { Self(inner) } }
impl<DB> ::sqlx::Type<DB> for UserId where for<'__branded> <Self as Branded>::Inner: ::sqlx::Type<DB>, DB: ::sqlx::Database, { fn type_info() -> DB::TypeInfo { <Self as Branded>::Inner::type_info() } }
impl<'de, DB> ::sqlx::Decode<'de, DB> for UserId where for<'__branded> Self: Branded, <Self as Branded>::Inner: for<'a> ::sqlx::Decode<'a, DB>, DB: ::sqlx::Database, { fn decode(value: DB::ValueRef<'_>) -> ::std::result::Result<UserId, ::sqlx::error::BoxDynError> { <Self as Branded>::Inner::decode(value).map(Self::new) } }
impl<'en, DB> ::sqlx::Encode<'en, DB> for UserId where for<'__branded> Self: Branded, <Self as Branded>::Inner: for<'a> ::sqlx::Encode<'a, DB>, DB: ::sqlx::Database, { fn encode_by_ref(&self, buf: &mut DB::ArgumentBuffer<'_>) -> ::std::result::Result<::sqlx::encode::IsNull, ::sqlx::error::BoxDynError> { self.inner().encode_by_ref(buf) } }

#[test]
fn the_codec_above_is_the_emitted_one() {
    let units = expand_sqlx_impl("UserId");
    assert_eq!(units.len(), 3);
    assert_eq!(
        units[0].source,
        "impl<DB> ::sqlx::Type<DB> for UserId where for<'__branded> <Self as Branded>::Inner: ::sqlx::Type<DB>, DB: ::sqlx::Database, { fn type_info() -> DB::TypeInfo { <Self as Branded>::Inner::type_info() } }\n"
    );
    assert_eq!(
        units[1].source,
        "impl<'de, DB> ::sqlx::Decode<'de, DB> for UserId where for<'__branded> Self: Branded, <Self as Branded>::Inner: for<'a> ::sqlx::Decode<'a, DB>, DB: ::sqlx::Database, { fn decode(value: DB::ValueRef<'_>) -> ::std::result::Result<UserId, ::sqlx::error::BoxDynError> { <Self as Branded>::Inner::decode(value).map(Self::new) } }\n"
    );
    assert_eq!(
        units[2].source,
        "impl<'en, DB> ::sqlx::Encode<'en, DB> for UserId where for<'__branded> Self: Branded, <Self as Branded>::Inner: for<'a> ::sqlx::Encode<'a, DB>, DB: ::sqlx::Database, { fn encode_by_ref(&self, buf: &mut DB::ArgumentBuffer<'_>) -> ::std::result::Result<::sqlx::encode::IsNull, ::sqlx::error::BoxDynError> { self.inner().encode_by_ref(buf) } }\n"
    );
}

#[test]
fn test_sqlx_derive() {
    fn needs_type<T: sqlx::Type<DB>, DB: Database>() {}
    fn needs_encode<'en, T: sqlx::Encode<'en, DB>, DB: Database>() {}
    fn needs_decode<'de, T: sqlx::Decode<'de, DB>, DB: Database>() {}

    needs_type::<UserId, sqlx::Sqlite>();
    needs_encode::<UserId, sqlx::Sqlite>();
    needs_decode::<UserId, sqlx::Sqlite>();
}

#[test]
fn the_wrapper_is_described_and_encoded_as_its_inner_type() {
    assert_eq!(
        <UserId as sqlx::Type<sqlx::Sqlite>>::type_info(),
        <String as sqlx::Type<sqlx::Sqlite>>::type_info()
    );
    let id = UserId::new("123".to_string());
    let mut branded = Vec::new();
    let mut bare = Vec::new();
    let first = <UserId as sqlx::Encode<'_, sqlx::Sqlite>>::encode_by_ref(&id, &mut branded).unwrap();
    let second = <String as sqlx::Encode<'_, sqlx::Sqlite>>::encode_by_ref(id.inner(), &mut bare).unwrap();
    assert_eq!(first.is_null(), second.is_null());
    assert_eq!(branded.len(), 1);
    assert_eq!(branded.len(), bare.len());
    assert_eq!(id.into_inner(), "123");
}
