//! Textual form of the 128-bit identifiers that name submissions and scratch files.
use vstd::prelude::*;

verus! {

/// The hyphenated lower-case rendering of an identifier, as the uuid crate
/// writes it.
pub uninterp spec fn uuid_text_of(id: u128) -> Seq<char>;

/// Relies on uuid's `Uuid::from_u128` and its hyphenated formatter: the
/// rendering depends on the identifier alone and is `Hyphenated::LENGTH` (36)
/// characters long.
#[verifier::external_body]
pub(crate) fn uuid_text(id: u128) -> (r: String)
    ensures
        r@ == uuid_text_of(id),
        r@.len() == 36,
{
    uuid::Uuid::from_u128(id).hyphenated().to_string()
}

/// The simple (32 lower-case hex digits, no hyphens) rendering of an
/// identifier, as the uuid crate writes it.
pub uninterp spec fn uuid_simple_of(id: u128) -> Seq<char>;

/// Relies on uuid's `Uuid::from_u128` and its simple formatter, whose
/// `Display` writes `encode_lower` of `Simple::LENGTH` (32) characters.
#[verifier::external_body]
pub(crate) fn uuid_simple_text(id: u128) -> (r: String)
    ensures
        r@ == uuid_simple_of(id),
        r@.len() == 32,
{
    uuid::Uuid::from_u128(id).simple().to_string()
}

/// Relies on uuid's `Uuid::try_parse` (which takes 32-digit simple input)
/// and `Uuid::as_u128`: the simple rendering of an identifier parses back to
/// that identifier.
#[verifier::external_body]
pub(crate) fn parse_uuid(s: &str) -> (r: Option<u128>)
    ensures
        forall|id: u128| #[trigger] uuid_simple_of(id) == s@ ==> r == Some(id),
{
    match uuid::Uuid::try_parse(s) {
        Ok(u) => Some(u.as_u128()),
        Err(_) => None,
    }
}

} // verus!
