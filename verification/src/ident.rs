//! Identifiers of messages: 128-bit values, written and generated as UUIDs.

use vstd::prelude::*;

verus! {

/// What `uuid::Uuid::try_parse` reads from a text: the 128-bit value of the
/// identifier, or `None` where the text is no UUID in any of the forms that
/// function accepts.
pub uninterp spec fn uuid_of(text: Seq<char>) -> Option<u128>;

/// `uuid::Uuid::try_parse`, followed by `Uuid::as_u128`.  The parser reads
/// nothing but its argument, so its result is given the name `uuid_of`.
/// Not proved.
#[verifier::external_body]
pub(crate) fn parse_uuid(text: &str) -> (r: Option<u128>)
    ensures
        r == uuid_of(text@),
{
    match uuid::Uuid::try_parse(text) {
        Ok(id) => Some(id.as_u128()),
        Err(_) => None,
    }
}

/// How `uuid::Uuid` writes the identifier with the value `id`: what its
/// `Display` produces.
pub uninterp spec fn uuid_text(id: u128) -> Seq<char>;

/// `uuid::Uuid::from_u128`, followed by `to_string`, which goes through the
/// type's `Display`: the hyphenated form in lower-case hexadecimal digits.
/// The text depends on the value alone, so it is given the name
/// `uuid_text`; it is one of the forms that `Uuid::try_parse` reads, and
/// reading it gives the value back.  Not proved.
#[verifier::external_body]
pub(crate) fn format_uuid(id: u128) -> (r: String)
    ensures
        r@ == uuid_text(id),
        uuid_of(r@) == Some(id),
{
    uuid::Uuid::from_u128(id).to_string()
}

/// `uuid::Uuid::new_v4`, followed by `Uuid::as_u128`: an identifier drawn
/// from the operating system's random numbers.  Nothing is claimed of it.
/// The call panics where the operating system has no random numbers to
/// give.
#[verifier::external_body]
pub(crate) fn random_uuid() -> (r: u128) {
    uuid::Uuid::new_v4().as_u128()
}

} // verus!
