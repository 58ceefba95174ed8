//! Player identities. An identity is a UUID, held as the 128-bit number it
//! is; its written form and the identity of a name come from the `uuid`
//! crate.

use vstd::prelude::*;
use vstd::utf8::is_ascii_chars;

verus! {

/// The hyphenated, lower-case text of the UUID `uuid`.
pub uninterp spec fn hyphenated(uuid: u128) -> Seq<char>;

/// The identity that belongs to the name `name`: the version-5 UUID of the
/// name in the OID namespace.
pub uninterp spec fn name_uuid(name: Seq<char>) -> u128;

/// `Uuid::from_u128`, `Uuid::to_hyphenated` and the adapter's `to_string`:
/// the UUID's text, which is 36 characters of lower-case hexadecimal digits
/// and hyphens.
#[verifier::external_body]
pub(crate) fn uuid_to_hyphenated(uuid: u128) -> (r: String)
    ensures
        r@ == hyphenated(uuid),
        r@.len() == 36,
        is_ascii_chars(r@),
{
    uuid::Uuid::from_u128(uuid).to_hyphenated().to_string()
}

/// `Uuid::new_v5` in `Uuid::NAMESPACE_OID`, and `Uuid::as_u128`: the UUID
/// that the bytes of `name` hash to.
#[verifier::external_body]
pub(crate) fn uuid_from_name(name: &str) -> (r: u128)
    ensures
        r == name_uuid(name@),
{
    uuid::Uuid::new_v5(&uuid::Uuid::NAMESPACE_OID, name.as_bytes()).as_u128()
}

} // verus!
