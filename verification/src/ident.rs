use vstd::prelude::*;
use uuid::Uuid;

verus! {

#[verifier::external_type_specification]
#[verifier::external_body]
pub struct ExUuid(Uuid);

/// `Uuid` derives `Clone` beside `Copy`, so a clone is the same identifier.
pub assume_specification[ <Uuid as Clone>::clone ](u: &Uuid) -> (r: Uuid)
    ensures
        r == *u,
;

/// What `Uuid::parse_str` gives for a string, with its error dropped.
pub uninterp spec fn uuid_parse(s: Seq<char>) -> Option<Uuid>;

/// The identifier whose 128 bits, read big-endian, are `v`.
pub uninterp spec fn uuid_of_u128(v: u128) -> Uuid;

/// The text that `Uuid`'s `Display` writes for an identifier.
pub uninterp spec fn uuid_display(u: Uuid) -> Seq<char>;

/// Calls `Uuid::to_string`, which writes the identifier in the hyphenated
/// form; the contract claims that the text is a function of the identifier
/// and that `Uuid::parse_str` reads it back as the same identifier, as the
/// crate's parser accepts the hyphenated form it writes.
#[verifier::external_body]
pub(crate) fn uuid_text(u: &Uuid) -> (s: String)
    ensures
        s@ == uuid_display(*u),
        uuid_parse(s@) == Some(*u),
{
    u.to_string()
}

/// Calls `uuid::Uuid::new_v4`, which draws a random identifier: nothing is
/// stated of the result.
#[verifier::external_body]
pub(crate) fn new_random_uuid() -> Uuid {
    Uuid::new_v4()
}

/// Calls `uuid::Uuid::parse_str`; the contract claims only that the result,
/// with its error turned into `None`, is a function of the text.
#[verifier::external_body]
pub(crate) fn parse_uuid(s: &str) -> (r: Option<Uuid>)
    ensures
        r == uuid_parse(s@),
{
    Uuid::parse_str(s).ok()
}

/// Calls `uuid::Uuid::from_u128`; the contract claims only that the result is
/// a function of its argument.
#[verifier::external_body]
pub(crate) fn uuid_from_u128(v: u128) -> (r: Uuid)
    ensures
        r == uuid_of_u128(v),
{
    Uuid::from_u128(v)
}

} // verus!
