//! Fresh identifiers for tasks and messages.

use vstd::prelude::*;

verus! {

/// Length of a UUID in its hyphenated form.
pub const HYPHENATED_LEN: usize = 36;

/// Length of a UUID written as bare hexadecimal digits.
pub const SIMPLE_LEN: usize = 32;

/// A hexadecimal digit in lower case.
pub open spec fn is_lower_hex(c: char) -> bool {
    ('0' <= c && c <= '9') || ('a' <= c && c <= 'f')
}

/// The shape of a UUID in hyphenated form: groups of 8, 4, 4, 4 and 12
/// lower-case hexadecimal digits with a hyphen between two groups.
pub open spec fn is_hyphenated_uuid(text: Seq<char>) -> bool {
    &&& text.len() == HYPHENATED_LEN
    &&& forall|i: int|
        0 <= i < text.len() ==> if i == 8 || i == 13 || i == 18 || i == 23 {
            #[trigger] text[i] == '-'
        } else {
            is_lower_hex(text[i])
        }
}

/// The shape of a UUID written as bare digits: 32 lower-case hexadecimal
/// digits.
pub open spec fn is_simple_uuid(text: Seq<char>) -> bool {
    &&& text.len() == SIMPLE_LEN
    &&& forall|i: int| 0 <= i < text.len() ==> is_lower_hex(#[trigger] text[i])
}

/// Trusted: makes the type `Uuid` of the `uuid` crate known. Nothing is
/// claimed of its values; they are only carried from the call that draws
/// one to the call that formats it.
#[verifier::external_type_specification]
#[verifier::external_body]
pub struct ExUuid(uuid::Uuid);

/// Trusted: calls `Uuid::new_v4` of the `uuid` crate, which draws 122 random
/// bits from the operating system. Nothing is claimed of the value. The call
/// panics if the operating system cannot supply random bytes.
#[verifier::external_body]
fn random_uuid() -> uuid::Uuid {
    uuid::Uuid::new_v4()
}

/// Trusted: formats a UUID through its `Display` impl, which writes the
/// hyphenated lower-case form. The contract claims the shape of the text,
/// not its digits.
#[verifier::external_body]
fn hyphenated(id: &uuid::Uuid) -> (text: String)
    ensures
        is_hyphenated_uuid(text@),
{
    id.to_string()
}

/// Trusted: formats a UUID through `Uuid::simple`, the lower-case form
/// without hyphens. The contract claims the shape of the text, not its
/// digits.
#[verifier::external_body]
fn simple(id: &uuid::Uuid) -> (text: String)
    ensures
        is_simple_uuid(text@),
{
    id.simple().to_string()
}

/// A fresh identifier for a task or a message: a random UUID in hyphenated
/// form. Two calls give unrelated values.
pub fn fresh_id() -> (id: String)
    ensures
        is_hyphenated_uuid(id@),
{
    let uuid = random_uuid();
    hyphenated(&uuid)
}

/// Fresh random text for a generated secret: a random UUID as bare digits.
pub fn fresh_token() -> (token: String)
    ensures
        is_simple_uuid(token@),
{
    let uuid = random_uuid();
    simple(&uuid)
}

} // verus!
