//! Fresh identifiers for new characters.
use vstd::prelude::*;

verus! {

/// Whether `c` is a decimal digit or one of the letters `a` to `f`.
pub open spec fn is_lower_hex(c: char) -> bool {
    ('0' <= c && c <= '9') || ('a' <= c && c <= 'f')
}

/// Whether `uuid` has the form of an identifier: 32 hexadecimal digits in
/// lower case, without separators.
pub open spec fn is_identifier(uuid: Seq<char>) -> bool {
    &&& uuid.len() == 32
    &&& forall|i: int| 0 <= i < 32 ==> is_lower_hex(#[trigger] uuid[i])
}

/// `uuid::Uuid`: an identifier of 128 bits, of which the library reads
/// nothing but its text.
#[verifier::external_type_specification]
#[verifier::external_body]
pub struct ExUuid(uuid::Uuid);

/// `uuid::Uuid::new_v4`: a random identifier, of which nothing is known
/// beforehand.
#[verifier::external_body]
fn random_uuid() -> uuid::Uuid {
    uuid::Uuid::new_v4()
}

/// `uuid::fmt::Simple::encode_lower` on `Uuid::as_simple`: the sixteen
/// bytes of the identifier, each as two hexadecimal digits in lower case.
#[verifier::external_body]
fn simple_text(uuid: &uuid::Uuid) -> (r: String)
    ensures
        is_identifier(r@),
{
    let mut buffer = uuid::Uuid::encode_buffer();
    uuid.as_simple().encode_lower(&mut buffer).to_owned()
}

/// A fresh random identifier, as text.
pub fn new_uuid() -> (r: String)
    ensures
        is_identifier(r@),
{
    let uuid = random_uuid();
    simple_text(&uuid)
}

} // verus!
