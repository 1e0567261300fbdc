use vstd::arithmetic::power2::pow2;
use vstd::prelude::*;

verus! {

/// The lowercase hexadecimal digit for a value below sixteen.
pub open spec fn hex_digit(n: int) -> char {
    if n < 10 {
        ((n + 48) as u8) as char
    } else {
        ((n + 87) as u8) as char
    }
}

/// Whether position `i` of the 36-character text of an identifier holds a hyphen.
pub open spec fn is_hyphen_pos(i: int) -> bool {
    i == 8 || i == 13 || i == 18 || i == 23
}

/// The number of hyphens before position `i` of the text of an identifier.
pub open spec fn hyphens_before(i: int) -> int {
    if i > 23 {
        4
    } else if i > 18 {
        3
    } else if i > 13 {
        2
    } else if i > 8 {
        1
    } else {
        0
    }
}

/// The 4-bit digit at position `j` (0 is the most significant) of a 128-bit value.
pub open spec fn nibble(v: u128, j: int) -> int {
    ((v as int) / pow2(4 * (31 - j) as nat) as int) % 16
}

/// The canonical text of a 128-bit identifier: 32 lowercase hexadecimal digits, most significant
/// first, in groups of 8, 4, 4, 4 and 12 joined by hyphens.
pub open spec fn id_text(v: u128) -> Seq<char> {
    Seq::new(
        36,
        |i: int|
            if is_hyphen_pos(i) {
                '-'
            } else {
                hex_digit(nibble(v, i - hyphens_before(i)))
            },
    )
}

/// Relies on uuid's `Uuid::new_v4`, read back as a 128-bit value with `as_u128`. The value is
/// random; like every identifier, its hyphenated text parses back to it.
#[verifier::external_body]
pub(crate) fn fresh_id() -> (r: u128)
    ensures
        parsed_id(id_text(r)) == Some(r),
{
    uuid::Uuid::new_v4().as_u128()
}

/// The identifier that uuid's `Uuid::parse_str` reads from a text, if it reads one.
pub uninterp spec fn parsed_id(s: Seq<char>) -> Option<u128>;

/// Relies on uuid's `From<Uuid> for String`, which writes the hyphenated lowercase form.
#[verifier::external_body]
pub(crate) fn id_to_string(v: u128) -> (r: String)
    ensures
        r@ == id_text(v),
{
    String::from(uuid::Uuid::from_u128(v))
}

/// The error uuid reports for text that is no identifier.
#[verifier::external_type_specification]
#[verifier::external_body]
pub struct ExUuidError(uuid::Error);

/// Relies on uuid's `Uuid::parse_str`, read back with `as_u128`; the identifier it yields, like
/// every identifier, parses back from its hyphenated text.
#[verifier::external_body]
pub(crate) fn parse_id(s: &str) -> (r: Result<u128, uuid::Error>)
    ensures
        r is Ok <==> parsed_id(s@) is Some,
        r matches Ok(w) ==> parsed_id(s@) == Some(w) && parsed_id(id_text(w)) == Some(w),
{
    match uuid::Uuid::parse_str(s) {
        Ok(u) => Ok(u.as_u128()),
        Err(e) => Err(e),
    }
}

} // verus!
