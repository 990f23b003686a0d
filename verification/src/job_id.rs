//! Job identifiers: minting them, reading them from a request path and
//! writing them into a response.
//!
//! An identifier is a UUID. The library carries its 128 bits as a `JobId`;
//! the `uuid` crate mints, parses and prints them.

use vstd::prelude::*;
use crate::model::JobId;

verus! {

/// The error of the `uuid` crate's parser. Nothing of it is read here.
#[verifier::external_type_specification]
#[verifier::external_body]
pub struct ExUuidError(uuid::Error);

/// What `uuid::Uuid::parse_str` makes of a text: the 128 bits of the UUID
/// that it reads, or nothing where it reports an error.
pub uninterp spec fn uuid_parse_str(text: Seq<char>) -> Option<u128>;

/// The lower-case hexadecimal digit for a value below 16.
pub open spec fn hex_digit(value: u128) -> char {
    if value < 10 {
        ('0' as u8 + value) as char
    } else {
        ('a' as u8 + (value - 10)) as char
    }
}

/// The `k`-th of the 32 hexadecimal digits of `id`, the most significant
/// being digit 0.
pub open spec fn nibble(id: u128, k: int) -> u128 {
    (id >> (((31 - k) * 4) as u128)) & 0xf
}

/// The canonical text of a UUID: 36 characters, the 32 lower-case
/// hexadecimal digits in groups of 8, 4, 4, 4 and 12 with a hyphen between
/// groups.
pub open spec fn hyphenated(id: u128) -> Seq<char> {
    Seq::new(
        36,
        |i: int|
            if i == 8 || i == 13 || i == 18 || i == 23 {
                '-'
            } else if i < 8 {
                hex_digit(nibble(id, i))
            } else if i < 13 {
                hex_digit(nibble(id, i - 1))
            } else if i < 18 {
                hex_digit(nibble(id, i - 2))
            } else if i < 23 {
                hex_digit(nibble(id, i - 3))
            } else {
                hex_digit(nibble(id, i - 4))
            },
    )
}

/// Whether the version and variant fields of `id` are those of a random
/// UUID: version 4, variant `10`.
pub open spec fn is_random_uuid(id: u128) -> bool {
    id & 0x0000_0000_0000_f000_c000_0000_0000_0000 == 0x0000_0000_0000_4000_8000_0000_0000_0000
}

/// Trusted: `uuid::Uuid::new_v4`, read as its 128 bits by `as_u128`. The
/// bits come from the system's random source, so two calls may differ; the
/// call fixes only the version and variant fields.
#[verifier::external_body]
fn uuid_new_v4() -> (id: u128)
    ensures
        is_random_uuid(id),
{
    uuid::Uuid::new_v4().as_u128()
}

/// Trusted: `uuid::Uuid::parse_str`, the UUID read as its 128 bits by
/// `as_u128`. The result is a function of the text alone, named
/// `uuid_parse_str`.
#[verifier::external_body]
fn uuid_parse(text: &str) -> (parsed: Result<u128, uuid::Error>)
    ensures
        match parsed {
            Ok(id) => uuid_parse_str(text@) == Some(id),
            Err(_) => uuid_parse_str(text@) is None,
        },
{
    match uuid::Uuid::parse_str(text) {
        Ok(parsed) => Ok(parsed.as_u128()),
        Err(error) => Err(error),
    }
}

/// Trusted: `to_string` on the `uuid::Uuid` made by `from_u128`. The crate
/// prints a UUID in its hyphenated lower-case form, and its parser reads
/// every text that the crate prints back to the same UUID.
#[verifier::external_body]
fn uuid_to_string(id: u128) -> (text: String)
    ensures
        text@ == hyphenated(id),
        uuid_parse_str(text@) == Some(id),
{
    uuid::Uuid::from_u128(id).to_string()
}

/// The text to identify a job by was not a UUID.
#[derive(Debug, Clone, Copy, PartialEq, Eq, Structural)]
pub struct InvalidJobId;

/// Mints the identifier of a new job: a random UUID.
pub fn new_job_id() -> (id: JobId)
    ensures
        is_random_uuid(id),
{
    uuid_new_v4()
}

/// Reads a job identifier from its text, as it stands in a request path.
pub fn parse_job_id(text: &str) -> (parsed: Result<JobId, InvalidJobId>)
    ensures
        match parsed {
            Ok(id) => uuid_parse_str(text@) == Some(id),
            Err(_) => uuid_parse_str(text@) is None,
        },
{
    match uuid_parse(text) {
        Ok(id) => Ok(id),
        Err(_) => Err(InvalidJobId),
    }
}

/// The text of a job identifier: the canonical hyphenated form of the UUID,
/// which `parse_job_id` reads back to the same identifier.
pub fn job_id_text(id: JobId) -> (text: String)
    ensures
        text@ == hyphenated(id),
        uuid_parse_str(text@) == Some(id),
{
    uuid_to_string(id)
}

} // verus!
