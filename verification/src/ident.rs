//! Identifiers: 128-bit UUIDs and their wire text.
use vstd::prelude::*;

verus! {

/// What `uuid::Uuid::parse_str` reads from `text`: the identifier's 128-bit
/// value, or nothing where it reports an error.
pub uninterp spec fn uuid_of_text(text: Seq<char>) -> Option<u128>;

/// Sixteen to the power `n`.
pub open spec fn pow16(n: nat) -> nat
    decreases n,
{
    if n == 0 {
        1
    } else {
        16 * pow16((n - 1) as nat)
    }
}

/// The lower-case hexadecimal digit that stands for `n`.
pub open spec fn hex_char(n: nat) -> char
    recommends
        n < 16,
{
    if n < 10 {
        ((48 + n) as u8) as char
    } else {
        ((87 + n) as u8) as char
    }
}

/// The `k`-th of the 32 hexadecimal digits of a 128-bit value, counted from
/// the most significant.
pub open spec fn hex_digit(value: u128, k: nat) -> nat
    recommends
        k < 32,
{
    (value as nat / pow16((31 - k) as nat)) % 16
}

/// How many of the four hyphens stand before position `i` of the text.
pub open spec fn hyphens_before(i: int) -> int {
    if i < 8 {
        0
    } else if i < 13 {
        1
    } else if i < 18 {
        2
    } else if i < 23 {
        3
    } else {
        4
    }
}

/// The hyphenated text of the identifier with the given 128-bit value: its
/// 32 lower-case hexadecimal digits, most significant first, in groups of 8,
/// 4, 4, 4 and 12 with a hyphen between the groups.
pub open spec fn uuid_text(value: u128) -> Seq<char> {
    Seq::new(
        36,
        |i: int|
            if i == 8 || i == 13 || i == 18 || i == 23 {
                '-'
            } else {
                hex_char(hex_digit(value, (i - hyphens_before(i)) as nat))
            },
    )
}

/// `uuid::Uuid::parse_str`, with the parsed identifier handed back as its
/// 128-bit value. The contract only names the result.
#[verifier::external_body]
fn uuid_parse(text: &str) -> (r: Option<u128>)
    ensures
        r == uuid_of_text(text@),
{
    match uuid::Uuid::parse_str(text) {
        Ok(id) => Some(id.as_u128()),
        Err(_) => None,
    }
}

/// The hyphenated form of `uuid::Uuid::from_u128(value)`, written through its
/// `Display`. The contract states the text as the crate's formatter builds
/// it, and claims that `parse_str` reads it back as `value`: the crate
/// documents that `parse_str` accepts every format that the crate itself
/// writes.
#[verifier::external_body]
fn uuid_format(value: u128) -> (text: String)
    ensures
        text@ == uuid_text(value),
        uuid_of_text(text@) == Some(value),
{
    uuid::Uuid::from_u128(value).hyphenated().to_string()
}

/// A universally unique identifier, held as its 128-bit value.
#[derive(Clone, Copy, Debug, PartialEq, Eq, Structural)]
pub struct Uuid {
    pub value: u128,
}

impl View for Uuid {
    type V = Uuid;

    open spec fn view(&self) -> Uuid {
        *self
    }
}

/// The identifier that `text` spells, if it spells one.
pub open spec fn id_of_text(text: Seq<char>) -> Option<Uuid> {
    match uuid_of_text(text) {
        Some(value) => Some(Uuid { value }),
        None => None,
    }
}

impl Uuid {
    /// The identifier with the given 128-bit value.
    pub fn from_u128(value: u128) -> (id: Uuid)
        ensures
            id.value == value,
    {
        Uuid { value }
    }

    /// The 128-bit value of the identifier.
    pub fn as_u128(&self) -> (value: u128)
        ensures
            value == self.value,
    {
        self.value
    }

    /// Reads an identifier in any of the textual forms of a UUID.
    pub fn parse(text: &str) -> (r: Option<Uuid>)
        ensures
            r == id_of_text(text@),
    {
        match uuid_parse(text) {
            Some(value) => Some(Uuid { value }),
            None => None,
        }
    }

    /// The hyphenated text of the identifier, which [`Uuid::parse`] reads
    /// back as this identifier.
    pub fn to_text(&self) -> (text: String)
        ensures
            text@ == uuid_text(self.value),
            id_of_text(text@) == Some(*self),
    {
        uuid_format(self.value)
    }
}

} // verus!
