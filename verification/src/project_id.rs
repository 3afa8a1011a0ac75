//! Project identifiers and their text form.

use vstd::arithmetic::power::pow;
use vstd::prelude::*;

verus! {

/// The identifier of a project: a UUID, held as its 128-bit value.
#[derive(Clone, Copy, Debug, PartialEq, Eq, Structural)]
pub struct ProjectId {
    pub value: u128,
}

/// The lower-case hexadecimal digit for a value below sixteen.
pub open spec fn hex_digit(nibble: int) -> char {
    "0123456789abcdef"@[nibble]
}

/// The `index`-th of the 32 hexadecimal digits of `value`, most significant
/// first.
pub open spec fn nibble(value: u128, index: int) -> int {
    (value as int / pow(16, (31 - index) as nat)) % 16
}

/// How many hyphens stand before position `position` of the text form.
pub open spec fn hyphens_before(position: int) -> int {
    if position < 8 {
        0
    } else if position < 13 {
        1
    } else if position < 18 {
        2
    } else if position < 23 {
        3
    } else {
        4
    }
}

/// The canonical text of a UUID: its 32 lower-case hexadecimal digits, most
/// significant first, in groups of 8, 4, 4, 4 and 12 that hyphens separate.
pub open spec fn hyphenated(value: u128) -> Seq<char> {
    Seq::new(
        36,
        |position: int|
            if position == 8 || position == 13 || position == 18 || position == 23 {
                '-'
            } else {
                hex_digit(nibble(value, position - hyphens_before(position)))
            },
    )
}

/// Calls `uuid::Uuid::from_u128` and the `Display` of the `Uuid` it returns.
/// Trusted: the text is the lower-case hyphenated form of `value`, taken as
/// sixteen big-endian bytes.
#[verifier::external_body]
fn uuid_text(value: u128) -> (text: String)
    ensures
        text@ == hyphenated(value),
{
    uuid::Uuid::from_u128(value).to_string()
}

impl ProjectId {
    /// The identifier with the given 128-bit value.
    pub fn from_u128(value: u128) -> (id: ProjectId)
        ensures
            id.value == value,
    {
        ProjectId { value }
    }

    /// The 128-bit value of the identifier.
    pub fn as_u128(&self) -> (value: u128)
        ensures
            value == self.value,
    {
        self.value
    }

    /// The text that stands for the identifier in a path.
    pub fn text(&self) -> (text: String)
        ensures
            text@ == hyphenated(self.value),
    {
        uuid_text(self.value)
    }
}

} // verus!
