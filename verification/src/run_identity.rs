//! What a run is known by.
use vstd::prelude::*;

verus! {

/// The identifier of a run: a universally unique identifier, as a number.
#[derive(Clone, Copy, Debug, PartialEq, Eq, Structural)]
pub struct CanonicalUuid {
    pub value: u128,
}

/// A digit between 0 and 15.
pub open spec fn hex_digit(value: int) -> char {
    if value < 10 {
        (value + '0' as int) as char
    } else {
        (value - 10 + 'a' as int) as char
    }
}

/// The digits of a number in base 16, the highest of the 32 first.
pub open spec fn hex_digits(value: u128) -> Seq<char> {
    Seq::new(32, |place: int| hex_digit((value as int / vstd::arithmetic::power::pow(16, (31 - place) as nat)) % 16))
}

/// The digits in groups of 8, 4, 4, 4 and 12.
pub open spec fn hyphenated(value: u128) -> Seq<char> {
    let digits = hex_digits(value);
    digits.subrange(0, 8).push('-') + digits.subrange(8, 12).push('-') + digits.subrange(
        12,
        16,
    ).push('-') + digits.subrange(16, 20).push('-') + digits.subrange(20, 32)
}

/// Calls `uuid::Uuid::new_v4`, and `as_u128` on what it gives. The identifier is random but for its
/// version, which is 4, and its variant, whose two bits are 1 and 0. A system that has no random
/// numbers to give stops the call.
#[verifier::external_body]
fn random_uuid() -> (value: u128)
    ensures
        (value as int / vstd::arithmetic::power::pow(16, 19)) % 16 == 4,
        (value as int / vstd::arithmetic::power::pow(2, 62)) % 4 == 2,
{
    uuid::Uuid::new_v4().as_u128()
}

/// Calls `to_string` on a `uuid::Uuid` that is made of this number. Its `Display` writes the number
/// in base 16 with lower-case letters, in groups that hyphens part.
#[verifier::external_body]
fn uuid_text(value: u128) -> (text: String)
    ensures
        text@ == hyphenated(value),
{
    uuid::Uuid::from_u128(value).to_string()
}

impl CanonicalUuid {
    pub fn new(value: u128) -> (id: Self)
        ensures
            id.value == value,
    {
        CanonicalUuid { value }
    }

    /// A random identifier: see its version and its variant.
    pub fn random() -> (id: Self)
        ensures
            id.version() == 4,
            id.variant() == 2,
    {
        CanonicalUuid { value: random_uuid() }
    }

    /// The version: the 13th digit.
    pub open spec fn version(self) -> int {
        (self.value as int / vstd::arithmetic::power::pow(16, 19)) % 16
    }

    /// The variant: the two highest bits of the 17th digit.
    pub open spec fn variant(self) -> int {
        (self.value as int / vstd::arithmetic::power::pow(2, 62)) % 4
    }

    /// The identifier as text.
    pub fn describe(&self) -> (text: String)
        ensures
            text@ == hyphenated(self.value),
    {
        uuid_text(self.value)
    }
}

/// An identifier is written in five groups of digits of base sixteen, with lower-case letters, that
/// hyphens part.
pub proof fn identifiers_are_written_in_groups(value: u128)
    ensures
        ({
            let text = hyphenated(value);
            &&& text.len() == 36
            &&& text[8] == '-' && text[13] == '-' && text[18] == '-' && text[23] == '-'
            &&& forall|i: int| 0 <= i < 8 ==> #[trigger] text[i] == hex_digits(value)[i]
            &&& forall|i: int| 24 <= i < 36 ==> #[trigger] text[i] == hex_digits(value)[i - 4]
        }),
{
    let digits = hex_digits(value);
    let text = hyphenated(value);
    let first = digits.subrange(0, 8).push('-');
    let second = digits.subrange(8, 12).push('-');
    let third = digits.subrange(12, 16).push('-');
    let fourth = digits.subrange(16, 20).push('-');
    let last = digits.subrange(20, 32);
    assert(text == first + second + third + fourth + last);
    assert(first.len() == 9 && second.len() == 5 && third.len() == 5 && fourth.len() == 5
        && last.len() == 12);
    assert(text[8] == first[8]);
    assert(text[13] == second[4]);
    assert(text[18] == third[4]);
    assert(text[23] == fourth[4]);
    assert forall|i: int| 0 <= i < 8 implies #[trigger] text[i] == digits[i] by {
        assert(text[i] == first[i]);
    }
    assert forall|i: int| 24 <= i < 36 implies #[trigger] text[i] == digits[i - 4] by {
        assert(text[i] == last[i - 24]);
    }
}

} // verus!
