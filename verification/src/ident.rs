//! Identifiers. Rooms, users, calls and messages are named by 128-bit
//! numbers; on the wire a number is written as a UUID.

use vstd::arithmetic::div_mod::{
    lemma_basic_div, lemma_div_denominator, lemma_fundamental_div_mod, lemma_mod_bound,
};
use vstd::arithmetic::power::{lemma_pow_positive, pow};
use vstd::prelude::*;

verus! {

/// What a hexadecimal digit counts, in either case; `None` for any other
/// character.
pub open spec fn spec_hex_value(c: char) -> Option<int> {
    let code = c as u32;
    if 0x30 <= code <= 0x39 {
        Some(code - 0x30)
    } else if 0x61 <= code <= 0x66 {
        Some(code - 0x61 + 10)
    } else if 0x41 <= code <= 0x46 {
        Some(code - 0x41 + 10)
    } else {
        None
    }
}

/// The number that a string of hexadecimal digits writes; `None` where a
/// character is no such digit.
pub open spec fn spec_hex_number(digits: Seq<char>) -> Option<int>
    decreases digits.len(),
{
    if digits.len() == 0 {
        Some(0)
    } else {
        match (spec_hex_number(digits.drop_last()), spec_hex_value(digits.last())) {
            (Some(upper), Some(digit)) => Some(16 * upper + digit),
            _ => None,
        }
    }
}

/// The digits of a hyphenated UUID: 36 characters with hyphens at the
/// places 8, 13, 18 and 23, of which the other 32 are taken.
pub open spec fn spec_hyphenated_digits(text: Seq<char>) -> Option<Seq<char>> {
    if text.len() == 36 && text[8] == '-' && text[13] == '-' && text[18] == '-' && text[23] == '-' {
        Some(
            text.subrange(0, 8) + text.subrange(9, 13) + text.subrange(14, 18) + text.subrange(
                19,
                23,
            ) + text.subrange(24, 36),
        )
    } else {
        None
    }
}

/// The nine characters are `urn:uuid:`, in either case.
pub open spec fn spec_is_urn_prefix(prefix: Seq<char>) -> bool {
    &&& prefix.len() == 9
    &&& prefix[0] == 'u' || prefix[0] == 'U'
    &&& prefix[1] == 'r' || prefix[1] == 'R'
    &&& prefix[2] == 'n' || prefix[2] == 'N'
    &&& prefix[3] == ':'
    &&& prefix[4] == 'u' || prefix[4] == 'U'
    &&& prefix[5] == 'u' || prefix[5] == 'U'
    &&& prefix[6] == 'i' || prefix[6] == 'I'
    &&& prefix[7] == 'd' || prefix[7] == 'D'
    &&& prefix[8] == ':'
}

/// The 32 digits of a text that is a UUID in one of its four forms: 32
/// digits on their own, the hyphenated form, the hyphenated form between
/// braces, and the hyphenated form behind `urn:uuid:`.
pub open spec fn spec_uuid_digits(text: Seq<char>) -> Option<Seq<char>> {
    if text.len() == 32 {
        Some(text)
    } else if text.len() == 36 {
        spec_hyphenated_digits(text)
    } else if text.len() == 38 && text[0] == '{' && text[37] == '}' {
        spec_hyphenated_digits(text.subrange(1, 37))
    } else if text.len() == 45 && spec_is_urn_prefix(text.subrange(0, 9)) {
        spec_hyphenated_digits(text.subrange(9, 45))
    } else {
        None
    }
}

/// The number that a text writes as a UUID; `None` where the text is no
/// UUID.
pub open spec fn spec_uuid_of_text(text: Seq<char>) -> Option<u128> {
    match spec_uuid_digits(text) {
        Some(digits) => match spec_hex_number(digits) {
            Some(number) => Some(number as u128),
            None => None,
        },
        None => None,
    }
}

/// The hexadecimal digit, in lower case, of a number below 16.
pub open spec fn spec_hex_digit(n: int) -> char {
    "0123456789abcdef"@[n]
}

/// The hexadecimal digit of `id` at place `k`, counting from the most
/// significant of its 32 digits.
pub open spec fn spec_nibble(id: u128, k: int) -> int {
    (id as int / vstd::arithmetic::power::pow(16, (31 - k) as nat)) % 16
}

/// Which of the 32 digits stands at place `i` of the 36 characters of a
/// hyphenated UUID.
pub open spec fn spec_digit_place(i: int) -> int {
    if i < 8 {
        i
    } else if i < 13 {
        i - 1
    } else if i < 18 {
        i - 2
    } else if i < 23 {
        i - 3
    } else {
        i - 4
    }
}

/// A number written as a UUID: its 32 hexadecimal digits in lower case, the
/// most significant first, in groups of 8, 4, 4, 4 and 12 with a hyphen
/// between two groups.
pub open spec fn spec_uuid_text(id: u128) -> Seq<char> {
    Seq::new(
        36,
        |i: int|
            if i == 8 || i == 13 || i == 18 || i == 23 {
                '-'
            } else {
                spec_hex_digit(spec_nibble(id, spec_digit_place(i)))
            },
    )
}

/// `uuid::Uuid::parse_str`, with the result taken as a number by
/// `Uuid::as_u128`. The outside function takes a UUID in any of its four
/// forms, with digits in either case, and nothing else.
#[verifier::external_body]
pub(crate) fn parse_id(text: &str) -> (id: Option<u128>)
    ensures
        id == spec_uuid_of_text(text@),
{
    match uuid::Uuid::parse_str(text) {
        Ok(uuid) => Some(uuid.as_u128()),
        Err(_) => None,
    }
}

/// `Display` of `uuid::Uuid`, on the UUID that `Uuid::from_u128` makes of
/// the number: the hyphenated form in lower case.
#[verifier::external_body]
pub(crate) fn id_text(id: u128) -> (text: String)
    ensures
        text@ == spec_uuid_text(id),
{
    uuid::Uuid::from_u128(id).to_string()
}

/// `uuid::Uuid::new_v4`, as a number: a random identifier. Nothing is
/// claimed of it. The outside function gives up only where the operating
/// system has no random numbers to give.
#[verifier::external_body]
pub(crate) fn fresh_id() -> (id: u128)
{
    uuid::Uuid::new_v4().as_u128()
}

/// The 32 hexadecimal digits of a number, the most significant first.
pub open spec fn spec_digits(id: u128) -> Seq<char> {
    Seq::new(32, |k: int| spec_hex_digit(spec_nibble(id, k)))
}

/// A hexadecimal digit counts what it was written for.
pub proof fn lemma_hex_digit_counts(n: int)
    requires
        0 <= n < 16,
    ensures
        spec_hex_value(spec_hex_digit(n)) == Some(n),
{
    reveal_strlit("0123456789abcdef");
}

/// Sixteen to the power of 32 is one more than the largest identifier.
proof fn lemma_sixteen_to_the_32()
    ensures
        pow(16, 32) == 0x1_0000_0000_0000_0000_0000_0000_0000_0000,
{
    reveal(pow);
    assert(pow(16, 0) == 1);
    assert(pow(16, 4) == 0x1_0000) by {
        assert(pow(16, 1) == 16);
        assert(pow(16, 2) == 0x100);
        assert(pow(16, 3) == 0x1000);
    }
    assert(pow(16, 8) == 0x1_0000_0000) by {
        assert(pow(16, 5) == 0x10_0000);
        assert(pow(16, 6) == 0x100_0000);
        assert(pow(16, 7) == 0x1000_0000);
    }
    assert(pow(16, 12) == 0x1_0000_0000_0000) by {
        assert(pow(16, 9) == 0x10_0000_0000);
        assert(pow(16, 10) == 0x100_0000_0000);
        assert(pow(16, 11) == 0x1000_0000_0000);
    }
    assert(pow(16, 16) == 0x1_0000_0000_0000_0000) by {
        assert(pow(16, 13) == 0x10_0000_0000_0000);
        assert(pow(16, 14) == 0x100_0000_0000_0000);
        assert(pow(16, 15) == 0x1000_0000_0000_0000);
    }
    vstd::arithmetic::power::lemma_pow_adds(16, 16, 16);
}

/// The first `k` digits of a number write the number without its last
/// `32 - k` digits.
proof fn lemma_digits_write(id: u128, k: int)
    requires
        0 <= k <= 32,
    ensures
        spec_hex_number(spec_digits(id).subrange(0, k)) == Some(id as int / pow(16, (32 - k) as nat)),
    decreases k,
{
    let digits = spec_digits(id);
    if k == 0 {
        lemma_sixteen_to_the_32();
        lemma_basic_div(id as int, pow(16, 32));
        assert(digits.subrange(0, 0) =~= Seq::<char>::empty());
    } else {
        lemma_digits_write(id, k - 1);
        let written = digits.subrange(0, k);
        assert(written.drop_last() =~= digits.subrange(0, k - 1));
        assert(written.last() == spec_hex_digit(spec_nibble(id, k - 1)));
        let unit = pow(16, (32 - k) as nat);
        lemma_pow_positive(16, (32 - k) as nat);
        assert(pow(16, (33 - k) as nat) == 16 * unit) by {
            reveal(pow);
        }
        let cut = id as int / unit;
        lemma_div_denominator(id as int, unit, 16);
        assert(cut / 16 == id as int / (unit * 16));
        assert(unit * 16 == 16 * unit);
        lemma_fundamental_div_mod(cut, 16);
        lemma_mod_bound(cut, 16);
        assert(spec_nibble(id, k - 1) == cut % 16);
        lemma_hex_digit_counts(cut % 16);
    }
}

/// What is written for an identifier reads back as that identifier.
pub proof fn lemma_uuid_text_reads_back(id: u128)
    ensures
        spec_uuid_of_text(spec_uuid_text(id)) == Some(id),
{
    let text = spec_uuid_text(id);
    let digits = spec_digits(id);
    assert(spec_hyphenated_digits(text) == Some(digits)) by {
        let taken = text.subrange(0, 8) + text.subrange(9, 13) + text.subrange(14, 18)
            + text.subrange(19, 23) + text.subrange(24, 36);
        assert(taken =~= digits);
    }
    lemma_digits_write(id, 32);
    assert(digits.subrange(0, 32) =~= digits);
    assert(pow(16, 0) == 1) by {
        reveal(pow);
    }
}

} // verus!
