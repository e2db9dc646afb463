//! Work on strings, character by character.
//!
//! A string is taken apart into its characters, worked on as a vector and
//! put together again. What the standard library offers for this and the
//! verifier has no specification for stands behind the three trusted items
//! at the top.

use vstd::prelude::*;

verus! {

/// `str`'s `==`: two slices are equal when they hold the same characters.
#[verifier::external_body]
pub(crate) fn same_text(a: &str, b: &str) -> (same: bool)
    ensures
        same == (a@ == b@),
{
    a == b
}

/// `String::push`: the character is added at the end.
#[verifier::external_body]
pub(crate) fn push_char(text: &mut String, c: char)
    ensures
        final(text)@ == old(text)@.push(c),
{
    text.push(c)
}

/// The characters of a string, in a vector.
pub fn chars_of(text: &str) -> (chars: Vec<char>)
    ensures
        chars@ == text@,
{
    let mut chars: Vec<char> = Vec::new();
    for c in it: text.chars()
        invariant
            chars@ == it.seq().take(it.index() as int),
    {
        chars.push(c);
    }
    chars
}

/// The string that holds the given characters.
pub fn string_of(chars: &Vec<char>) -> (text: String)
    ensures
        text@ == chars@,
{
    let mut text = String::new();
    let mut i: usize = 0;
    while i < chars.len()
        invariant
            i <= chars.len(),
            text@ == chars@.take(i as int),
        decreases chars.len() - i,
    {
        push_char(&mut text, chars[i]);
        proof {
            assert(chars@.take(i + 1) =~= chars@.take(i as int).push(chars@[i as int]));
        }
        i += 1;
    }
    proof {
        assert(chars@.take(i as int) =~= chars@);
    }
    text
}

/// Where `c` first occurs in `s` at or after `from`; the length of `s` where
/// it does not.
pub open spec fn spec_index_of(s: Seq<char>, c: char, from: int) -> int
    decreases s.len() - from,
{
    if from >= s.len() {
        s.len() as int
    } else if s[from] == c {
        from
    } else {
        spec_index_of(s, c, from + 1)
    }
}

/// What Unicode counts as white space.
pub open spec fn spec_is_space(c: char) -> bool {
    let code = c as u32;
    ||| 0x09 <= code <= 0x0d
    ||| code == 0x20
    ||| code == 0x85
    ||| code == 0xa0
    ||| code == 0x1680
    ||| 0x2000 <= code <= 0x200a
    ||| code == 0x2028
    ||| code == 0x2029
    ||| code == 0x202f
    ||| code == 0x205f
    ||| code == 0x3000
}

/// Where the white space at the start of `s` ends, looking from `from` on.
pub open spec fn spec_skip_spaces(s: Seq<char>, from: int) -> int
    decreases s.len() - from,
{
    if from >= s.len() {
        s.len() as int
    } else if !spec_is_space(s[from]) {
        from
    } else {
        spec_skip_spaces(s, from + 1)
    }
}

/// Where the white space at the end of `s` starts, looking from `until`
/// back.
pub open spec fn spec_drop_spaces(s: Seq<char>, until: int) -> int
    decreases until,
{
    if until <= 0 {
        0
    } else if !spec_is_space(s[until - 1]) {
        until
    } else {
        spec_drop_spaces(s, until - 1)
    }
}

/// `s` without the white space at its start and at its end.
pub open spec fn spec_trim(s: Seq<char>) -> Seq<char> {
    let start = spec_skip_spaces(s, 0);
    let end = spec_drop_spaces(s, s.len() as int);
    if start >= end {
        Seq::<char>::empty()
    } else {
        s.subrange(start, end)
    }
}

/// `s` begins with `prefix`.
pub open spec fn spec_starts_with(s: Seq<char>, prefix: Seq<char>) -> bool {
    prefix.len() <= s.len() && s.subrange(0, prefix.len() as int) == prefix
}

/// `part` occurs in `s` at `at`.
pub open spec fn spec_occurs_at(s: Seq<char>, part: Seq<char>, at: int) -> bool {
    0 <= at && at + part.len() <= s.len() && s.subrange(at, at + part.len()) == part
}

/// `part` occurs somewhere in `s`.
pub open spec fn spec_contains(s: Seq<char>, part: Seq<char>) -> bool {
    exists|at: int| spec_occurs_at(s, part, at)
}

/// The pieces of `s` between the occurrences of `separator`, from `from`
/// on. A string without the separator is one piece; a separator at the end
/// is followed by an empty piece.
pub open spec fn spec_split(s: Seq<char>, separator: char, from: int) -> Seq<Seq<char>>
    decreases s.len() - from,
{
    if from > s.len() || from < 0 {
        Seq::<Seq<char>>::empty()
    } else {
        let cut = spec_index_of(s, separator, from);
        if cut >= s.len() {
            seq![s.subrange(from, s.len() as int)]
        } else {
            proof {
                lemma_index_of(s, separator, from);
            }
            seq![s.subrange(from, cut)] + spec_split(s, separator, cut + 1)
        }
    }
}

/// The first occurrence of a character lies within the string, at or after
/// the place where the search began, and before it there is none.
pub proof fn lemma_index_of(s: Seq<char>, c: char, from: int)
    requires
        0 <= from <= s.len(),
    ensures
        from <= spec_index_of(s, c, from) <= s.len(),
        spec_index_of(s, c, from) < s.len() ==> s[spec_index_of(s, c, from)] == c,
        forall|j: int| from <= j < spec_index_of(s, c, from) ==> s[j] != c,
    decreases s.len() - from,
{
    if from < s.len() && s[from] != c {
        lemma_index_of(s, c, from + 1);
    }
}

/// Finds the first occurrence of a character at or after a place.
pub fn index_of(s: &Vec<char>, c: char, from: usize) -> (at: usize)
    requires
        from <= s.len(),
    ensures
        at == spec_index_of(s@, c, from as int),
        from <= at <= s.len(),
{
    let mut i: usize = from;
    while i < s.len()
        invariant
            from <= i <= s.len(),
            spec_index_of(s@, c, from as int) == spec_index_of(s@, c, i as int),
        decreases s.len() - i,
    {
        if s[i] == c {
            return i;
        }
        i += 1;
    }
    i
}

/// Copies the characters from `from` up to `until`.
pub fn copy_range(s: &Vec<char>, from: usize, until: usize) -> (part: Vec<char>)
    requires
        from <= until <= s.len(),
    ensures
        part@ == s@.subrange(from as int, until as int),
{
    let mut part: Vec<char> = Vec::new();
    let mut i: usize = from;
    while i < until
        invariant
            from <= i <= until <= s.len(),
            part@ == s@.subrange(from as int, i as int),
        decreases until - i,
    {
        part.push(s[i]);
        proof {
            assert(s@.subrange(from as int, i + 1) =~= s@.subrange(from as int, i as int).push(
                s@[i as int],
            ));
        }
        i += 1;
    }
    part
}

/// Whether Unicode counts a character as white space.
pub fn is_space(c: char) -> (space: bool)
    ensures
        space == spec_is_space(c),
{
    let code = c as u32;
    (0x09 <= code && code <= 0x0d) || code == 0x20 || code == 0x85 || code == 0xa0 || code
        == 0x1680 || (0x2000 <= code && code <= 0x200a) || code == 0x2028 || code == 0x2029
        || code == 0x202f || code == 0x205f || code == 0x3000
}

/// Takes the white space at both ends away.
pub fn trimmed(s: &Vec<char>) -> (bare: Vec<char>)
    ensures
        bare@ == spec_trim(s@),
{
    let mut start: usize = 0;
    while start < s.len() && is_space(s[start])
        invariant
            start <= s.len(),
            spec_skip_spaces(s@, 0) == spec_skip_spaces(s@, start as int),
        decreases s.len() - start,
    {
        start += 1;
    }
    let mut end: usize = s.len();
    while end > 0 && is_space(s[end - 1])
        invariant
            end <= s.len(),
            spec_drop_spaces(s@, s@.len() as int) == spec_drop_spaces(s@, end as int),
        decreases end,
    {
        end -= 1;
    }
    if start >= end {
        Vec::new()
    } else {
        copy_range(s, start, end)
    }
}

/// Whether a string begins with another.
pub fn starts_with(s: &Vec<char>, prefix: &Vec<char>) -> (begins: bool)
    ensures
        begins == spec_starts_with(s@, prefix@),
{
    if prefix.len() > s.len() {
        return false;
    }
    let mut i: usize = 0;
    while i < prefix.len()
        invariant
            i <= prefix.len() <= s.len(),
            s@.subrange(0, i as int) == prefix@.subrange(0, i as int),
        decreases prefix.len() - i,
    {
        if s[i] != prefix[i] {
            proof {
                assert(s@.subrange(0, prefix@.len() as int)[i as int] != prefix@[i as int]);
            }
            return false;
        }
        proof {
            assert(s@.subrange(0, i + 1) =~= s@.subrange(0, i as int).push(s@[i as int]));
            assert(prefix@.subrange(0, i + 1) =~= prefix@.subrange(0, i as int).push(
                prefix@[i as int],
            ));
        }
        i += 1;
    }
    proof {
        assert(prefix@.subrange(0, i as int) =~= prefix@);
    }
    true
}

fn occurs_at(s: &Vec<char>, part: &Vec<char>, at: usize) -> (occurs: bool)
    requires
        at + part.len() <= s.len(),
    ensures
        occurs == spec_occurs_at(s@, part@, at as int),
{
    let mut i: usize = 0;
    while i < part.len()
        invariant
            i <= part.len(),
            at + part.len() <= s.len(),
            s@.subrange(at as int, at + i) == part@.subrange(0, i as int),
        decreases part.len() - i,
    {
        if s[at + i] != part[i] {
            proof {
                assert(s@.subrange(at as int, at + part@.len())[i as int] != part@[i as int]);
            }
            return false;
        }
        proof {
            assert(s@.subrange(at as int, at + i + 1) =~= s@.subrange(at as int, at + i).push(
                s@[at + i],
            ));
            assert(part@.subrange(0, i + 1) =~= part@.subrange(0, i as int).push(part@[i as int]));
        }
        i += 1;
    }
    proof {
        assert(part@.subrange(0, i as int) =~= part@);
    }
    true
}

/// Whether a string occurs in another.
pub fn contains(s: &Vec<char>, part: &Vec<char>) -> (found: bool)
    ensures
        found == spec_contains(s@, part@),
{
    if part.len() > s.len() {
        assert(forall|at: int| !spec_occurs_at(s@, part@, at));
        return false;
    }
    let last: usize = s.len() - part.len();
    let mut at: usize = 0;
    loop
        invariant
            at <= last,
            last == s.len() - part.len(),
            forall|before: int| 0 <= before < at ==> !spec_occurs_at(s@, part@, before),
        decreases last - at,
    {
        if occurs_at(s, part, at) {
            return true;
        }
        if at == last {
            assert(forall|anywhere: int| !spec_occurs_at(s@, part@, anywhere));
            return false;
        }
        at += 1;
    }
}

/// The views of a list of strings.
pub open spec fn pieces_view(pieces: Seq<Vec<char>>) -> Seq<Seq<char>> {
    pieces.map_values(|p: Vec<char>| p@)
}

/// Splits a string at every occurrence of a separator.
pub fn split(s: &Vec<char>, separator: char) -> (pieces: Vec<Vec<char>>)
    ensures
        pieces_view(pieces@) == spec_split(s@, separator, 0),
{
    let mut pieces: Vec<Vec<char>> = Vec::new();
    let mut from: usize = 0;
    loop
        invariant
            from <= s.len(),
            spec_split(s@, separator, 0) == pieces_view(pieces@) + spec_split(
                s@,
                separator,
                from as int,
            ),
        decreases s.len() - from,
    {
        let cut = index_of(s, separator, from);
        let piece = copy_range(s, from, cut);
        let ghost before = pieces_view(pieces@);
        pieces.push(piece);
        proof {
            assert(pieces_view(pieces@) =~= before.push(piece@));
        }
        if cut >= s.len() {
            proof {
                assert(before + seq![piece@] =~= pieces_view(pieces@));
            }
            return pieces;
        }
        proof {
            assert(before + (seq![piece@] + spec_split(s@, separator, cut + 1)) =~= pieces_view(
                pieces@,
            ) + spec_split(s@, separator, cut + 1));
        }
        from = cut + 1;
    }
}

/// A decimal digit.
pub open spec fn spec_is_digit(c: char) -> bool {
    0x30 <= c as u32 <= 0x39
}

/// What a decimal digit counts; nothing for any other character.
pub open spec fn spec_digit(c: char) -> nat {
    if spec_is_digit(c) {
        (c as u32 - 0x30) as nat
    } else {
        0
    }
}

/// Every character is a decimal digit.
pub open spec fn spec_all_digits(s: Seq<char>) -> bool {
    forall|i: int| 0 <= i < s.len() ==> spec_is_digit(#[trigger] s[i])
}

/// The number that a string of decimal digits writes.
pub open spec fn spec_value(s: Seq<char>) -> nat
    decreases s.len(),
{
    if s.len() == 0 {
        0
    } else {
        10 * spec_value(s.drop_last()) + spec_digit(s.last())
    }
}

/// The number up to `max` that a text writes, as the standard library
/// reads unsigned numbers: one or more decimal digits, with a `+` in front
/// if one likes, and nothing else; `None` for any other text and for a
/// number above `max`.
pub open spec fn spec_unsigned(s: Seq<char>, max: nat) -> Option<nat> {
    let digits = if s.len() > 0 && s[0] == '+' {
        s.subrange(1, s.len() as int)
    } else {
        s
    };
    if digits.len() > 0 && spec_all_digits(digits) && spec_value(digits) <= max {
        Some(spec_value(digits))
    } else {
        None
    }
}

/// The truth value that a text writes, as the standard library reads
/// them: `true` and `false` and nothing else.
pub open spec fn spec_flag(s: Seq<char>) -> Option<bool> {
    if s == "true"@ {
        Some(true)
    } else if s == "false"@ {
        Some(false)
    } else {
        None
    }
}

/// A number is no smaller than what any beginning of it writes.
pub proof fn lemma_value_grows(s: Seq<char>, k: int)
    requires
        0 <= k <= s.len(),
    ensures
        spec_value(s.subrange(0, k)) <= spec_value(s),
    decreases s.len(),
{
    if k == s.len() {
        assert(s.subrange(0, k) =~= s);
    } else {
        lemma_value_grows(s.drop_last(), k);
        assert(s.drop_last().subrange(0, k) =~= s.subrange(0, k));
    }
}

/// Reads an unsigned decimal number up to `max`.
pub fn parse_unsigned(s: &Vec<char>, max: u64) -> (number: Option<u64>)
    ensures
        match number {
            Some(n) => spec_unsigned(s@, max as nat) == Some(n as nat),
            None => spec_unsigned(s@, max as nat) is None,
        },
{
    let start: usize = if s.len() > 0 && s[0] == '+' {
        1
    } else {
        0
    };
    if start >= s.len() {
        return None;
    }
    let ghost digits = s@.subrange(start as int, s@.len() as int);
    proof {
        if start == 0 {
            assert(digits =~= s@);
        }
        assert(digits.subrange(0, 0) =~= Seq::<char>::empty());
    }
    let mut value: u64 = 0;
    let mut i: usize = start;
    while i < s.len()
        invariant
            start <= i <= s.len(),
            digits == s@.subrange(start as int, s@.len() as int),
            digits == (if s@.len() > 0 && s@[0] == '+' {
                s@.subrange(1, s@.len() as int)
            } else {
                s@
            }),
            value <= max,
            value == spec_value(digits.subrange(0, i - start)),
            spec_all_digits(digits.subrange(0, i - start)),
        decreases s.len() - i,
    {
        let c = s[i];
        let code = c as u32;
        if code < 0x30 || code > 0x39 {
            proof {
                assert(!spec_is_digit(digits[i - start]));
            }
            return None;
        }
        let digit: u64 = (code - 0x30) as u64;
        proof {
            let longer = digits.subrange(0, i - start + 1);
            assert(longer.drop_last() =~= digits.subrange(0, i - start));
            assert(longer.last() == c);
            assert(spec_value(longer) == 10 * value + digit);
            lemma_value_grows(digits, i - start + 1);
        }
        if value > max / 10 {
            return None;
        }
        if digit > max - value * 10 {
            return None;
        }
        value = value * 10 + digit;
        i += 1;
    }
    proof {
        assert(digits.subrange(0, i - start) =~= digits);
    }
    Some(value)
}

/// Reads a truth value.
pub fn parse_flag(s: &str) -> (flag: Option<bool>)
    ensures
        flag == spec_flag(s@),
{
    if same_text(s, "true") {
        Some(true)
    } else if same_text(s, "false") {
        Some(false)
    } else {
        None
    }
}

} // verus!
