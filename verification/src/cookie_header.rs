//! Finding the session token among the cookies that a request sends.

use vstd::prelude::*;
use crate::text::{
    chars_of, copy_range, index_of, lemma_index_of, spec_index_of, spec_starts_with, spec_trim,
    starts_with, string_of, trimmed,
};

verus! {

/// What stands between the first `=` of a cookie and its next `=`, or its
/// end where there is no other.
pub open spec fn spec_second_piece(cookie: Seq<char>) -> Seq<char> {
    let first = spec_index_of(cookie, '=', 0);
    if first >= cookie.len() {
        Seq::<char>::empty()
    } else {
        cookie.subrange(first + 1, spec_index_of(cookie, '=', first + 1))
    }
}

/// The session token that a `Cookie` header holds, looking from `from` on.
/// The header is a list of cookies with `;` between them. The first cookie
/// that, without the white space around it, begins with the name and `=`
/// is the one, and its token is what follows that `=` up to the next `=`.
pub open spec fn spec_session_token(header: Seq<char>, name: Seq<char>, from: int) -> Option<Seq<char>>
    decreases header.len() - from,
{
    if from < 0 || from > header.len() {
        None
    } else {
        let cut = spec_index_of(header, ';', from);
        let cookie = spec_trim(header.subrange(from, cut));
        if spec_starts_with(cookie, name.push('=')) {
            Some(spec_second_piece(cookie))
        } else if cut >= header.len() {
            None
        } else {
            proof {
                lemma_index_of(header, ';', from);
            }
            spec_session_token(header, name, cut + 1)
        }
    }
}

/// The characters of an optional string.
pub open spec fn token_chars(token: Option<String>) -> Option<Seq<char>> {
    match token {
        Some(t) => Some(t@),
        None => None,
    }
}

/// Finds the session token in the text of a `Cookie` header.
pub fn session_token_in(cookie_header: &str, cookie_name: &str) -> (token: Option<String>)
    ensures
        token_chars(token) == spec_session_token(cookie_header@, cookie_name@, 0),
{
    let header = chars_of(cookie_header);
    let mut prefix = chars_of(cookie_name);
    prefix.push('=');
    let mut from: usize = 0;
    loop
        invariant
            from <= header.len(),
            header@ == cookie_header@,
            prefix@ == cookie_name@.push('='),
            spec_session_token(header@, cookie_name@, 0) == spec_session_token(
                header@,
                cookie_name@,
                from as int,
            ),
        decreases header.len() - from,
    {
        let cut = index_of(&header, ';', from);
        let cookie = trimmed(&copy_range(&header, from, cut));
        if starts_with(&cookie, &prefix) {
            let first = index_of(&cookie, '=', 0);
            proof {
                lemma_index_of(cookie@, '=', 0);
                let last = prefix@.len() - 1;
                assert(cookie@.subrange(0, prefix@.len() as int)[last] == prefix@[last]);
                assert(cookie@[last] == '=');
            }
            let stop = index_of(&cookie, '=', first + 1);
            return Some(string_of(&copy_range(&cookie, first + 1, stop)));
        }
        if cut >= header.len() {
            return None;
        }
        from = cut + 1;
    }
}

} // verus!
