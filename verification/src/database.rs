//! What to do when the database of the service does not exist yet: telling
//! that failure from others, and working out where and how to create the
//! database.

use vstd::prelude::*;
use vstd::utf8::encode_utf8;
use crate::text::{chars_of, contains, copy_range, spec_contains, string_of};

verus! {

/// The longest address, in bytes, that is taken apart here.
pub const MAX_URL_BYTES: usize = 65536;

/// Why no database can be created for an address.
#[derive(Clone, Copy, Debug, PartialEq, Eq, Structural)]
pub enum DatabaseUrlError {
    /// The address is no URL, or is longer than `MAX_URL_BYTES`.
    InvalidUrl,
    /// The path of the address names no database.
    NoDatabaseName,
}

/// The steps that create a missing database: connect to the server's
/// `postgres` database under `admin_url` and, unless the database is there
/// after all, run `statement`.
#[derive(Clone, Debug, PartialEq, Eq)]
pub struct CreationPlan {
    pub database_name: String,
    pub admin_url: String,
    pub statement: String,
}

/// What the `url` crate makes of a text and a new path: the path of the URL
/// that `url::Url::parse` reads from the text, with percent-encoding as
/// that crate writes it, and the same URL written out after its path was
/// set to the new one; `None` where the text is no URL.
pub uninterp spec fn url_moved_of(text: Seq<char>, path: Seq<char>) -> Option<(Seq<char>, Seq<char>)>;

/// The characters of an optional pair of strings.
pub open spec fn pair_chars(pair: Option<(String, String)>) -> Option<(Seq<char>, Seq<char>)> {
    match pair {
        Some((a, b)) => Some((a@, b@)),
        None => None,
    }
}

/// `url::Url::parse`, then `Url::path`, `Url::set_path` and the URL written
/// out by its `Display`. `set_path` gives up where the URL grows beyond
/// `u32::MAX` bytes, which the bounds on both texts rule out.
#[verifier::external_body]
fn url_moved(text: &str, path: &str) -> (moved: Option<(String, String)>)
    requires
        encode_utf8(text@).len() <= MAX_URL_BYTES,
        encode_utf8(path@).len() <= MAX_URL_BYTES,
    ensures
        pair_chars(moved) == url_moved_of(text@, path@),
{
    match url::Url::parse(text) {
        Ok(mut url) => {
            let old_path = url.path().to_string();
            url.set_path(path);
            Some((old_path, url.to_string()))
        },
        Err(_) => None,
    }
}

/// A failure to connect says that the database does not exist: its message
/// speaks of something that `does not exist`, or of a `database` and of
/// `not exist`.
pub open spec fn spec_database_is_missing(message: Seq<char>) -> bool {
    spec_contains(message, "does not exist"@) || (spec_contains(message, "database"@)
        && spec_contains(message, "not exist"@))
}

/// Whether a failure to connect says that the database does not exist.
pub fn database_is_missing(message: &str) -> (missing: bool)
    ensures
        missing == spec_database_is_missing(message@),
{
    let text = chars_of(message);
    contains(&text, &chars_of("does not exist")) || (contains(&text, &chars_of("database"))
        && contains(&text, &chars_of("not exist")))
}

/// Where the slashes at the start of `s` end, looking from `from` on.
pub open spec fn spec_skip_slashes(s: Seq<char>, from: int) -> int
    decreases s.len() - from,
{
    if from >= s.len() {
        s.len() as int
    } else if s[from] != '/' {
        from
    } else {
        spec_skip_slashes(s, from + 1)
    }
}

/// The name of the database that a path names: the path without the
/// slashes at its start.
pub open spec fn spec_database_name(path: Seq<char>) -> Seq<char> {
    path.subrange(spec_skip_slashes(path, 0), path.len() as int)
}

/// A text with every single quote doubled.
pub open spec fn spec_quotes_doubled(s: Seq<char>) -> Seq<char>
    decreases s.len(),
{
    if s.len() == 0 {
        Seq::<char>::empty()
    } else if s.last() == '\'' {
        spec_quotes_doubled(s.drop_last()).push('\'').push('\'')
    } else {
        spec_quotes_doubled(s.drop_last()).push(s.last())
    }
}

/// The statement that creates a database of the given name.
pub open spec fn spec_create_statement(name: Seq<char>) -> Seq<char> {
    "CREATE DATABASE "@ + spec_quotes_doubled(name)
}

/// The plan for an address whose path and whose form with the path
/// `/postgres` are at hand.
pub open spec fn spec_plan(path: Seq<char>, admin_url: Seq<char>) -> Result<(Seq<char>, Seq<char>, Seq<char>), DatabaseUrlError> {
    let name = spec_database_name(path);
    if name.len() == 0 {
        Err(DatabaseUrlError::NoDatabaseName)
    } else {
        Ok((name, admin_url, spec_create_statement(name)))
    }
}

/// A plan or the reason why there is none, with the strings by their
/// characters.
pub open spec fn plan_view(plan: Result<CreationPlan, DatabaseUrlError>) -> Result<(Seq<char>, Seq<char>, Seq<char>), DatabaseUrlError> {
    match plan {
        Ok(p) => Ok((p.database_name@, p.admin_url@, p.statement@)),
        Err(e) => Err(e),
    }
}

/// The plan for an address, from what the `url` crate says of it. An
/// address that is no URL, or is too long to take apart, gives
/// `InvalidUrl`.
pub open spec fn spec_creation_plan(database_url: Seq<char>) -> Result<(Seq<char>, Seq<char>, Seq<char>), DatabaseUrlError> {
    if encode_utf8(database_url).len() > MAX_URL_BYTES {
        Err(DatabaseUrlError::InvalidUrl)
    } else {
        match url_moved_of(database_url, "/postgres"@) {
            Some((path, admin_url)) => spec_plan(path, admin_url),
            None => Err(DatabaseUrlError::InvalidUrl),
        }
    }
}

/// The name of the database that a path names.
pub fn database_name(path: &str) -> (name: String)
    ensures
        name@ == spec_database_name(path@),
{
    let chars = chars_of(path);
    let mut start: usize = 0;
    while start < chars.len() && chars[start] == '/'
        invariant
            start <= chars.len(),
            spec_skip_slashes(chars@, 0) == spec_skip_slashes(chars@, start as int),
        decreases chars.len() - start,
    {
        start += 1;
    }
    string_of(&copy_range(&chars, start, chars.len()))
}

/// The statement that creates a database of the given name.
pub fn create_database_statement(name: &str) -> (statement: String)
    ensures
        statement@ == spec_create_statement(name@),
{
    let chars = chars_of(name);
    let mut text = chars_of("CREATE DATABASE ");
    let mut i: usize = 0;
    while i < chars.len()
        invariant
            i <= chars.len(),
            text@ == "CREATE DATABASE "@ + spec_quotes_doubled(chars@.subrange(0, i as int)),
        decreases chars.len() - i,
    {
        proof {
            assert(chars@.subrange(0, i + 1).drop_last() =~= chars@.subrange(0, i as int));
        }
        let ghost before = text@;
        if chars[i] == '\'' {
            text.push('\'');
            text.push('\'');
            proof {
                assert(text@ =~= "CREATE DATABASE "@ + spec_quotes_doubled(
                    chars@.subrange(0, i + 1),
                ));
            }
        } else {
            text.push(chars[i]);
            proof {
                assert(text@ =~= "CREATE DATABASE "@ + spec_quotes_doubled(
                    chars@.subrange(0, i + 1),
                ));
            }
        }
        i += 1;
    }
    proof {
        assert(chars@.subrange(0, i as int) =~= chars@);
    }
    string_of(&text)
}

/// The plan for an address whose path and whose form with the path
/// `/postgres` are at hand.
pub fn plan_from(path: &str, admin_url: String) -> (plan: Result<CreationPlan, DatabaseUrlError>)
    ensures
        plan_view(plan) == spec_plan(path@, admin_url@),
{
    let name = database_name(path);
    if chars_of(name.as_str()).len() == 0 {
        return Err(DatabaseUrlError::NoDatabaseName);
    }
    let statement = create_database_statement(name.as_str());
    Ok(CreationPlan { database_name: name, admin_url, statement })
}

/// The plan for creating the database that an address names.
pub fn creation_plan(database_url: &str) -> (plan: Result<CreationPlan, DatabaseUrlError>)
    ensures
        plan_view(plan) == spec_creation_plan(database_url@),
{
    if database_url.as_bytes().len() > MAX_URL_BYTES {
        return Err(DatabaseUrlError::InvalidUrl);
    }
    proof {
        reveal_strlit("/postgres");
        vstd::string::is_ascii_spec_bytes("/postgres");
    }
    match url_moved(database_url, "/postgres") {
        Some((path, admin_url)) => plan_from(path.as_str(), admin_url),
        None => Err(DatabaseUrlError::InvalidUrl),
    }
}

} // verus!
