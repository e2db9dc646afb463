//! The settings of the service.

use vstd::prelude::*;
use crate::text::{
    chars_of, parse_flag, parse_unsigned, pieces_view, same_text, spec_flag, spec_split, spec_trim,
    spec_unsigned, split, string_of, trimmed,
};

verus! {

/// Everything the service is configured with.
#[derive(Debug, Clone)]
pub struct Config {
    pub server: ServerConfig,
    pub database: DatabaseConfig,
    pub auth: AuthConfig,
    pub cors: CorsConfig,
    pub upload: UploadConfig,
}

/// Where the service listens.
#[derive(Debug, Clone)]
pub struct ServerConfig {
    pub port: u16,
    pub host: String,
}

/// How the database is reached.
#[derive(Debug, Clone)]
pub struct DatabaseConfig {
    pub url: String,
    pub max_connections: u32,
}

/// How sessions and their cookie are set up.
#[derive(Debug, Clone)]
pub struct AuthConfig {
    pub session_secret: String,
    pub cookie_name: String,
    pub cookie_domain: Option<String>,
    pub cookie_secure: bool,
    pub cookie_same_site: String,
    pub session_expiration_days: u64,
}

/// Which origins may call the service from a browser.
#[derive(Debug, Clone)]
pub struct CorsConfig {
    pub allowed_origins: Vec<String>,
}

/// Where uploads go and how large they may be.
#[derive(Debug, Clone)]
pub struct UploadConfig {
    pub upload_dir: String,
    pub max_file_size: u64,
}

/// The settings as the environment gives them: the text of each variable
/// that is set. The address of the database and the session secret must
/// be set; every other setting has a value to fall back on.
#[derive(Debug, Clone)]
pub struct Settings {
    pub port: Option<String>,
    pub host: Option<String>,
    pub database_url: String,
    pub database_max_connections: Option<String>,
    pub session_secret: String,
    pub cookie_name: Option<String>,
    pub cookie_domain: Option<String>,
    pub cookie_secure: Option<String>,
    pub cookie_same_site: Option<String>,
    pub session_expiration_days: Option<String>,
    pub cors_origin: Option<String>,
    pub upload_dir: Option<String>,
    pub max_file_size: Option<String>,
}

/// The characters of an optional string.
pub open spec fn setting_chars(text: Option<String>) -> Option<Seq<char>> {
    match text {
        Some(t) => Some(t@),
        None => None,
    }
}

/// The number that a setting gives: the number it writes, or the fallback
/// where it is not set or writes no number up to `max`.
pub open spec fn spec_number_or(text: Option<Seq<char>>, max: nat, fallback: nat) -> nat {
    match text {
        Some(t) => match spec_unsigned(t, max) {
            Some(n) => n,
            None => fallback,
        },
        None => fallback,
    }
}

/// The truth value that a setting gives: the one it writes, or the
/// fallback where it is not set or writes none.
pub open spec fn spec_flag_or(text: Option<Seq<char>>, fallback: bool) -> bool {
    match text {
        Some(t) => match spec_flag(t) {
            Some(flag) => flag,
            None => fallback,
        },
        None => fallback,
    }
}

/// The text that a setting gives: its own, or the fallback where it is not
/// set.
pub open spec fn spec_text_or(text: Option<Seq<char>>, fallback: Seq<char>) -> Seq<char> {
    match text {
        Some(t) => t,
        None => fallback,
    }
}

/// The origins that a setting lists: the pieces between its commas, each
/// without the white space around it.
pub open spec fn spec_origins(text: Seq<char>) -> Seq<Seq<char>> {
    spec_split(text, ',', 0).map_values(|piece: Seq<char>| spec_trim(piece))
}

/// The characters of each string of a list.
pub open spec fn texts_view(texts: Seq<String>) -> Seq<Seq<char>> {
    texts.map_values(|t: String| t@)
}

fn number_or(text: &Option<String>, max: u64, fallback: u64) -> (number: u64)
    requires
        fallback <= max,
    ensures
        number == spec_number_or(setting_chars(*text), max as nat, fallback as nat),
        number <= max,
{
    match text {
        Some(t) => match parse_unsigned(&chars_of(t.as_str()), max) {
            Some(n) => n,
            None => fallback,
        },
        None => fallback,
    }
}

fn flag_or(text: &Option<String>, fallback: bool) -> (flag: bool)
    ensures
        flag == spec_flag_or(setting_chars(*text), fallback),
{
    match text {
        Some(t) => match parse_flag(t.as_str()) {
            Some(flag) => flag,
            None => fallback,
        },
        None => fallback,
    }
}

fn text_or(text: &Option<String>, fallback: &str) -> (given: String)
    ensures
        given@ == spec_text_or(setting_chars(*text), fallback@),
{
    match text {
        Some(t) => t.clone(),
        None => fallback.to_owned(),
    }
}

/// Lists the origins that a setting names.
pub fn origins_of(text: &str) -> (origins: Vec<String>)
    ensures
        texts_view(origins@) == spec_origins(text@),
{
    let pieces = split(&chars_of(text), ',');
    let mut origins: Vec<String> = Vec::new();
    let mut i: usize = 0;
    while i < pieces.len()
        invariant
            i <= pieces.len(),
            pieces_view(pieces@) == spec_split(text@, ',', 0),
            texts_view(origins@) == spec_origins(text@).subrange(0, i as int),
        decreases pieces.len() - i,
    {
        let origin = string_of(&trimmed(&pieces[i]));
        let ghost before = texts_view(origins@);
        origins.push(origin);
        proof {
            assert(pieces_view(pieces@)[i as int] == pieces@[i as int]@);
            assert(texts_view(origins@) =~= before.push(origin@));
            assert(spec_origins(text@).subrange(0, i + 1) =~= spec_origins(text@).subrange(
                0,
                i as int,
            ).push(spec_origins(text@)[i as int]));
        }
        i += 1;
    }
    proof {
        assert(spec_origins(text@).subrange(0, i as int) =~= spec_origins(text@));
    }
    origins
}

impl CorsConfig {
    /// Every origin is allowed: the list names `*`.
    pub open spec fn spec_allows_any_origin(&self) -> bool {
        exists|i: int| 0 <= i < self.allowed_origins@.len() && #[trigger] self.allowed_origins@[i]@ == "*"@
    }

    /// Whether every origin is allowed.
    pub fn allows_any_origin(&self) -> (any: bool)
        ensures
            any == self.spec_allows_any_origin(),
    {
        let mut i: usize = 0;
        while i < self.allowed_origins.len()
            invariant
                i <= self.allowed_origins@.len(),
                forall|j: int| 0 <= j < i ==> #[trigger] self.allowed_origins@[j]@ != "*"@,
            decreases self.allowed_origins@.len() - i,
        {
            if same_text(self.allowed_origins[i].as_str(), "*") {
                return true;
            }
            i += 1;
        }
        false
    }
}

impl Config {
    /// The configuration that the settings of the environment give. A
    /// setting that is not set, or that does not write a value of its kind,
    /// falls back: the port on 3000, the host on `0.0.0.0`, the connections
    /// on 10, the cookie on `session_token`, not secure and `Strict`, the
    /// session on 7 days, the origins on `*`, the uploads on `./uploads`
    /// and 10 MiB.
    pub fn from_env(values: &Settings) -> (config: Config)
        ensures
            config.server.port == spec_number_or(setting_chars(values.port), 65535, 3000),
            config.server.host@ == spec_text_or(setting_chars(values.host), "0.0.0.0"@),
            config.database.url@ == values.database_url@,
            config.database.max_connections == spec_number_or(
                setting_chars(values.database_max_connections),
                0xffff_ffff,
                10,
            ),
            config.auth.session_secret@ == values.session_secret@,
            config.auth.cookie_name@ == spec_text_or(
                setting_chars(values.cookie_name),
                "session_token"@,
            ),
            setting_chars(config.auth.cookie_domain) == setting_chars(values.cookie_domain),
            config.auth.cookie_secure == spec_flag_or(setting_chars(values.cookie_secure), false),
            config.auth.cookie_same_site@ == spec_text_or(
                setting_chars(values.cookie_same_site),
                "Strict"@,
            ),
            config.auth.session_expiration_days == spec_number_or(
                setting_chars(values.session_expiration_days),
                0xffff_ffff_ffff_ffff,
                7,
            ),
            texts_view(config.cors.allowed_origins@) == spec_origins(
                spec_text_or(setting_chars(values.cors_origin), "*"@),
            ),
            config.upload.upload_dir@ == spec_text_or(setting_chars(values.upload_dir), "./uploads"@),
            config.upload.max_file_size == spec_number_or(
                setting_chars(values.max_file_size),
                0xffff_ffff_ffff_ffff,
                10_485_760,
            ),
    {
        let port = number_or(&values.port, 65535, 3000);
        let connections = number_or(&values.database_max_connections, 0xffff_ffff, 10);
        let origins = text_or(&values.cors_origin, "*");
        Config {
            server: ServerConfig { port: port as u16, host: text_or(&values.host, "0.0.0.0") },
            database: DatabaseConfig {
                url: values.database_url.clone(),
                max_connections: connections as u32,
            },
            auth: AuthConfig {
                session_secret: values.session_secret.clone(),
                cookie_name: text_or(&values.cookie_name, "session_token"),
                cookie_domain: match &values.cookie_domain {
                    Some(domain) => Some(domain.clone()),
                    None => None,
                },
                cookie_secure: flag_or(&values.cookie_secure, false),
                cookie_same_site: text_or(&values.cookie_same_site, "Strict"),
                session_expiration_days: number_or(
                    &values.session_expiration_days,
                    0xffff_ffff_ffff_ffff,
                    7,
                ),
            },
            cors: CorsConfig { allowed_origins: origins_of(origins.as_str()) },
            upload: UploadConfig {
                upload_dir: text_or(&values.upload_dir, "./uploads"),
                max_file_size: number_or(&values.max_file_size, 0xffff_ffff_ffff_ffff, 10_485_760),
            },
        }
    }
}

} // verus!
