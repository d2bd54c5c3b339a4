//! Settings: each one is taken from the environment where a usable value
//! is there, and from a fixed default otherwise.

use vstd::prelude::*;
use vstd::string::StringExecFns;
use crate::choice::{choice_of, read_choice, Choice};
use crate::error::{AppError, Failure};
use crate::number::{number_up_to, parse_number};
use crate::place::Place;
use crate::text::{
    is_plain_ascii, is_white_space, lemma_trimmed_ends, lemma_trimmed_fixed, lowercase_of, text_of,
    trim, trimmed,
};

verus! {

/// The port on which the web server is reached where none is set.
pub const DEFAULT_SERVER_PORT: u16 = 8000;

/// The port of the database where none is set.
pub const DEFAULT_DB_PORT: u16 = 3306;

/// The settings of one run. Every field holds a value: the names and the
/// password hold more than white space.
#[derive(Debug, PartialEq, Eq)]
pub struct AppConfig {
    pub php_container_name: String,
    pub node_container_name: String,
    pub db_root_password: String,
    pub server_port: u16,
    pub db_port: u16,
}

/// An `AppConfig` as contracts see it.
pub struct Settings {
    pub php_container_name: Seq<char>,
    pub node_container_name: Seq<char>,
    pub db_root_password: Seq<char>,
    pub server_port: u16,
    pub db_port: u16,
}

impl Settings {
    /// No name and no password is empty, not even once the white space
    /// around it is taken away.
    pub open spec fn is_complete(self) -> bool {
        &&& trimmed(self.php_container_name).len() > 0
        &&& trimmed(self.node_container_name).len() > 0
        &&& trimmed(self.db_root_password).len() > 0
    }
}

impl View for AppConfig {
    type V = Settings;

    open spec fn view(&self) -> Settings {
        Settings {
            php_container_name: self.php_container_name@,
            node_container_name: self.node_container_name@,
            db_root_password: self.db_root_password@,
            server_port: self.server_port,
            db_port: self.db_port,
        }
    }
}

/// Where a setting's value came from.
#[derive(Debug, Clone, Copy, PartialEq, Eq, Structural)]
pub enum Source {
    /// From the environment.
    Provided,
    /// The default, because the key is not set.
    Absent,
    /// The default, because the key's value is empty or is no port number.
    Unusable,
}

/// A text setting: the value without the white space around it where that
/// is not empty, otherwise the default.
pub open spec fn text_setting(trimmed_value: Option<Seq<char>>, default: Seq<char>) -> Seq<char> {
    match trimmed_value {
        Some(v) => if v.len() > 0 {
            v
        } else {
            default
        },
        None => default,
    }
}

/// Where a text setting comes from.
pub open spec fn text_source(trimmed_value: Option<Seq<char>>) -> Source {
    match trimmed_value {
        Some(v) => if v.len() > 0 {
            Source::Provided
        } else {
            Source::Unusable
        },
        None => Source::Absent,
    }
}

/// A port setting: the number that the value denotes where it is one of at
/// most 65535, otherwise the default.
pub open spec fn port_setting(trimmed_value: Option<Seq<char>>, default: u16) -> u16 {
    match trimmed_value {
        Some(v) => match number_up_to(v, 65535) {
            Some(n) => n as u16,
            None => default,
        },
        None => default,
    }
}

/// Where a port setting comes from.
pub open spec fn port_source(trimmed_value: Option<Seq<char>>) -> Source {
    match trimmed_value {
        Some(v) => if number_up_to(v, 65535) is Some {
            Source::Provided
        } else {
            Source::Unusable
        },
        None => Source::Absent,
    }
}

/// A value of the environment without the white space around it.
pub open spec fn trimmed_value(raw: Option<Seq<char>>) -> Option<Seq<char>> {
    match raw {
        Some(v) => Some(trimmed(v)),
        None => None,
    }
}

/// The settings that four values of the environment give, each already
/// without the white space around it.
pub open spec fn settings_of(
    container_name: Option<Seq<char>>,
    server_port: Option<Seq<char>>,
    db_port: Option<Seq<char>>,
    db_root_password: Option<Seq<char>>,
) -> Settings {
    let base = text_setting(container_name, "dev_container"@);
    Settings {
        php_container_name: base + "_php"@,
        node_container_name: base + "_node"@,
        db_root_password: text_setting(db_root_password, "password"@),
        server_port: port_setting(server_port, DEFAULT_SERVER_PORT),
        db_port: port_setting(db_port, DEFAULT_DB_PORT),
    }
}

/// A text setting from a value that has no white space around it any more.
pub fn text_or_default(value: Option<&str>, default: &str) -> (r: (String, Source))
    ensures
        r.0@ == text_setting(text_of(value), default@),
        r.1 == text_source(text_of(value)),
{
    match value {
        Some(v) => if v.unicode_len() > 0 {
            (String::from_str(v), Source::Provided)
        } else {
            (String::from_str(default), Source::Unusable)
        },
        None => (String::from_str(default), Source::Absent),
    }
}

/// A port setting from a value that has no white space around it any more.
/// A value that is no port number gives the default: it is no failure.
pub fn port_or_default(value: Option<&str>, default: u16) -> (r: (u16, Source))
    ensures
        r.0 == port_setting(text_of(value), default),
        r.1 == port_source(text_of(value)),
{
    match value {
        Some(v) => match parse_number(v, 65535) {
            Some(n) => (n as u16, Source::Provided),
            None => (default, Source::Unusable),
        },
        None => (default, Source::Absent),
    }
}

/// The characters of an owned string that may be missing.
pub open spec fn owned_text(s: Option<String>) -> Option<Seq<char>> {
    match s {
        Some(v) => Some(v@),
        None => None,
    }
}

/// A value of the environment without the white space around it.
fn without_space(raw: Option<&str>) -> (r: Option<String>)
    ensures
        owned_text(r) == trimmed_value(text_of(raw)),
{
    match raw {
        Some(v) => Some(trim(v)),
        None => None,
    }
}

/// A borrowed look at a string that may be missing.
fn borrowed(s: &Option<String>) -> (r: Option<&str>)
    ensures
        text_of(r) == owned_text(*s),
{
    match s {
        Some(v) => Some(v.as_str()),
        None => None,
    }
}

/// The settings of a run, with the source of each of the four values.
#[derive(Debug, PartialEq, Eq)]
pub struct Resolution {
    pub config: AppConfig,
    pub container_name: Source,
    pub server_port: Source,
    pub db_port: Source,
    pub db_root_password: Source,
}

/// Resolves the settings from the values of the keys `CONTAINER_NAME`,
/// `SERVER_PORT`, `DB_PORT` and `DB_ROOT_PASSWORD`, each `None` where the key
/// is not set. White space around a value does not count. A key that is not
/// set, an empty name or password and a port that is no number of at most
/// 65535 give the default, and never a failure: with no key set the result
/// holds the defaults alone.
pub fn get_app_config(
    container_name: Option<&str>,
    server_port: Option<&str>,
    db_port: Option<&str>,
    db_root_password: Option<&str>,
) -> (r: Resolution)
    ensures
        r.config@ == settings_of(
            trimmed_value(text_of(container_name)),
            trimmed_value(text_of(server_port)),
            trimmed_value(text_of(db_port)),
            trimmed_value(text_of(db_root_password)),
        ),
        r.container_name == text_source(trimmed_value(text_of(container_name))),
        r.server_port == port_source(trimmed_value(text_of(server_port))),
        r.db_port == port_source(trimmed_value(text_of(db_port))),
        r.db_root_password == text_source(trimmed_value(text_of(db_root_password))),
        r.config@.is_complete(),
{
    let name_value = without_space(container_name);
    let server_value = without_space(server_port);
    let db_value = without_space(db_port);
    let password_value = without_space(db_root_password);
    let (base, container_source) = text_or_default(borrowed(&name_value), "dev_container");
    let (server, server_source) = port_or_default(borrowed(&server_value), DEFAULT_SERVER_PORT);
    let (db, db_source) = port_or_default(borrowed(&db_value), DEFAULT_DB_PORT);
    let (password, password_source) = text_or_default(borrowed(&password_value), "password");
    let php = base.clone().concat("_php");
    let node = base.clone().concat("_node");
    proof {
        reveal_strlit("dev_container");
        reveal_strlit("password");
        reveal_strlit("_php");
        reveal_strlit("_node");
        if container_name is Some {
            lemma_trimmed_ends(container_name->0@);
        }
        if db_root_password is Some {
            lemma_trimmed_ends(db_root_password->0@);
        }
        assert(base@.len() > 0 && !is_white_space(base@[0]));
        assert(php@[0] == base@[0]);
        assert(node@[0] == base@[0]);
        assert(php@.last() == 'p');
        assert(node@.last() == 'e');
        lemma_trimmed_fixed(php@);
        lemma_trimmed_fixed(node@);
        lemma_trimmed_fixed(password@);
    }
    Resolution {
        config: AppConfig {
            php_container_name: php,
            node_container_name: node,
            db_root_password: password,
            server_port: server,
            db_port: db,
        },
        container_name: container_source,
        server_port: server_source,
        db_port: db_source,
        db_root_password: password_source,
    }
}

/// What is to be done about the environment file.
#[derive(Debug, PartialEq, Eq)]
pub enum EnvFile {
    /// It exists at this path.
    Found { path: String },
    /// It is to be made at `path` as a copy of the example at `example`;
    /// then the user is asked whether to go on with it.
    FromExample { example: String, path: String },
}

/// The error where neither the environment file nor its example exists.
pub open spec fn no_env_file() -> Failure {
    Failure::Validation(
        "Nem o .env, nem o . env.example foram encontrados. Verifique a estrutura do projeto."@,
    )
}

/// Decides about the environment file from where `.env` and `env.example`
/// were found. An existing `.env` is used as it is. Without one, it is to be
/// copied from the example, into the example's directory. With neither, the
/// run fails.
pub fn ensure_env_file_exists(env: Option<Place>, example: Option<Place>) -> (r: Result<
    EnvFile,
    AppError,
>)
    ensures
        match env {
            Some(p) => r matches Ok(EnvFile::Found { path }) && path@ == p.spec_file(".env"@),
            None => match example {
                Some(p) => r matches Ok(EnvFile::FromExample { example: from, path }) && from@
                    == p.spec_file("env.example"@) && path@ == p.spec_file(".env"@),
                None => r matches Err(e) && e@ == no_env_file(),
            },
        },
{
    match env {
        Some(p) => Ok(EnvFile::Found { path: p.file(".env") }),
        None => match example {
            Some(p) => Ok(EnvFile::FromExample { example: p.file("env.example"), path: p.file(".env") }),
            None => Err(
                AppError::Validation(
                    String::from_str(
                        "Nem o .env, nem o . env.example foram encontrados. Verifique a estrutura do projeto.",
                    ),
                ),
            ),
        },
    }
}

/// What follows the user's answer about a freshly copied environment file.
#[derive(Debug, PartialEq, Eq)]
pub enum Proceed {
    /// Go on with the copied defaults.
    Continue,
    /// Stop: the user will edit the file first.
    Stop(AppError),
    /// The answer was unclear: ask again.
    AskAgain,
}

/// The error where the user chooses to edit the environment file first.
pub open spec fn edits_env_first() -> Failure {
    Failure::Interrupted("O usuário optou por configurar o .env manualmente."@)
}

/// What follows a choice about a freshly copied environment file.
pub fn proceed_after(choice: Choice) -> (r: Proceed)
    ensures
        match choice {
            Choice::Yes => r is Continue,
            Choice::No => r matches Proceed::Stop(e) && e@ == edits_env_first(),
            Choice::Unclear => r is AskAgain,
        },
{
    match choice {
        Choice::Yes => Proceed::Continue,
        Choice::No => Proceed::Stop(
            AppError::Interrupted(
                String::from_str("O usuário optou por configurar o .env manualmente."),
            ),
        ),
        Choice::Unclear => Proceed::AskAgain,
    }
}

/// What follows the line that the user typed when asked whether to go on
/// with a freshly copied environment file. Where the line without the white
/// space around it is ASCII without upper-case letters, it is judged as it
/// stands.
pub fn proceed_with_defaults(line: &str) -> (r: Proceed)
    ensures
        match choice_of(lowercase_of(trimmed(line@))) {
            Choice::Yes => r is Continue,
            Choice::No => r matches Proceed::Stop(e) && e@ == edits_env_first(),
            Choice::Unclear => r is AskAgain,
        },
        is_plain_ascii(trimmed(line@)) ==> match choice_of(trimmed(line@)) {
            Choice::Yes => r is Continue,
            Choice::No => r matches Proceed::Stop(e) && e@ == edits_env_first(),
            Choice::Unclear => r is AskAgain,
        },
{
    proceed_after(read_choice(line))
}

} // verus!
