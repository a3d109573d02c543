//! Where the hosted provider's API key comes from: the environment, then a
//! `.env` file, then the key saved in the application's config file.
use vstd::prelude::*;
use vstd::string::StringExecFns;
use crate::json::{
    error_text, json_single_member_object, json_string_member,
    parse_string_member, single_member_object,
};

verus! {

/// Environment variable that holds the API key.
pub const API_KEY_VAR: &'static str = "OPENAI_API_KEY";

/// Directory, under the application's data directory, of the config file.
pub const CONFIG_DIR: &'static str = "config";

/// Name of the config file that holds the saved key.
pub const CREDENTIALS_FILE: &'static str = "credentials.json";

/// Member of the config file's JSON object that holds the key.
pub const CREDENTIALS_KEY: &'static str = "openai_api_key";

/// Why a key could not be saved, loaded or found. Each variant that carries a
/// text carries the underlying error's description.
#[derive(Clone, Debug)]
pub enum CredentialError {
    DataDirUnavailable(String),
    DirCreateFailed(String),
    WriteFailed(String),
    ReadFailed(String),
    ParseFailed(String),
    NoSavedKey,
    KeyNotInConfig,
    NotConfigured,
}

/// The message shown for an error.
pub open spec fn error_message(e: CredentialError) -> Seq<char> {
    match e {
        CredentialError::DataDirUnavailable(d) => "Failed to get app data directory: "@ + d@,
        CredentialError::DirCreateFailed(d) => "Failed to create config directory: "@ + d@,
        CredentialError::WriteFailed(d) => "Failed to write credentials file: "@ + d@,
        CredentialError::ReadFailed(d) => "Failed to read credentials file: "@ + d@,
        CredentialError::ParseFailed(d) => "Failed to parse credentials file: "@ + d@,
        CredentialError::NoSavedKey => "API key not found. Please set your OpenAI API key"@,
        CredentialError::KeyNotInConfig => "API key not found in config"@,
        CredentialError::NotConfigured => "OpenAI API key not found. Please set your API key in settings"@,
    }
}

fn prefixed(prefix: &str, detail: &String) -> (r: String)
    ensures
        r@ == prefix@ + detail@,
{
    let mut r = String::from_str(prefix);
    r.append(detail.as_str());
    r
}

impl CredentialError {
    /// The message shown to the user for this error.
    pub fn message(&self) -> (r: String)
        ensures
            r@ == error_message(*self),
    {
        match self {
            CredentialError::DataDirUnavailable(d) => prefixed(
                "Failed to get app data directory: ",
                d,
            ),
            CredentialError::DirCreateFailed(d) => prefixed(
                "Failed to create config directory: ",
                d,
            ),
            CredentialError::WriteFailed(d) => prefixed("Failed to write credentials file: ", d),
            CredentialError::ReadFailed(d) => prefixed("Failed to read credentials file: ", d),
            CredentialError::ParseFailed(d) => prefixed("Failed to parse credentials file: ", d),
            CredentialError::NoSavedKey => String::from_str(
                "API key not found. Please set your OpenAI API key",
            ),
            CredentialError::KeyNotInConfig => String::from_str("API key not found in config"),
            CredentialError::NotConfigured => String::from_str(
                "OpenAI API key not found. Please set your API key in settings",
            ),
        }
    }
}

/// The text of the config file that saves `api_key`.
pub fn credentials_document(api_key: &str) -> (r: String)
    ensures
        r@ == json_single_member_object(CREDENTIALS_KEY@, api_key@),
{
    single_member_object(CREDENTIALS_KEY, api_key)
}

/// What reading the config file's text yields: a parse error, or the saved
/// key if the file holds one as a string.
pub open spec fn stored_key_spec(contents: Seq<char>, r: Result<Option<String>, CredentialError>) -> bool {
    match json_string_member(contents, CREDENTIALS_KEY@) {
        None => r matches Err(CredentialError::ParseFailed(_)),
        Some(None) => r matches Ok(None),
        Some(Some(k)) => r matches Ok(Some(s)) && s@ == k,
    }
}

/// Reads the saved key out of the config file's text.
pub fn stored_key(contents: &str) -> (r: Result<Option<String>, CredentialError>)
    ensures
        stored_key_spec(contents@, r),
{
    match parse_string_member(contents, CREDENTIALS_KEY) {
        Ok(k) => Ok(k),
        Err(e) => Err(CredentialError::ParseFailed(error_text(&e))),
    }
}

/// Loads the saved key from the config file's text, `None` when there is no
/// config file. Unlike the lookup of the key, an empty saved key is returned.
pub fn loaded_key(contents: Option<&str>) -> (r: Result<String, CredentialError>)
    ensures
        contents is None ==> r matches Err(CredentialError::NoSavedKey),
        contents matches Some(c) ==> match json_string_member(c@, CREDENTIALS_KEY@) {
            None => r matches Err(CredentialError::ParseFailed(_)),
            Some(None) => r matches Err(CredentialError::KeyNotInConfig),
            Some(Some(k)) => r matches Ok(s) && s@ == k,
        },
{
    match contents {
        None => Err(CredentialError::NoSavedKey),
        Some(c) => match stored_key(c) {
            Ok(Some(k)) => Ok(k),
            Ok(None) => Err(CredentialError::KeyNotInConfig),
            Err(e) => Err(e),
        },
    }
}

/// The places a key is looked for, in the order they are tried.
#[derive(Clone, Copy, Debug, PartialEq, Eq, Structural)]
pub enum KeySource {
    Environment,
    DotEnvFile,
    ConfigFile,
}

/// A key that was found, and where.
#[derive(Clone, Debug)]
pub struct ResolvedKey {
    pub key: String,
    pub source: KeySource,
}

/// The next step of looking up the key: read one place, or stop with the
/// outcome.
#[derive(Debug)]
pub enum KeyLookup {
    Read(KeySource),
    Done(Result<ResolvedKey, CredentialError>),
}

/// The place tried after `source`, if any.
pub open spec fn next_source(source: KeySource) -> Option<KeySource> {
    match source {
        KeySource::Environment => Some(KeySource::DotEnvFile),
        KeySource::DotEnvFile => Some(KeySource::ConfigFile),
        KeySource::ConfigFile => None,
    }
}

/// Whether `found` holds a usable key: one that is present and not empty.
pub open spec fn usable(found: Result<Option<String>, CredentialError>) -> bool {
    found matches Ok(Some(k)) && k@.len() > 0
}

/// The step that follows reading `source`, which yielded `found`.
pub open spec fn lookup_step(source: KeySource, found: Result<Option<String>, CredentialError>) -> KeyLookup {
    match found {
        Err(e) => KeyLookup::Done(Err(e)),
        Ok(Some(k)) => if k@.len() > 0 {
            KeyLookup::Done(Ok(ResolvedKey { key: k, source }))
        } else {
            match next_source(source) {
                Some(n) => KeyLookup::Read(n),
                None => KeyLookup::Done(Err(CredentialError::NotConfigured)),
            }
        },
        Ok(None) => match next_source(source) {
            Some(n) => KeyLookup::Read(n),
            None => KeyLookup::Done(Err(CredentialError::NotConfigured)),
        },
    }
}

/// Where a whole lookup ends, given what the environment, the `.env` file
/// and the config file yield when each is read in its turn.
pub open spec fn lookup_outcome(
    env: Option<String>,
    dotenv: Option<String>,
    config: Result<Option<String>, CredentialError>,
) -> KeyLookup {
    match lookup_step(KeySource::Environment, Ok(env)) {
        KeyLookup::Read(_) => match lookup_step(KeySource::DotEnvFile, Ok(dotenv)) {
            KeyLookup::Read(_) => lookup_step(KeySource::ConfigFile, config),
            done => done,
        },
        done => done,
    }
}

/// The lookup's priority: the key comes from the first of the environment,
/// the `.env` file and the config file that holds one that is not empty; a
/// failure to read the config file is reported only when neither of the
/// others holds a key; with no key anywhere the key is not configured.
pub proof fn lemma_lookup_priority(
    env: Option<String>,
    dotenv: Option<String>,
    config: Result<Option<String>, CredentialError>,
)
    ensures
        (env matches Some(k) && k@.len() > 0) ==> lookup_outcome(env, dotenv, config)
            == KeyLookup::Done(Ok(ResolvedKey { key: env->0, source: KeySource::Environment })),
        !(env matches Some(k) && k@.len() > 0) && (dotenv matches Some(k) && k@.len() > 0)
            ==> lookup_outcome(env, dotenv, config) == KeyLookup::Done(
            Ok(ResolvedKey { key: dotenv->0, source: KeySource::DotEnvFile }),
        ),
        !(env matches Some(k) && k@.len() > 0) && !(dotenv matches Some(k) && k@.len() > 0)
            ==> lookup_outcome(env, dotenv, config) == match config {
            Err(e) => KeyLookup::Done(Err(e)),
            Ok(Some(k)) => if k@.len() > 0 {
                KeyLookup::Done(Ok(ResolvedKey { key: k, source: KeySource::ConfigFile }))
            } else {
                KeyLookup::Done(Err(CredentialError::NotConfigured))
            },
            Ok(None) => KeyLookup::Done(Err(CredentialError::NotConfigured)),
        },
{
}

/// The first step of a lookup: read the environment.
pub fn first_lookup() -> (r: KeyLookup)
    ensures
        r == KeyLookup::Read(KeySource::Environment),
{
    KeyLookup::Read(KeySource::Environment)
}

/// Decides what follows reading `source`, which yielded `found`: a key that is
/// present and not empty ends the lookup; a failure ends it with that
/// failure; otherwise the next place is read, and after the last one the key
/// is not configured.
pub fn after_read(source: KeySource, found: Result<Option<String>, CredentialError>) -> (r:
    KeyLookup)
    ensures
        r == lookup_step(source, found),
        usable(found) ==> (r matches KeyLookup::Done(Ok(k)) && k.source == source
            && found == Ok::<Option<String>, CredentialError>(Some(k.key))),
        found is Err ==> r == KeyLookup::Done(Err(found->Err_0)),
        (found matches Ok(o) && !usable(found)) ==> match next_source(source) {
            Some(n) => r == KeyLookup::Read(n),
            None => r matches KeyLookup::Done(Err(CredentialError::NotConfigured)),
        },
{
    match found {
        Err(e) => KeyLookup::Done(Err(e)),
        Ok(Some(k)) if !k.as_str().is_empty() => KeyLookup::Done(
            Ok(ResolvedKey { key: k, source }),
        ),
        Ok(_) => match source {
            KeySource::Environment => KeyLookup::Read(KeySource::DotEnvFile),
            KeySource::DotEnvFile => KeyLookup::Read(KeySource::ConfigFile),
            KeySource::ConfigFile => KeyLookup::Done(Err(CredentialError::NotConfigured)),
        },
    }
}

} // verus!

verus! {

impl KeySource {
    /// The debug notice sent when a key is taken from this place.
    pub fn notice(&self) -> (r: String)
        ensures
            r@ == match *self {
                KeySource::Environment => "Using API key from environment variable"@,
                KeySource::DotEnvFile => "Using API key from .env file"@,
                KeySource::ConfigFile => "Using API key from config file"@,
            },
    {
        match self {
            KeySource::Environment => String::from_str("Using API key from environment variable"),
            KeySource::DotEnvFile => String::from_str("Using API key from .env file"),
            KeySource::ConfigFile => String::from_str("Using API key from config file"),
        }
    }
}

/// What the front end is told when it asks whether a key is set: that it is,
/// without the key itself, or why it is not.
pub fn api_key_status(outcome: &Result<ResolvedKey, CredentialError>) -> (r: Result<
    String,
    String,
>)
    ensures
        outcome is Ok ==> (r matches Ok(m) && m@ == "API key is set"@),
        *outcome matches Err(e) ==> (r matches Err(m) && m@ == error_message(e)),
{
    match outcome {
        Ok(_) => Ok(String::from_str("API key is set")),
        Err(e) => Err(e.message()),
    }
}

} // verus!
