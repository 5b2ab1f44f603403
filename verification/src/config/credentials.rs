//! API-key lookup. Priority: OS credential store > environment variable >
//! config file. Keys are never logged.

use crate::text::{is_blank, owned, push_str, str_is_blank};
use vstd::prelude::*;

verus! {

#[derive(Debug, PartialEq, Eq)]
pub enum CredentialError {
    Unavailable(String),
}

impl Clone for CredentialError {
    fn clone(&self) -> (r: Self)
        ensures
            r == *self,
    {
        match self {
            CredentialError::Unavailable(s) => CredentialError::Unavailable(s.clone()),
        }
    }
}

/// The text shown for a [`CredentialError`].
pub open spec fn credential_error_text(e: CredentialError) -> Seq<char> {
    match e {
        CredentialError::Unavailable(s) => "credential store unavailable: "@ + s@,
    }
}

impl CredentialError {
    pub fn message(&self) -> (r: String)
        ensures
            r@ == credential_error_text(*self),
    {
        match self {
            CredentialError::Unavailable(s) => {
                let mut r = owned("credential store unavailable: ");
                push_str(&mut r, s.as_str());
                r
            },
        }
    }
}

/// Service / account names under which the key is stored.
pub const SERVICE: &'static str = "voice_input";

pub const OPENAI_ACCOUNT: &'static str = "openai_api_key";

pub const OPENAI_ENV_VAR: &'static str = "OPENAI_API_KEY";

/// A store of secrets by account name.
pub trait CredentialStore {
    /// Whether the store may answer `answer` when asked for `account`: the
    /// secret, if one is stored, or the text of the error it fails with. A
    /// store backed by the operating system may answer differently over time.
    spec fn answers(&self, account: Seq<char>, answer: Result<Option<Seq<char>>, Seq<char>>) -> bool;

    fn get(&self, account: &str) -> (r: Result<Option<String>, CredentialError>)
        ensures
            self.answers(account@, answer_view(r)),
    ;

    fn set(&mut self, account: &str, secret: &str) -> Result<(), CredentialError>;

    fn delete(&mut self, account: &str) -> Result<(), CredentialError>;
}

/// A store's answer with its strings taken as text.
pub open spec fn answer_view(r: Result<Option<String>, CredentialError>) -> Result<
    Option<Seq<char>>,
    Seq<char>,
> {
    match r {
        Ok(Some(k)) => Ok(Some(k@)),
        Ok(None) => Ok(None),
        Err(e) => Err(credential_error_text(e)),
    }
}

/// The key the store answered with, when it answered with a non-blank one.
pub open spec fn stored_key(stored: Result<Option<Seq<char>>, Seq<char>>) -> Option<Seq<char>> {
    match stored {
        Ok(Some(k)) => if is_blank(k) {
            None
        } else {
            Some(k)
        },
        _ => None,
    }
}

/// The first non-blank key in priority order: the store's answer (a failing
/// store counts as no key), then the environment variable, then the config
/// file.
pub open spec fn chosen_key(
    stored: Result<Option<Seq<char>>, Seq<char>>,
    env_value: Option<String>,
    config_value: Option<Seq<char>>,
) -> Option<Seq<char>> {
    if stored_key(stored) is Some {
        stored_key(stored)
    } else if env_value matches Some(e) && !is_blank(e@) {
        Some(env_value->0@)
    } else if config_value matches Some(c) && !is_blank(c) {
        config_value
    } else {
        None
    }
}

pub open spec fn opt_view(v: Option<String>) -> Option<Seq<char>> {
    match v {
        Some(s) => Some(s@),
        None => None,
    }
}

pub open spec fn opt_str_view(v: Option<&str>) -> Option<Seq<char>> {
    match v {
        Some(s) => Some(s@),
        None => None,
    }
}

fn usable(stored: &Result<Option<String>, CredentialError>) -> (r: bool)
    ensures
        r == (stored_key(answer_view(*stored)) is Some),
{
    match stored {
        Ok(Some(k)) => !str_is_blank(k.as_str()),
        _ => false,
    }
}

/// Picks the first non-blank key in priority order from the three sources'
/// answers.
pub fn choose_api_key(
    stored: Result<Option<String>, CredentialError>,
    env_value: Option<String>,
    config_value: Option<&str>,
) -> (r: Option<String>)
    ensures
        opt_view(r) == chosen_key(answer_view(stored), env_value, opt_str_view(config_value)),
{
    let ghost s0 = stored;
    if usable(&stored) {
        match stored {
            Ok(Some(k)) => {
                return Some(k);
            },
            _ => {
                return None;
            },
        }
    }
    match env_value {
        Some(e) => {
            if !str_is_blank(e.as_str()) {
                return Some(e);
            }
        },
        None => {},
    }
    match config_value {
        Some(c) => {
            if !str_is_blank(c) {
                return Some(owned(c));
            }
        },
        None => {},
    }
    None
}

/// Picks the first non-blank key in priority order: the credential store,
/// then the environment variable `OPENAI_API_KEY` (read through `env`), then
/// the config file's value. A failing store is skipped, never fatal; the
/// environment is only read when the store has no key.
pub fn resolve_api_key<S: CredentialStore, E: Fn(&str) -> Option<String>>(
    store: &S,
    env: E,
    config_value: Option<&str>,
) -> (r: Option<String>)
    requires
        env.requires((OPENAI_ENV_VAR,)),
    ensures
        exists|stored: Result<Option<Seq<char>>, Seq<char>>, env_value: Option<String>|
            {
                &&& store.answers(OPENAI_ACCOUNT@, stored)
                &&& stored_key(stored) is None ==> call_ensures(env, (OPENAI_ENV_VAR,), env_value)
                &&& opt_view(r) == chosen_key(stored, env_value, opt_str_view(config_value))
            },
{
    let stored = store.get(OPENAI_ACCOUNT);
    let env_value = if usable(&stored) {
        None
    } else {
        env(OPENAI_ENV_VAR)
    };
    let ghost s0 = stored;
    let ghost e0 = env_value;
    let r = choose_api_key(stored, env_value, config_value);
    assert(opt_view(r) == chosen_key(answer_view(s0), e0, opt_str_view(config_value)));
    r
}

} // verus!
