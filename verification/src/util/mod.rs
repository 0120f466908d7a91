//! Reading configuration from the values of environment variables.
pub mod backoff;
pub mod process;
pub mod text;
pub mod validate;

use vstd::prelude::*;

use crate::error::{view_result, Error, ErrorView};
use crate::util::text::{
    bool_rejection, parse_bool, parse_u32, parsed_bool, parsed_u32, same_text, u32_rejection,
};

verus! {

/// What reading one environment variable gave.
#[derive(Debug, Clone)]
pub enum EnvValue {
    /// The variable is not set.
    Missing,
    /// The variable is set but cannot be read; the reason says why.
    Unreadable(String),
    /// The variable is set to this text.
    Present(String),
}

/// A type that configuration text can be parsed into.
pub trait EnvText: Sized {
    /// The value that the text `s` denotes, if any.
    spec fn from_text(s: Seq<char>) -> Option<Self>;

    /// The message that explains why `s` was rejected.
    spec fn rejection(s: Seq<char>) -> Seq<char>;

    /// Parses `s`, or explains why it cannot be parsed.
    fn parse_text(s: &str) -> (r: Result<Self, String>)
        ensures
            match r {
                Ok(v) => Self::from_text(s@) == Some(v),
                Err(m) => Self::from_text(s@) is None && m@ == Self::rejection(s@),
            },
    ;
}

impl EnvText for u32 {
    open spec fn from_text(s: Seq<char>) -> Option<u32> {
        parsed_u32(s)
    }

    open spec fn rejection(s: Seq<char>) -> Seq<char> {
        u32_rejection(s)
    }

    fn parse_text(s: &str) -> (r: Result<u32, String>) {
        parse_u32(s)
    }
}

impl EnvText for bool {
    open spec fn from_text(s: Seq<char>) -> Option<bool> {
        parsed_bool(s)
    }

    open spec fn rejection(s: Seq<char>) -> Seq<char> {
        bool_rejection(s)
    }

    fn parse_text(s: &str) -> (r: Result<bool, String>) {
        parse_bool(s)
    }
}

/// The text of a variable, or `default` where it is unset or unreadable.
pub open spec fn env_or_spec(value: EnvValue, default: Seq<char>) -> Seq<char> {
    match value {
        EnvValue::Present(s) => s@,
        _ => default,
    }
}

/// Whether a set variable reads as true.
pub open spec fn truthy(s: Seq<char>) -> bool {
    s == "true"@ || s == "1"@ || s == "yes"@
}

/// The flag that a variable gives, or `default` where it is unset or unreadable.
pub open spec fn env_bool_spec(value: EnvValue, default: bool) -> bool {
    match value {
        EnvValue::Present(s) => truthy(s@),
        _ => default,
    }
}

/// The value that a variable gives under the key `key`, or the error.
pub open spec fn env_parse_spec<T: EnvText>(key: Seq<char>, value: EnvValue, default: T) -> Result<
    T,
    ErrorView,
> {
    match value {
        EnvValue::Missing => Ok(default),
        EnvValue::Unreadable(reason) => Err(ErrorView::EnvRead { key, reason: reason@ }),
        EnvValue::Present(s) => match T::from_text(s@) {
            Some(v) => Ok(v),
            None => Err(ErrorView::EnvParse { key, value: s@, reason: T::rejection(s@) }),
        },
    }
}

/// The text of a variable, or `default` where it cannot be had.
pub fn env_or(value: &EnvValue, default: &str) -> (r: String)
    ensures
        r@ == env_or_spec(*value, default@),
{
    match value {
        EnvValue::Present(s) => s.clone(),
        _ => default.to_owned(),
    }
}

/// A boolean variable (`true`, `1` or `yes` read as true, any other text as
/// false), or `default` where it cannot be had.
pub fn env_bool(value: &EnvValue, default: bool) -> (r: bool)
    ensures
        r == env_bool_spec(*value, default),
{
    match value {
        EnvValue::Present(s) => {
            proof {
                reveal_strlit("true");
                reveal_strlit("1");
                reveal_strlit("yes");
            }
            let v = s.as_str();
            same_text(v, "true") || same_text(v, "1") || same_text(v, "yes")
        },
        _ => default,
    }
}

/// Parse the value of the variable `key`, or return `default` where it is unset.
///
/// # Errors
///
/// Returns [`Error::EnvParse`] if the variable is set but cannot be parsed.
/// Returns [`Error::EnvRead`] if the variable cannot be read (e.g. invalid UTF-8).
pub fn env_parse<T: EnvText>(key: &str, value: &EnvValue, default: T) -> (r: Result<T, Error>)
    ensures
        view_result(r) == env_parse_spec(key@, *value, default),
{
    match value {
        EnvValue::Present(s) => match T::parse_text(s.as_str()) {
            Ok(v) => Ok(v),
            Err(reason) => Err(Error::EnvParse { key: key.to_owned(), value: s.clone(), reason }),
        },
        EnvValue::Missing => Ok(default),
        EnvValue::Unreadable(reason) => Err(
            Error::EnvRead { key: key.to_owned(), reason: reason.clone() },
        ),
    }
}

} // verus!
