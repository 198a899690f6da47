//! Key normalization: from the native build's mixed-case identifiers to
//! SCREAMING_SNAKE_CASE, and the test that the result can name a constant.

use crate::error::{result_view, ConfigError, ConfigErrorView};
use crate::text::{chars_of, is_ascii_digit};
use vstd::prelude::*;
use vstd::string::*;

verus! {

/// The SHOUTY_SNAKE_CASE form that the `heck` crate gives a string.
pub uninterp spec fn shouty_snake_case(s: Seq<char>) -> Seq<char>;

/// Whether a character has the Unicode `Uppercase` property, as the standard
/// library decides it.
pub uninterp spec fn is_uppercase(c: char) -> bool;

/// Calls `heck::ShoutySnakeCase::to_shouty_snake_case` on a string slice. The
/// conversion reads nothing but its argument, so its result is named by
/// [`shouty_snake_case`]; nothing else is claimed of it.
#[verifier::external_body]
pub(crate) fn to_shouty_snake_case(s: &str) -> (r: String)
    ensures
        r@ == shouty_snake_case(s@),
{
    heck::ShoutySnakeCase::to_shouty_snake_case(s)
}

/// Calls `char::is_uppercase`. The answer depends on the character alone and
/// is named by [`is_uppercase`]; nothing else is claimed of it.
#[verifier::external_body]
fn char_is_uppercase(c: char) -> (r: bool)
    ensures
        r == is_uppercase(c),
{
    c.is_uppercase()
}

/// The characters that the name of a generated constant may hold.
pub open spec fn is_identifier_char(c: char) -> bool {
    is_uppercase(c) || is_ascii_digit(c) || c == '_'
}

/// `s` consists solely of uppercase letters, digits and underscores.
pub open spec fn is_constant_identifier(s: Seq<char>) -> bool {
    forall|i: int| 0 <= i < s.len() ==> is_identifier_char(#[trigger] s[i])
}

/// The normalized form of a key if it can name a constant, and else the error
/// that names the key as the cache wrote it.
pub open spec fn identifier_or_error(raw: Seq<char>, normalized: Seq<char>) -> Result<
    Seq<char>,
    ConfigErrorView,
> {
    if is_constant_identifier(normalized) {
        Ok(normalized)
    } else {
        Err(ConfigErrorView::InvalidGeneratedIdentifier { key: raw })
    }
}

/// The name that a cache key gives its constant.
pub open spec fn normalized_key(raw: Seq<char>) -> Result<Seq<char>, ConfigErrorView> {
    identifier_or_error(raw, shouty_snake_case(raw))
}

/// Whether `s` consists solely of uppercase letters, digits and underscores.
pub fn is_identifier(s: &str) -> (r: bool)
    ensures
        r == is_constant_identifier(s@),
{
    let chars = chars_of(s);
    let mut i: usize = 0;
    while i < chars.len()
        invariant
            i <= chars@.len(),
            chars@ == s@,
            forall|k: int| 0 <= k < i ==> is_identifier_char(#[trigger] chars@[k]),
        decreases chars@.len() - i,
    {
        let c = chars[i];
        if !(char_is_uppercase(c) || (c >= '0' && c <= '9') || c == '_') {
            proof {
                assert(!is_identifier_char(s@[i as int]));
            }
            return false;
        }
        i = i + 1;
    }
    true
}

/// Accepts the normalized form of a key as the name of a constant, or rejects
/// the key.
pub fn accept_identifier(raw: &str, normalized: String) -> (r: Result<String, ConfigError>)
    ensures
        result_view(r) == identifier_or_error(raw@, normalized@),
{
    if is_identifier(normalized.as_str()) {
        Ok(normalized)
    } else {
        Err(ConfigError::InvalidGeneratedIdentifier { key: String::from_str(raw) })
    }
}

/// Normalizes a cache key to SCREAMING_SNAKE_CASE and makes sure that the
/// result can name a constant.
pub fn normalize_key(raw: &str) -> (r: Result<String, ConfigError>)
    ensures
        result_view(r) == normalized_key(raw@),
{
    accept_identifier(raw, to_shouty_snake_case(raw))
}

} // verus!
