//! Utility pieces: the lenient scalar-or-string integer rule used by a
//! card's HP field, and the image URL builders.

use crate::error::DecodeError;
use crate::json::JsonValue;
use crate::models::Extension;
use crate::models::Language;
use crate::models::Quality;
use crate::numbers::parse_i32;
use crate::numbers::parsed_i32;
use vstd::prelude::*;

verus! {

/// The lenient scalar-or-string integer rule: a text that fails to parse as
/// a decimal becomes "unset" rather than an error, while a numeric value
/// outside the signed 32-bit range is a hard error. This asymmetry is the
/// wire format's, and is kept exactly.
pub open spec fn spec_string_or_number_to_i32(v: JsonValue) -> Result<Option<i32>, DecodeError> {
    match v {
        JsonValue::Str(s) => Ok(parsed_i32(s@)),
        JsonValue::UInt(n) => if n <= i32::MAX as u64 {
            Ok(Option::Some(n as i32))
        } else {
            Err(DecodeError::OutOfRange)
        },
        JsonValue::Int(n) => if n >= i32::MIN as i64 {
            Ok(Option::Some(n as i32))
        } else {
            Err(DecodeError::OutOfRange)
        },
        _ => Err(DecodeError::Mismatch),
    }
}

/// Decode a wire value that could be either a text or a number into an
/// optional `i32`, leniently for unparseable text, strictly for numbers out
/// of range.
pub fn string_or_number_to_i32(v: &JsonValue) -> (r: Result<Option<i32>, DecodeError>)
    ensures
        r == spec_string_or_number_to_i32(*v),
{
    match v {
        JsonValue::Str(s) => Ok(parse_i32(s.as_str())),
        JsonValue::UInt(n) => if *n <= i32::MAX as u64 {
            Ok(Option::Some(*n as i32))
        } else {
            Err(DecodeError::OutOfRange)
        },
        JsonValue::Int(n) => if *n >= i32::MIN as i64 {
            Ok(Option::Some(*n as i32))
        } else {
            Err(DecodeError::OutOfRange)
        },
        _ => Err(DecodeError::Mismatch),
    }
}

/// Compose the base URL all endpoints of a client share: the host endpoint,
/// `/`, and the language's code.
pub fn compose_base_url(endpoint: &str, language: Language) -> (r: String)
    ensures
        r@ == endpoint@ + "/"@ + language.spec_code(),
{
    let mut url = String::from_str(endpoint);
    url.append("/");
    url.append(language.code());
    url
}

/// Build a full image URL from a base URL, a quality and an extension.
pub fn build_image_url(base_url: &str, quality: Quality, extension: Extension) -> (r: String)
    ensures
        r@ == base_url@ + "/"@ + quality.spec_code() + "."@ + extension.spec_code(),
{
    let mut url = String::from_str(base_url);
    url.append("/");
    url.append(quality.code());
    url.append(".");
    url.append(extension.code());
    url
}

/// Build a full image URL from a base URL and an extension (for logos and
/// symbols).
pub fn build_logo_url(base_url: &str, extension: Extension) -> (r: String)
    ensures
        r@ == base_url@ + "."@ + extension.spec_code(),
{
    let mut url = String::from_str(base_url);
    url.append(".");
    url.append(extension.code());
    url
}

} // verus!
