//! The crate's model of a JSON document, the trusted parse into it, and
//! helpers for reading fields out of a decoded object.

use crate::error::DecodeError;
use vstd::prelude::*;

verus! {

/// A JSON document as the decoders see it. Numbers keep their exact integer
/// value where they have one; any other number is only marked as floating
/// point, since every field decoder rejects such a value.
#[derive(Debug)]
pub enum JsonValue {
    /// A JSON `null`.
    Null,
    /// A JSON boolean.
    Bool(bool),
    /// An integer number representable as `u64`.
    UInt(u64),
    /// A negative integer number representable as `i64`.
    Int(i64),
    /// A number that is neither: its value is not carried.
    Float,
    /// A JSON string.
    Str(String),
    /// A JSON array, in document order.
    Arr(Vec<JsonValue>),
    /// A JSON object as a key/value list, duplicates kept.
    Obj(Vec<(String, JsonValue)>),
}

#[verifier::external_type_specification]
#[verifier::external_body]
pub struct ExValue(serde_json::Value);

/// The parse outcome `serde_json` assigns to a byte sequence: `None` exactly
/// where the bytes are not one well-formed JSON document. Parsing depends on
/// the bytes alone, so the outcome carries a name here.
pub uninterp spec fn json_doc(bytes: Seq<u8>) -> Option<JsonValue>;

/// The wire value a parsed `serde_json::Value` holds: what the value is,
/// read as the crate's model, depending on the value alone (object fields
/// come out in the order the value's sorted map iterates them, which is
/// deterministic for a given value).
pub uninterp spec fn json_content(v: serde_json::Value) -> JsonValue;

/// Relies on `serde_json::from_slice::<serde_json::Value>`: parses bytes as
/// one JSON document, returning `None` exactly where they are not one; the
/// parse outcome is a function of the bytes alone.
#[verifier::external_body]
fn parse_value(bytes: &[u8]) -> (r: Option<serde_json::Value>)
    ensures
        r is Some <==> json_doc(bytes@) is Some,
        r is Some ==> json_content(r->0) == json_doc(bytes@)->0,
{
    serde_json::from_slice::<serde_json::Value>(bytes).ok()
}

/// Relies on `serde_json::Value`: reads the value it holds into the crate's
/// wire model, one arm per variant; a number becomes its `u64` or `i64`
/// value, or the bare floating-point marker where it has neither.
#[verifier::external_body]
fn content_of(v: serde_json::Value) -> (r: JsonValue)
    ensures
        r == json_content(v),
{
    match v {
        serde_json::Value::Null => JsonValue::Null,
        serde_json::Value::Bool(b) => JsonValue::Bool(b),
        serde_json::Value::Number(n) => match (n.as_u64(), n.as_i64()) {
            (Some(u), _) => JsonValue::UInt(u),
            (None, Some(i)) => JsonValue::Int(i),
            _ => JsonValue::Float,
        },
        serde_json::Value::String(s) => JsonValue::Str(s),
        serde_json::Value::Array(a) => JsonValue::Arr(a.into_iter().map(content_of).collect()),
        serde_json::Value::Object(m) => JsonValue::Obj(
            m.into_iter().map(|(k, x)| (k, content_of(x))).collect(),
        ),
    }
}

/// Parse a response body into the crate's wire model. Returns `None` exactly
/// where the bytes are not one well-formed JSON document.
pub fn parse_json(bytes: &[u8]) -> (r: Option<JsonValue>)
    ensures
        r == json_doc(bytes@),
{
    match parse_value(bytes) {
        Some(v) => Some(content_of(v)),
        None => None,
    }
}

/// The first value bound to `key` among an object's fields.
pub open spec fn spec_lookup(fields: Seq<(String, JsonValue)>, key: Seq<char>) -> Option<
    JsonValue,
>
    decreases fields.len(),
{
    if fields.len() == 0 {
        None
    } else if fields[0].0@ == key {
        Some(fields[0].1)
    } else {
        spec_lookup(fields.drop_first(), key)
    }
}

/// Find the first field named `key`.
pub fn get_field<'a>(fields: &'a Vec<(String, JsonValue)>, key: &str) -> (r: Option<
    &'a JsonValue,
>)
    ensures
        match r {
            Some(v) => spec_lookup(fields@, key@) == Some(*v),
            None => spec_lookup(fields@, key@) is None,
        },
{
    let k = String::from_str(key);
    let mut i: usize = 0;
    proof {
        assert(fields@.skip(0) =~= fields@);
    }
    while i < fields.len()
        invariant
            i <= fields@.len(),
            k@ == key@,
            spec_lookup(fields@, key@) == spec_lookup(fields@.skip(i as int), key@),
        decreases fields@.len() - i,
    {
        proof {
            assert(fields@.skip(i as int)[0] == fields@[i as int]);
            assert(fields@.skip(i as int).drop_first() =~= fields@.skip(i as int + 1));
        }
        if fields[i].0 == k {
            return Some(&fields[i].1);
        }
        i += 1;
    }
    proof {
        assert(fields@.skip(fields@.len() as int) =~= Seq::<(String, JsonValue)>::empty());
    }
    None
}

/// A required string field: missing is an error, as is any non-string value.
pub open spec fn spec_req_str(fields: Seq<(String, JsonValue)>, key: Seq<char>) -> Result<
    Seq<char>,
    DecodeError,
> {
    match spec_lookup(fields, key) {
        Option::None => Err(DecodeError::MissingField),
        Option::Some(v) => match v {
            JsonValue::Str(s) => Ok(s@),
            _ => Err(DecodeError::Mismatch),
        },
    }
}

/// Read a required string field.
pub fn req_str(fields: &Vec<(String, JsonValue)>, key: &str) -> (r: Result<String, DecodeError>)
    ensures
        (r is Ok <==> spec_req_str(fields@, key@) is Ok),
        r is Ok ==> r->Ok_0@ == spec_req_str(fields@, key@)->Ok_0,
        r is Err ==> r->Err_0 == spec_req_str(fields@, key@)->Err_0,
{
    match get_field(fields, key) {
        Option::None => Err(DecodeError::MissingField),
        Option::Some(v) => match v {
            JsonValue::Str(s) => Ok(s.clone()),
            _ => Err(DecodeError::Mismatch),
        },
    }
}

/// An optional string field: missing or `null` is `None`, any other
/// non-string value is an error.
pub open spec fn spec_opt_str(fields: Seq<(String, JsonValue)>, key: Seq<char>) -> Result<
    Option<Seq<char>>,
    DecodeError,
> {
    match spec_lookup(fields, key) {
        Option::None => Ok(Option::None),
        Option::Some(v) => match v {
            JsonValue::Null => Ok(Option::None),
            JsonValue::Str(s) => Ok(Option::Some(s@)),
            _ => Err(DecodeError::Mismatch),
        },
    }
}

/// Read an optional string field.
pub fn opt_str(fields: &Vec<(String, JsonValue)>, key: &str) -> (r: Result<
    Option<String>,
    DecodeError,
>)
    ensures
        (r is Ok <==> spec_opt_str(fields@, key@) is Ok),
        r is Ok ==> r->Ok_0.deep_view() == spec_opt_str(fields@, key@)->Ok_0,
        r is Err ==> r->Err_0 == spec_opt_str(fields@, key@)->Err_0,
{
    match get_field(fields, key) {
        Option::None => Ok(Option::None),
        Option::Some(v) => match v {
            JsonValue::Null => Ok(Option::None),
            JsonValue::Str(s) => Ok(Option::Some(s.clone())),
            _ => Err(DecodeError::Mismatch),
        },
    }
}

/// A `u16` read from a wire value: an integer within range; a number out of
/// range is a range error, anything else a mismatch.
pub open spec fn spec_u16_of(v: JsonValue) -> Result<u16, DecodeError> {
    match v {
        JsonValue::UInt(n) => if n <= u16::MAX as u64 {
            Ok(n as u16)
        } else {
            Err(DecodeError::OutOfRange)
        },
        JsonValue::Int(_) => Err(DecodeError::OutOfRange),
        _ => Err(DecodeError::Mismatch),
    }
}

/// Read a `u16` out of a wire value.
pub fn u16_of(v: &JsonValue) -> (r: Result<u16, DecodeError>)
    ensures
        r == spec_u16_of(*v),
{
    match v {
        JsonValue::UInt(n) => if *n <= u16::MAX as u64 {
            Ok(*n as u16)
        } else {
            Err(DecodeError::OutOfRange)
        },
        JsonValue::Int(_) => Err(DecodeError::OutOfRange),
        _ => Err(DecodeError::Mismatch),
    }
}

/// A `u32` read from a wire value, with the same policy as for `u16`.
pub open spec fn spec_u32_of(v: JsonValue) -> Result<u32, DecodeError> {
    match v {
        JsonValue::UInt(n) => if n <= u32::MAX as u64 {
            Ok(n as u32)
        } else {
            Err(DecodeError::OutOfRange)
        },
        JsonValue::Int(_) => Err(DecodeError::OutOfRange),
        _ => Err(DecodeError::Mismatch),
    }
}

/// Read a `u32` out of a wire value.
pub fn u32_of(v: &JsonValue) -> (r: Result<u32, DecodeError>)
    ensures
        r == spec_u32_of(*v),
{
    match v {
        JsonValue::UInt(n) => if *n <= u32::MAX as u64 {
            Ok(*n as u32)
        } else {
            Err(DecodeError::OutOfRange)
        },
        JsonValue::Int(_) => Err(DecodeError::OutOfRange),
        _ => Err(DecodeError::Mismatch),
    }
}

/// An `i32` read from a wire value, with the same policy as for `u16`.
pub open spec fn spec_i32_of(v: JsonValue) -> Result<i32, DecodeError> {
    match v {
        JsonValue::UInt(n) => if n <= i32::MAX as u64 {
            Ok(n as i32)
        } else {
            Err(DecodeError::OutOfRange)
        },
        JsonValue::Int(n) => if n >= i32::MIN as i64 {
            Ok(n as i32)
        } else {
            Err(DecodeError::OutOfRange)
        },
        _ => Err(DecodeError::Mismatch),
    }
}

/// Read an `i32` out of a wire value.
pub fn i32_of(v: &JsonValue) -> (r: Result<i32, DecodeError>)
    ensures
        r == spec_i32_of(*v),
{
    match v {
        JsonValue::UInt(n) => if *n <= i32::MAX as u64 {
            Ok(*n as i32)
        } else {
            Err(DecodeError::OutOfRange)
        },
        JsonValue::Int(n) => if *n >= i32::MIN as i64 {
            Ok(*n as i32)
        } else {
            Err(DecodeError::OutOfRange)
        },
        _ => Err(DecodeError::Mismatch),
    }
}

/// A required `u16` field.
pub open spec fn spec_req_u16(fields: Seq<(String, JsonValue)>, key: Seq<char>) -> Result<
    u16,
    DecodeError,
> {
    match spec_lookup(fields, key) {
        Option::None => Err(DecodeError::MissingField),
        Option::Some(v) => spec_u16_of(v),
    }
}

/// Read a required `u16` field.
pub fn req_u16(fields: &Vec<(String, JsonValue)>, key: &str) -> (r: Result<u16, DecodeError>)
    ensures
        r == spec_req_u16(fields@, key@),
{
    match get_field(fields, key) {
        Option::None => Err(DecodeError::MissingField),
        Option::Some(v) => u16_of(v),
    }
}

/// An optional `u16` field: missing or `null` is `None`.
pub open spec fn spec_opt_u16(fields: Seq<(String, JsonValue)>, key: Seq<char>) -> Result<
    Option<u16>,
    DecodeError,
> {
    match spec_lookup(fields, key) {
        Option::None => Ok(Option::None),
        Option::Some(v) => match v {
            JsonValue::Null => Ok(Option::None),
            _ => match spec_u16_of(v) {
                Ok(n) => Ok(Option::Some(n)),
                Err(e) => Err(e),
            },
        },
    }
}

/// Read an optional `u16` field.
pub fn opt_u16(fields: &Vec<(String, JsonValue)>, key: &str) -> (r: Result<
    Option<u16>,
    DecodeError,
>)
    ensures
        r == spec_opt_u16(fields@, key@),
{
    match get_field(fields, key) {
        Option::None => Ok(Option::None),
        Option::Some(v) => match v {
            JsonValue::Null => Ok(Option::None),
            _ => match u16_of(v) {
                Ok(n) => Ok(Option::Some(n)),
                Err(e) => Err(e),
            },
        },
    }
}

/// An optional `i32` field: missing or `null` is `None`.
pub open spec fn spec_opt_i32(fields: Seq<(String, JsonValue)>, key: Seq<char>) -> Result<
    Option<i32>,
    DecodeError,
> {
    match spec_lookup(fields, key) {
        Option::None => Ok(Option::None),
        Option::Some(v) => match v {
            JsonValue::Null => Ok(Option::None),
            _ => match spec_i32_of(v) {
                Ok(n) => Ok(Option::Some(n)),
                Err(e) => Err(e),
            },
        },
    }
}

/// Read an optional `i32` field.
pub fn opt_i32(fields: &Vec<(String, JsonValue)>, key: &str) -> (r: Result<
    Option<i32>,
    DecodeError,
>)
    ensures
        r == spec_opt_i32(fields@, key@),
{
    match get_field(fields, key) {
        Option::None => Ok(Option::None),
        Option::Some(v) => match v {
            JsonValue::Null => Ok(Option::None),
            _ => match i32_of(v) {
                Ok(n) => Ok(Option::Some(n)),
                Err(e) => Err(e),
            },
        },
    }
}

/// Element-by-element read of an array of strings, order preserved.
pub open spec fn spec_str_items(items: Seq<JsonValue>) -> Result<Seq<Seq<char>>, DecodeError>
    decreases items.len(),
{
    if items.len() == 0 {
        Ok(Seq::<Seq<char>>::empty())
    } else {
        match spec_str_items(items.drop_last()) {
            Ok(pre) => match items.last() {
                JsonValue::Str(s) => Ok(pre.push(s@)),
                _ => Err(DecodeError::Mismatch),
            },
            Err(e) => Err(e),
        }
    }
}

/// Read every item of an array as a string, in order.
pub fn str_items(items: &Vec<JsonValue>) -> (r: Result<Vec<String>, DecodeError>)
    ensures
        (r is Ok <==> spec_str_items(items@) is Ok),
        r is Ok ==> r->Ok_0.deep_view() == spec_str_items(items@)->Ok_0,
        r is Err ==> r->Err_0 == spec_str_items(items@)->Err_0,
{
    let mut out: Vec<String> = Vec::new();
    let mut i: usize = 0;
    proof {
        assert(items@.take(0) =~= Seq::<JsonValue>::empty());
        assert(out.deep_view() =~= Seq::<Seq<char>>::empty());
    }
    while i < items.len()
        invariant
            i <= items@.len(),
            spec_str_items(items@.take(i as int)) is Ok,
            out.deep_view() == spec_str_items(items@.take(i as int))->Ok_0,
        decreases items@.len() - i,
    {
        let ghost pre = out.deep_view();
        proof {
            assert(items@.take(i as int + 1).drop_last() =~= items@.take(i as int));
            assert(items@.take(i as int + 1).last() == items@[i as int]);
        }
        match &items[i] {
            JsonValue::Str(s) => {
                out.push(s.clone());
                proof {
                    assert(out.deep_view() =~= pre.push(out@[out@.len() - 1].deep_view()));
                }
            },
            _ => {
                proof {
                    lemma_str_items_error(items@, i as int);
                }
                return Err(DecodeError::Mismatch);
            },
        }
        i += 1;
    }
    proof {
        assert(items@.take(items@.len() as int) =~= items@);
    }
    Ok(out)
}

/// If a prefix reads as strings and the next item is no string, the whole
/// array fails with a mismatch.
proof fn lemma_str_items_error(items: Seq<JsonValue>, i: int)
    requires
        0 <= i < items.len(),
        spec_str_items(items.take(i)) is Ok,
        !(items[i] is Str),
    ensures
        spec_str_items(items) == Result::<Seq<Seq<char>>, DecodeError>::Err(DecodeError::Mismatch),
    decreases items.len() - i,
{
    assert(items.take(i + 1).drop_last() =~= items.take(i));
    assert(items.take(i + 1).last() == items[i]);
    if i + 1 == items.len() {
        assert(items.take(i + 1) =~= items);
    } else {
        lemma_str_items_error_carries(items, i + 1);
    }
}

/// A failing prefix makes the whole string-array read fail the same way.
proof fn lemma_str_items_error_carries(items: Seq<JsonValue>, i: int)
    requires
        0 < i <= items.len(),
        spec_str_items(items.take(i)) == Result::<Seq<Seq<char>>, DecodeError>::Err(
            DecodeError::Mismatch,
        ),
    ensures
        spec_str_items(items) == Result::<Seq<Seq<char>>, DecodeError>::Err(DecodeError::Mismatch),
    decreases items.len() - i,
{
    if i == items.len() {
        assert(items.take(i) =~= items);
    } else {
        assert(items.take(i + 1).drop_last() =~= items.take(i));
        lemma_str_items_error_carries(items, i + 1);
    }
}

/// An optional field holding an array of strings: missing or `null` is
/// `None`, a non-array or an array with a non-string item is an error.
pub open spec fn spec_opt_str_vec(fields: Seq<(String, JsonValue)>, key: Seq<char>) -> Result<
    Option<Seq<Seq<char>>>,
    DecodeError,
> {
    match spec_lookup(fields, key) {
        Option::None => Ok(Option::None),
        Option::Some(v) => match v {
            JsonValue::Null => Ok(Option::None),
            JsonValue::Arr(items) => match spec_str_items(items@) {
                Ok(xs) => Ok(Option::Some(xs)),
                Err(e) => Err(e),
            },
            _ => Err(DecodeError::Mismatch),
        },
    }
}

/// Read an optional array-of-strings field.
pub fn opt_str_vec(fields: &Vec<(String, JsonValue)>, key: &str) -> (r: Result<
    Option<Vec<String>>,
    DecodeError,
>)
    ensures
        (r is Ok <==> spec_opt_str_vec(fields@, key@) is Ok),
        r is Ok ==> r->Ok_0.deep_view() == spec_opt_str_vec(fields@, key@)->Ok_0,
        r is Err ==> r->Err_0 == spec_opt_str_vec(fields@, key@)->Err_0,
{
    match get_field(fields, key) {
        Option::None => Ok(Option::None),
        Option::Some(v) => match v {
            JsonValue::Null => Ok(Option::None),
            JsonValue::Arr(items) => match str_items(items) {
                Ok(xs) => Ok(Option::Some(xs)),
                Err(e) => Err(e),
            },
            _ => Err(DecodeError::Mismatch),
        },
    }
}

/// Element-by-element read of an array of `i32`, order preserved.
pub open spec fn spec_i32_items(items: Seq<JsonValue>) -> Result<Seq<i32>, DecodeError>
    decreases items.len(),
{
    if items.len() == 0 {
        Ok(Seq::<i32>::empty())
    } else {
        match spec_i32_items(items.drop_last()) {
            Ok(pre) => match spec_i32_of(items.last()) {
                Ok(n) => Ok(pre.push(n)),
                Err(e) => Err(e),
            },
            Err(e) => Err(e),
        }
    }
}

/// Read every item of an array as an `i32`, in order.
pub fn i32_items(items: &Vec<JsonValue>) -> (r: Result<Vec<i32>, DecodeError>)
    ensures
        (r is Ok <==> spec_i32_items(items@) is Ok),
        r is Ok ==> r->Ok_0.deep_view() == spec_i32_items(items@)->Ok_0,
        r is Err ==> r->Err_0 == spec_i32_items(items@)->Err_0,
{
    let mut out: Vec<i32> = Vec::new();
    let mut i: usize = 0;
    proof {
        assert(items@.take(0) =~= Seq::<JsonValue>::empty());
        assert(out.deep_view() =~= Seq::<i32>::empty());
    }
    while i < items.len()
        invariant
            i <= items@.len(),
            spec_i32_items(items@.take(i as int)) is Ok,
            out.deep_view() == spec_i32_items(items@.take(i as int))->Ok_0,
        decreases items@.len() - i,
    {
        let ghost pre = out.deep_view();
        proof {
            assert(items@.take(i as int + 1).drop_last() =~= items@.take(i as int));
            assert(items@.take(i as int + 1).last() == items@[i as int]);
        }
        match i32_of(&items[i]) {
            Ok(n) => {
                out.push(n);
                proof {
                    assert(out.deep_view() =~= pre.push(n));
                }
            },
            Err(e) => {
                proof {
                    lemma_i32_items_error(items@, i as int, e);
                }
                return Err(e);
            },
        }
        i += 1;
    }
    proof {
        assert(items@.take(items@.len() as int) =~= items@);
    }
    Ok(out)
}

/// If a prefix reads as `i32` and the next item fails, the whole array fails
/// with that item's error.
proof fn lemma_i32_items_error(items: Seq<JsonValue>, i: int, e: DecodeError)
    requires
        0 <= i < items.len(),
        spec_i32_items(items.take(i)) is Ok,
        spec_i32_of(items[i]) == Result::<i32, DecodeError>::Err(e),
    ensures
        spec_i32_items(items) == Result::<Seq<i32>, DecodeError>::Err(e),
    decreases items.len() - i,
{
    assert(items.take(i + 1).drop_last() =~= items.take(i));
    assert(items.take(i + 1).last() == items[i]);
    if i + 1 == items.len() {
        assert(items.take(i + 1) =~= items);
    } else {
        lemma_i32_items_error_carries(items, i + 1, e);
    }
}

/// A failing prefix makes the whole `i32`-array read fail the same way.
proof fn lemma_i32_items_error_carries(items: Seq<JsonValue>, i: int, e: DecodeError)
    requires
        0 < i <= items.len(),
        spec_i32_items(items.take(i)) == Result::<Seq<i32>, DecodeError>::Err(e),
    ensures
        spec_i32_items(items) == Result::<Seq<i32>, DecodeError>::Err(e),
    decreases items.len() - i,
{
    if i == items.len() {
        assert(items.take(i) =~= items);
    } else {
        assert(items.take(i + 1).drop_last() =~= items.take(i));
        lemma_i32_items_error_carries(items, i + 1, e);
    }
}

/// An optional field holding an array of `i32`: missing or `null` is `None`.
pub open spec fn spec_opt_i32_vec(fields: Seq<(String, JsonValue)>, key: Seq<char>) -> Result<
    Option<Seq<i32>>,
    DecodeError,
> {
    match spec_lookup(fields, key) {
        Option::None => Ok(Option::None),
        Option::Some(v) => match v {
            JsonValue::Null => Ok(Option::None),
            JsonValue::Arr(items) => match spec_i32_items(items@) {
                Ok(xs) => Ok(Option::Some(xs)),
                Err(e) => Err(e),
            },
            _ => Err(DecodeError::Mismatch),
        },
    }
}

/// Read an optional array-of-`i32` field.
pub fn opt_i32_vec(fields: &Vec<(String, JsonValue)>, key: &str) -> (r: Result<
    Option<Vec<i32>>,
    DecodeError,
>)
    ensures
        (r is Ok <==> spec_opt_i32_vec(fields@, key@) is Ok),
        r is Ok ==> r->Ok_0.deep_view() == spec_opt_i32_vec(fields@, key@)->Ok_0,
        r is Err ==> r->Err_0 == spec_opt_i32_vec(fields@, key@)->Err_0,
{
    match get_field(fields, key) {
        Option::None => Ok(Option::None),
        Option::Some(v) => match v {
            JsonValue::Null => Ok(Option::None),
            JsonValue::Arr(items) => match i32_items(items) {
                Ok(xs) => Ok(Option::Some(xs)),
                Err(e) => Err(e),
            },
            _ => Err(DecodeError::Mismatch),
        },
    }
}

/// A required boolean field.
pub open spec fn spec_req_bool(fields: Seq<(String, JsonValue)>, key: Seq<char>) -> Result<
    bool,
    DecodeError,
> {
    match spec_lookup(fields, key) {
        Option::None => Err(DecodeError::MissingField),
        Option::Some(v) => match v {
            JsonValue::Bool(b) => Ok(b),
            _ => Err(DecodeError::Mismatch),
        },
    }
}

/// Read a required boolean field.
pub fn req_bool(fields: &Vec<(String, JsonValue)>, key: &str) -> (r: Result<bool, DecodeError>)
    ensures
        r == spec_req_bool(fields@, key@),
{
    match get_field(fields, key) {
        Option::None => Err(DecodeError::MissingField),
        Option::Some(v) => match v {
            JsonValue::Bool(b) => Ok(*b),
            _ => Err(DecodeError::Mismatch),
        },
    }
}

} // verus!
