//! The generic resource endpoint: URL composition for its two operations,
//! and the turning of a raw response (status code and body bytes) into a
//! typed result.
//!
//! The endpoint performs no transport itself. The embedding application
//! issues the GET for a URL this module composed, and hands the status and
//! body back to `decode_get` / `decode_list`.

use crate::encoding::append_space_escaped;
use crate::encoding::space_escaped;
use crate::error::DecodeError;
use crate::error::Error;
use crate::json::json_doc;
use crate::json::parse_json;
use crate::json::JsonValue;
use crate::query::rendered;
use crate::query::Query;
use core::marker::PhantomData;
use vstd::prelude::*;

verus! {

/// The capability an endpoint requires of its response shapes: a decode from
/// the wire model, pinned to a decode function on wire values.
pub trait FromJson: DeepView + Sized {
    /// The decode this shape performs, as a function on wire values.
    spec fn spec_from_json(v: JsonValue) -> Result<Self::V, DecodeError>;

    /// Decode one wire value into this shape.
    fn from_json(v: &JsonValue) -> (r: Result<Self, DecodeError>)
        ensures
            (r is Ok <==> Self::spec_from_json(*v) is Ok),
            r is Ok ==> r->Ok_0.deep_view() == Self::spec_from_json(*v)->Ok_0,
            r is Err ==> r->Err_0 == Self::spec_from_json(*v)->Err_0,
    ;
}

/// Element-by-element decode of an array's items, order preserved, first
/// error kept.
pub open spec fn spec_items_from_json<T: FromJson>(items: Seq<JsonValue>) -> Result<
    Seq<T::V>,
    DecodeError,
>
    decreases items.len(),
{
    if items.len() == 0 {
        Ok(Seq::<T::V>::empty())
    } else {
        match spec_items_from_json::<T>(items.drop_last()) {
            Ok(pre) => match T::spec_from_json(items.last()) {
                Ok(x) => Ok(pre.push(x)),
                Err(e) => Err(e),
            },
            Err(e) => Err(e),
        }
    }
}

/// Decode every item of an array, in order, failing on the first bad item.
pub fn items_from_json<T: FromJson>(items: &Vec<JsonValue>) -> (r: Result<Vec<T>, DecodeError>)
    ensures
        (r is Ok <==> spec_items_from_json::<T>(items@) is Ok),
        r is Ok ==> r->Ok_0.deep_view() == spec_items_from_json::<T>(items@)->Ok_0,
        r is Err ==> r->Err_0 == spec_items_from_json::<T>(items@)->Err_0,
{
    let mut out: Vec<T> = Vec::new();
    let mut i: usize = 0;
    proof {
        assert(items@.take(0) =~= Seq::<JsonValue>::empty());
        assert(out.deep_view() =~= Seq::<T::V>::empty());
    }
    while i < items.len()
        invariant
            i <= items@.len(),
            spec_items_from_json::<T>(items@.take(i as int)) is Ok,
            out.deep_view() == spec_items_from_json::<T>(items@.take(i as int))->Ok_0,
        decreases items@.len() - i,
    {
        let ghost pre = out.deep_view();
        match T::from_json(&items[i]) {
            Ok(x) => {
                proof {
                    assert(items@.take(i as int + 1).drop_last() =~= items@.take(i as int));
                    assert(items@.take(i as int + 1).last() == items@[i as int]);
                }
                out.push(x);
                proof {
                    assert(out.deep_view() =~= pre.push(out@[out@.len() - 1].deep_view()));
                }
            },
            Err(e) => {
                proof {
                    lemma_items_error::<T>(items@, i as int, e);
                }
                return Err(e);
            },
        }
        i += 1;
    }
    proof {
        assert(items@.take(items@.len() as int) =~= items@);
    }
    Ok(out)
}

/// If a prefix decodes and the next item fails, the whole array's decode
/// fails with that item's error.
proof fn lemma_items_error<T: FromJson>(items: Seq<JsonValue>, i: int, e: DecodeError)
    requires
        0 <= i < items.len(),
        spec_items_from_json::<T>(items.take(i)) is Ok,
        T::spec_from_json(items[i]) == Result::<T::V, DecodeError>::Err(e),
    ensures
        spec_items_from_json::<T>(items) == Result::<Seq<T::V>, DecodeError>::Err(e),
    decreases items.len() - i,
{
    if i + 1 == items.len() {
        assert(items.drop_last() =~= items.take(i));
        assert(items.last() == items[i]);
    } else {
        assert(items.take(i + 1).drop_last() =~= items.take(i));
        assert(items.take(i + 1).last() == items[i]);
        assert(spec_items_from_json::<T>(items.take(i + 1)) == Result::<
            Seq<T::V>,
            DecodeError,
        >::Err(e));
        lemma_items_error_carries::<T>(items, i + 1, e);
    }
}

/// A failing prefix makes the whole array's decode fail the same way.
proof fn lemma_items_error_carries<T: FromJson>(items: Seq<JsonValue>, i: int, e: DecodeError)
    requires
        0 < i <= items.len(),
        spec_items_from_json::<T>(items.take(i)) == Result::<Seq<T::V>, DecodeError>::Err(e),
    ensures
        spec_items_from_json::<T>(items) == Result::<Seq<T::V>, DecodeError>::Err(e),
    decreases items.len() - i,
{
    if i == items.len() {
        assert(items.take(i) =~= items);
    } else {
        assert(items.take(i + 1).drop_last() =~= items.take(i));
        lemma_items_error_carries::<T>(items, i + 1, e);
    }
}

/// A required field holding a nested shape.
pub open spec fn spec_req_entity<T: FromJson>(
    fields: Seq<(String, JsonValue)>,
    key: Seq<char>,
) -> Result<T::V, DecodeError> {
    match crate::json::spec_lookup(fields, key) {
        Option::None => Err(DecodeError::MissingField),
        Option::Some(v) => T::spec_from_json(v),
    }
}

/// Read a required nested-shape field.
pub fn req_entity<T: FromJson>(fields: &Vec<(String, JsonValue)>, key: &str) -> (r: Result<
    T,
    DecodeError,
>)
    ensures
        (r is Ok <==> spec_req_entity::<T>(fields@, key@) is Ok),
        r is Ok ==> r->Ok_0.deep_view() == spec_req_entity::<T>(fields@, key@)->Ok_0,
        r is Err ==> r->Err_0 == spec_req_entity::<T>(fields@, key@)->Err_0,
{
    match crate::json::get_field(fields, key) {
        Option::None => Err(DecodeError::MissingField),
        Option::Some(v) => T::from_json(v),
    }
}

/// An optional field holding a nested shape: missing or `null` is `None`.
pub open spec fn spec_opt_entity<T: FromJson>(
    fields: Seq<(String, JsonValue)>,
    key: Seq<char>,
) -> Result<Option<T::V>, DecodeError> {
    match crate::json::spec_lookup(fields, key) {
        Option::None => Ok(Option::None),
        Option::Some(v) => match v {
            JsonValue::Null => Ok(Option::None),
            _ => match T::spec_from_json(v) {
                Ok(x) => Ok(Option::Some(x)),
                Err(e) => Err(e),
            },
        },
    }
}

/// Read an optional nested-shape field.
pub fn opt_entity<T: FromJson>(fields: &Vec<(String, JsonValue)>, key: &str) -> (r: Result<
    Option<T>,
    DecodeError,
>)
    ensures
        (r is Ok <==> spec_opt_entity::<T>(fields@, key@) is Ok),
        r is Ok ==> r->Ok_0.deep_view() == spec_opt_entity::<T>(fields@, key@)->Ok_0,
        r is Err ==> r->Err_0 == spec_opt_entity::<T>(fields@, key@)->Err_0,
{
    match crate::json::get_field(fields, key) {
        Option::None => Ok(Option::None),
        Option::Some(v) => match v {
            JsonValue::Null => Ok(Option::None),
            _ => match T::from_json(v) {
                Ok(x) => Ok(Option::Some(x)),
                Err(e) => Err(e),
            },
        },
    }
}

/// A required field holding an array of nested shapes.
pub open spec fn spec_req_entity_vec<T: FromJson>(
    fields: Seq<(String, JsonValue)>,
    key: Seq<char>,
) -> Result<Seq<T::V>, DecodeError> {
    match crate::json::spec_lookup(fields, key) {
        Option::None => Err(DecodeError::MissingField),
        Option::Some(v) => match v {
            JsonValue::Arr(items) => spec_items_from_json::<T>(items@),
            _ => Err(DecodeError::Mismatch),
        },
    }
}

/// Read a required array-of-nested-shapes field.
pub fn req_entity_vec<T: FromJson>(fields: &Vec<(String, JsonValue)>, key: &str) -> (r: Result<
    Vec<T>,
    DecodeError,
>)
    ensures
        (r is Ok <==> spec_req_entity_vec::<T>(fields@, key@) is Ok),
        r is Ok ==> r->Ok_0.deep_view() == spec_req_entity_vec::<T>(fields@, key@)->Ok_0,
        r is Err ==> r->Err_0 == spec_req_entity_vec::<T>(fields@, key@)->Err_0,
{
    match crate::json::get_field(fields, key) {
        Option::None => Err(DecodeError::MissingField),
        Option::Some(v) => match v {
            JsonValue::Arr(items) => items_from_json::<T>(items),
            _ => Err(DecodeError::Mismatch),
        },
    }
}

/// An optional field holding an array of nested shapes: missing or `null` is
/// `None`.
pub open spec fn spec_opt_entity_vec<T: FromJson>(
    fields: Seq<(String, JsonValue)>,
    key: Seq<char>,
) -> Result<Option<Seq<T::V>>, DecodeError> {
    match crate::json::spec_lookup(fields, key) {
        Option::None => Ok(Option::None),
        Option::Some(v) => match v {
            JsonValue::Null => Ok(Option::None),
            JsonValue::Arr(items) => match spec_items_from_json::<T>(items@) {
                Ok(xs) => Ok(Option::Some(xs)),
                Err(e) => Err(e),
            },
            _ => Err(DecodeError::Mismatch),
        },
    }
}

/// Read an optional array-of-nested-shapes field.
pub fn opt_entity_vec<T: FromJson>(fields: &Vec<(String, JsonValue)>, key: &str) -> (r: Result<
    Option<Vec<T>>,
    DecodeError,
>)
    ensures
        (r is Ok <==> spec_opt_entity_vec::<T>(fields@, key@) is Ok),
        r is Ok ==> r->Ok_0.deep_view() == spec_opt_entity_vec::<T>(fields@, key@)->Ok_0,
        r is Err ==> r->Err_0 == spec_opt_entity_vec::<T>(fields@, key@)->Err_0,
{
    match crate::json::get_field(fields, key) {
        Option::None => Ok(Option::None),
        Option::Some(v) => match v {
            JsonValue::Null => Ok(Option::None),
            JsonValue::Arr(items) => match items_from_json::<T>(items) {
                Ok(xs) => Ok(Option::Some(xs)),
                Err(e) => Err(e),
            },
            _ => Err(DecodeError::Mismatch),
        },
    }
}

/// Whether an HTTP status code is in the success class.
pub open spec fn spec_status_success(status: u16) -> bool {
    200 <= status < 300
}

/// Whether an HTTP status code is in the success class.
pub fn status_success(status: u16) -> (r: bool)
    ensures
        r == spec_status_success(status),
{
    200 <= status && status < 300
}

/// The outcome of a fetch-one response: a non-success status is a status
/// error, an unparseable body is `NoData`, a body of the wrong shape is a
/// decode error, and anything else is the decoded item.
pub open spec fn spec_get_outcome<Item: FromJson>(status: u16, body: Seq<u8>) -> Result<
    Item::V,
    Error,
> {
    if !spec_status_success(status) {
        Err(Error::Status(status))
    } else {
        match json_doc(body) {
            Option::None => Err(Error::NoData),
            Option::Some(v) => match Item::spec_from_json(v) {
                Ok(x) => Ok(x),
                Err(e) => Err(Error::Decode(e)),
            },
        }
    }
}

/// The outcome of a fetch-list response: as for fetch-one, except that the
/// body must be an array, decoded element by element.
pub open spec fn spec_list_outcome<List: FromJson>(status: u16, body: Seq<u8>) -> Result<
    Seq<List::V>,
    Error,
> {
    if !spec_status_success(status) {
        Err(Error::Status(status))
    } else {
        match json_doc(body) {
            Option::None => Err(Error::NoData),
            Option::Some(v) => match v {
                JsonValue::Arr(items) => match spec_items_from_json::<List>(items@) {
                    Ok(xs) => Ok(xs),
                    Err(e) => Err(Error::Decode(e)),
                },
                _ => Err(Error::Decode(DecodeError::Mismatch)),
            },
        }
    }
}

/// Generic endpoint for the API's resources: a base URL (the one mutable
/// piece, repointed when host or language changes), a fixed resource path
/// segment, and the two response shapes it serves.
pub struct Endpoint<Item, List> {
    base_url: String,
    path: String,
    item: PhantomData<Item>,
    list: PhantomData<List>,
}

impl<Item: FromJson, List: FromJson> Endpoint<Item, List> {
    /// The base URL requests are composed against.
    pub closed spec fn spec_base_url(&self) -> Seq<char> {
        self.base_url@
    }

    /// The resource path segment.
    pub closed spec fn spec_path(&self) -> Seq<char> {
        self.path@
    }

    /// Create a new endpoint with the given base URL and path.
    pub fn new(base_url: &str, path: &str) -> (e: Self)
        ensures
            e.spec_base_url() == base_url@,
            e.spec_path() == path@,
    {
        Endpoint { base_url: String::from_str(base_url), path: String::from_str(path), item: PhantomData, list: PhantomData }
    }

    /// Set the base URL for this endpoint; only requests composed afterwards
    /// see the new value.
    pub fn set_base_url(&mut self, base_url: &str)
        ensures
            final(self).spec_base_url() == base_url@,
            final(self).spec_path() == old(self).spec_path(),
    {
        self.base_url = String::from_str(base_url);
    }

    /// The URL of the fetch-one operation: `<base>/<path>/<id>`, with each
    /// space of the identifier escaped to `%20`.
    pub fn get_url(&self, id: &str) -> (r: String)
        ensures
            r@ == self.spec_base_url() + "/"@ + self.spec_path() + "/"@ + space_escaped(id@),
    {
        let mut url = self.base_url.clone();
        url.append("/");
        url.append(self.path.as_str());
        url.append("/");
        append_space_escaped(&mut url, id);
        url
    }

    /// The URL of the fetch-list operation: `<base>/<path>`, with the query's
    /// rendering appended verbatim when one is given.
    pub fn list_url(&self, query: Option<&Query>) -> (r: String)
        ensures
            r@ == self.spec_base_url() + "/"@ + self.spec_path() + (match query {
                Option::Some(q) => rendered(q@),
                Option::None => Seq::<char>::empty(),
            }),
    {
        let mut url = self.base_url.clone();
        url.append("/");
        url.append(self.path.as_str());
        match query {
            Option::Some(q) => {
                let qs = q.build();
                url.append(qs.as_str());
            },
            Option::None => {
                proof {
                    assert(url@ + Seq::<char>::empty() =~= url@);
                }
            },
        }
        url
    }

    /// Turn a fetch-one response into the typed item. A non-success status
    /// surfaces as a status error, never as a silent default.
    pub fn decode_get(&self, status: u16, body: &[u8]) -> (r: Result<Item, Error>)
        ensures
            (r is Ok <==> spec_get_outcome::<Item>(status, body@) is Ok),
            r is Ok ==> r->Ok_0.deep_view() == spec_get_outcome::<Item>(status, body@)->Ok_0,
            r is Err ==> r->Err_0 == spec_get_outcome::<Item>(status, body@)->Err_0,
            !spec_status_success(status) ==> r == Result::<Item, Error>::Err(
                Error::Status(status),
            ),
    {
        if !status_success(status) {
            return Err(Error::Status(status));
        }
        match parse_json(body) {
            Option::None => Err(Error::NoData),
            Option::Some(v) => match Item::from_json(&v) {
                Ok(x) => Ok(x),
                Err(e) => Err(Error::Decode(e)),
            },
        }
    }

    /// Turn a fetch-list response into the typed elements. An empty array is
    /// a valid success; a non-success status surfaces as a status error.
    pub fn decode_list(&self, status: u16, body: &[u8]) -> (r: Result<Vec<List>, Error>)
        ensures
            (r is Ok <==> spec_list_outcome::<List>(status, body@) is Ok),
            r is Ok ==> r->Ok_0.deep_view() == spec_list_outcome::<List>(status, body@)->Ok_0,
            r is Err ==> r->Err_0 == spec_list_outcome::<List>(status, body@)->Err_0,
            !spec_status_success(status) ==> r == Result::<Vec<List>, Error>::Err(
                Error::Status(status),
            ),
    {
        if !status_success(status) {
            return Err(Error::Status(status));
        }
        match parse_json(body) {
            Option::None => Err(Error::NoData),
            Option::Some(v) => match v {
                JsonValue::Arr(items) => match items_from_json::<List>(&items) {
                    Ok(xs) => Ok(xs),
                    Err(e) => Err(Error::Decode(e)),
                },
                _ => Err(Error::Decode(DecodeError::Mismatch)),
            },
        }
    }
}

impl<Item: FromJson, List: FromJson> Default for Endpoint<Item, List> {
    /// An endpoint with empty base URL and path.
    fn default() -> (e: Self)
        ensures
            e.spec_base_url() == Seq::<char>::empty(),
            e.spec_path() == Seq::<char>::empty(),
    {
        Endpoint { base_url: String::new(), path: String::new(), item: PhantomData, list: PhantomData }
    }
}

} // verus!
