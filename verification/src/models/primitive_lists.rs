//! The flexible scalar-or-list shapes: fields advertised as "list of
//! primitive" may arrive as a bare scalar, which decodes as a one-element
//! list. Decoding fails only on a type mismatch or a numeric range overflow,
//! never merely because the value was a scalar.

use crate::endpoints::FromJson;
use crate::error::DecodeError;
use crate::json::spec_str_items;
use crate::json::str_items;
use crate::json::JsonValue;
use crate::numbers::parse_u32;
use crate::numbers::parsed_u32;
use vstd::prelude::*;

verus! {

/// A list of strings from the API, possibly sent as a single bare string.
#[derive(Debug, Clone, PartialEq, Eq)]
pub struct StringList(pub Vec<String>);

impl View for StringList {
    type V = Seq<Seq<char>>;

    open spec fn view(&self) -> Seq<Seq<char>> {
        self.0.deep_view()
    }
}

impl DeepView for StringList {
    type V = Seq<Seq<char>>;

    open spec fn deep_view(&self) -> Seq<Seq<char>> {
        self.view()
    }
}

impl FromJson for StringList {
    /// A bare string decodes as the one-element list of it; an array decodes
    /// element by element, order and duplicates preserved; any other shape is
    /// a mismatch.
    open spec fn spec_from_json(v: JsonValue) -> Result<Seq<Seq<char>>, DecodeError> {
        match v {
            JsonValue::Str(s) => Ok(seq![s@]),
            JsonValue::Arr(items) => spec_str_items(items@),
            _ => Err(DecodeError::Mismatch),
        }
    }

    fn from_json(v: &JsonValue) -> (r: Result<StringList, DecodeError>) {
        match v {
            JsonValue::Str(s) => {
                let mut out: Vec<String> = Vec::new();
                out.push(s.clone());
                proof {
                    assert(out.deep_view() =~= seq![s@]);
                }
                Ok(StringList(out))
            },
            JsonValue::Arr(items) => match str_items(items) {
                Ok(xs) => Ok(StringList(xs)),
                Err(e) => Err(e),
            },
            _ => Err(DecodeError::Mismatch),
        }
    }
}

impl StringList {
    /// Get a reference to the inner vector.
    pub fn inner(&self) -> (r: &Vec<String>)
        ensures
            r.deep_view() == self@,
    {
        &self.0
    }

    /// Check if the list contains a specific string (exact match).
    pub fn contains(&self, value: &str) -> (r: bool)
        ensures
            r == self@.contains(value@),
    {
        let k = String::from_str(value);
        let mut i: usize = 0;
        while i < self.0.len()
            invariant
                i <= self.0@.len(),
                self@.len() == self.0@.len(),
                k@ == value@,
                forall|j: int| 0 <= j < self@.len() ==> self@[j] == #[trigger] self.0@[j]@,
                forall|j: int| 0 <= j < i ==> self@[j] != value@,
            decreases self.0@.len() - i,
        {
            if self.0[i] == k {
                return true;
            }
            i += 1;
        }
        false
    }

    /// Check if the list is empty.
    pub fn is_empty(&self) -> (r: bool)
        ensures
            r == (self@.len() == 0),
    {
        self.0.is_empty()
    }

    /// Get the length of the list.
    pub fn len(&self) -> (r: usize)
        ensures
            r == self@.len(),
    {
        self.0.len()
    }
}

/// Element-by-element decode of an array of unsigned integers: an integer
/// out of range is a range error, anything non-integer a mismatch.
pub open spec fn spec_u32_items(items: Seq<JsonValue>) -> Result<Seq<u32>, DecodeError>
    decreases items.len(),
{
    if items.len() == 0 {
        Ok(Seq::<u32>::empty())
    } else {
        match spec_u32_items(items.drop_last()) {
            Ok(pre) => match crate::json::spec_u32_of(items.last()) {
                Ok(n) => Ok(pre.push(n)),
                Err(e) => Err(e),
            },
            Err(e) => Err(e),
        }
    }
}

/// Read every item of an array as a `u32`, in order.
fn u32_items(items: &Vec<JsonValue>) -> (r: Result<Vec<u32>, DecodeError>)
    ensures
        (r is Ok <==> spec_u32_items(items@) is Ok),
        r is Ok ==> r->Ok_0.deep_view() == spec_u32_items(items@)->Ok_0,
        r is Err ==> r->Err_0 == spec_u32_items(items@)->Err_0,
{
    let mut out: Vec<u32> = Vec::new();
    let mut i: usize = 0;
    proof {
        assert(items@.take(0) =~= Seq::<JsonValue>::empty());
        assert(out.deep_view() =~= Seq::<u32>::empty());
    }
    while i < items.len()
        invariant
            i <= items@.len(),
            spec_u32_items(items@.take(i as int)) is Ok,
            out.deep_view() == spec_u32_items(items@.take(i as int))->Ok_0,
        decreases items@.len() - i,
    {
        let ghost pre = out.deep_view();
        proof {
            assert(items@.take(i as int + 1).drop_last() =~= items@.take(i as int));
            assert(items@.take(i as int + 1).last() == items@[i as int]);
        }
        match crate::json::u32_of(&items[i]) {
            Ok(n) => {
                out.push(n);
                proof {
                    assert(out.deep_view() =~= pre.push(n));
                }
            },
            Err(e) => {
                proof {
                    lemma_u32_items_error(items@, i as int, e);
                }
                return Err(e);
            },
        }
        i += 1;
    }
    proof {
        assert(items@.take(items@.len() as int) =~= items@);
    }
    Ok(out)
}

/// If a prefix reads as `u32` and the next item fails, the whole array fails
/// with that item's error.
proof fn lemma_u32_items_error(items: Seq<JsonValue>, i: int, e: DecodeError)
    requires
        0 <= i < items.len(),
        spec_u32_items(items.take(i)) is Ok,
        crate::json::spec_u32_of(items[i]) == Result::<u32, DecodeError>::Err(e),
    ensures
        spec_u32_items(items) == Result::<Seq<u32>, DecodeError>::Err(e),
    decreases items.len() - i,
{
    assert(items.take(i + 1).drop_last() =~= items.take(i));
    assert(items.take(i + 1).last() == items[i]);
    if i + 1 == items.len() {
        assert(items.take(i + 1) =~= items);
    } else {
        lemma_u32_items_error_carries(items, i + 1, e);
    }
}

/// A failing prefix makes the whole `u32`-array read fail the same way.
proof fn lemma_u32_items_error_carries(items: Seq<JsonValue>, i: int, e: DecodeError)
    requires
        0 < i <= items.len(),
        spec_u32_items(items.take(i)) == Result::<Seq<u32>, DecodeError>::Err(e),
    ensures
        spec_u32_items(items) == Result::<Seq<u32>, DecodeError>::Err(e),
    decreases items.len() - i,
{
    if i == items.len() {
        assert(items.take(i) =~= items);
    } else {
        assert(items.take(i + 1).drop_last() =~= items.take(i));
        lemma_u32_items_error_carries(items, i + 1, e);
    }
}

/// Law: decoding never fails merely because the source value was a scalar —
/// a bare string decodes exactly as the one-element array holding the same
/// string, to the one-element list of it.
pub proof fn lemma_string_scalar_matches_singleton(s: String, items: Vec<JsonValue>)
    requires
        items@ =~= seq![JsonValue::Str(s)],
    ensures
        StringList::spec_from_json(JsonValue::Str(s)) == StringList::spec_from_json(
            JsonValue::Arr(items),
        ),
        StringList::spec_from_json(JsonValue::Str(s)) == Result::<Seq<Seq<char>>, DecodeError>::Ok(
            seq![s@],
        ),
{
    assert(items@.drop_last() =~= Seq::<JsonValue>::empty());
    assert(items@.last() == JsonValue::Str(s));
    assert(spec_str_items(Seq::<JsonValue>::empty()) == Result::<Seq<Seq<char>>, DecodeError>::Ok(
        Seq::<Seq<char>>::empty(),
    ));
    assert(spec_str_items(items@) == Result::<Seq<Seq<char>>, DecodeError>::Ok(
        Seq::<Seq<char>>::empty().push(s@),
    ));
    assert(Seq::<Seq<char>>::empty().push(s@) =~= seq![s@]);
}

/// A list of unsigned integers from the API, possibly sent as a bare
/// integer, or as a numeric text.
#[derive(Debug, Clone, PartialEq, Eq)]
pub struct IntList(pub Vec<u32>);

impl View for IntList {
    type V = Seq<u32>;

    open spec fn view(&self) -> Seq<u32> {
        self.0.deep_view()
    }
}

impl DeepView for IntList {
    type V = Seq<u32>;

    open spec fn deep_view(&self) -> Seq<u32> {
        self.view()
    }
}

impl FromJson for IntList {
    /// A bare integer within 32 bits decodes as the one-element list of it,
    /// one beyond that range is a range error; a bare text parses as a
    /// decimal and is a mismatch where it does not parse (never a silent
    /// empty list); an array decodes element by element; any other shape
    /// (a negative or floating-point scalar included) is a mismatch.
    open spec fn spec_from_json(v: JsonValue) -> Result<Seq<u32>, DecodeError> {
        match v {
            JsonValue::UInt(n) => if n <= u32::MAX as u64 {
                Ok(seq![n as u32])
            } else {
                Err(DecodeError::OutOfRange)
            },
            JsonValue::Str(s) => match parsed_u32(s@) {
                Option::Some(n) => Ok(seq![n]),
                Option::None => Err(DecodeError::Mismatch),
            },
            JsonValue::Arr(items) => spec_u32_items(items@),
            _ => Err(DecodeError::Mismatch),
        }
    }

    fn from_json(v: &JsonValue) -> (r: Result<IntList, DecodeError>) {
        match v {
            JsonValue::UInt(n) => if *n <= u32::MAX as u64 {
                let mut out: Vec<u32> = Vec::new();
                out.push(*n as u32);
                proof {
                    assert(out.deep_view() =~= seq![*n as u32]);
                }
                Ok(IntList(out))
            } else {
                Err(DecodeError::OutOfRange)
            },
            JsonValue::Str(s) => match parse_u32(s.as_str()) {
                Option::Some(n) => {
                    let mut out: Vec<u32> = Vec::new();
                    out.push(n);
                    proof {
                        assert(out.deep_view() =~= seq![n]);
                    }
                    Ok(IntList(out))
                },
                Option::None => Err(DecodeError::Mismatch),
            },
            JsonValue::Arr(items) => match u32_items(items) {
                Ok(xs) => Ok(IntList(xs)),
                Err(e) => Err(e),
            },
            _ => Err(DecodeError::Mismatch),
        }
    }
}

impl IntList {
    /// Get a reference to the inner vector.
    pub fn inner(&self) -> (r: &Vec<u32>)
        ensures
            r@ == self@,
    {
        &self.0
    }

    /// Check if the list contains a specific integer.
    pub fn contains(&self, value: u32) -> (r: bool)
        ensures
            r == self@.contains(value),
    {
        let mut i: usize = 0;
        while i < self.0.len()
            invariant
                i <= self.0@.len(),
                self@ == self.0@,
                forall|j: int| 0 <= j < i ==> self@[j] != value,
            decreases self.0@.len() - i,
        {
            if self.0[i] == value {
                return true;
            }
            i += 1;
        }
        false
    }

    /// Check if the list is empty.
    pub fn is_empty(&self) -> (r: bool)
        ensures
            r == (self@.len() == 0),
    {
        self.0.is_empty()
    }

    /// Get the length of the list.
    pub fn len(&self) -> (r: usize)
        ensures
            r == self@.len(),
    {
        self.0.len()
    }
}

/// Law: a bare integer within range decodes exactly as the one-element array
/// holding the same integer, to the one-element list of it.
pub proof fn lemma_int_scalar_matches_singleton(n: u64, items: Vec<JsonValue>)
    requires
        n <= u32::MAX as u64,
        items@ =~= seq![JsonValue::UInt(n)],
    ensures
        IntList::spec_from_json(JsonValue::UInt(n)) == IntList::spec_from_json(
            JsonValue::Arr(items),
        ),
        IntList::spec_from_json(JsonValue::UInt(n)) == Result::<Seq<u32>, DecodeError>::Ok(
            seq![n as u32],
        ),
{
    assert(items@.drop_last() =~= Seq::<JsonValue>::empty());
    assert(items@.last() == JsonValue::UInt(n));
    assert(spec_u32_items(Seq::<JsonValue>::empty()) == Result::<Seq<u32>, DecodeError>::Ok(
        Seq::<u32>::empty(),
    ));
    assert(spec_u32_items(items@) == Result::<Seq<u32>, DecodeError>::Ok(
        Seq::<u32>::empty().push(n as u32),
    ));
    assert(Seq::<u32>::empty().push(n as u32) =~= seq![n as u32]);
}

/// Law: a numeric text decodes exactly as the bare integer it spells; a text
/// that does not spell an integer is a type mismatch, never a silent empty
/// list.
pub proof fn lemma_int_text_matches_number(n: u64, s: String)
    requires
        n <= u32::MAX as u64,
        parsed_u32(s@) == Option::<u32>::Some(n as u32),
    ensures
        IntList::spec_from_json(JsonValue::Str(s)) == IntList::spec_from_json(JsonValue::UInt(n)),
{
}

} // verus!
