//! Query builder for filtering API results.

use crate::encoding::append_encoded;
use crate::encoding::append_u32;
use crate::encoding::dec_str;
use crate::encoding::encoded;
use crate::encoding::serialized_char;
use crate::encoding::unreserved;
use vstd::prelude::*;

verus! {

/// A query builder for filtering API results: an ordered list of
/// `(key, value)` parameters, rendered on demand into a query string.
///
/// Values carry their relation as an operator prefix (`eq:`, `gt:`, ...);
/// building never fails, and parameters are kept in call order without any
/// deduplication.
pub struct Query {
    params: Vec<(String, String)>,
}

impl View for Query {
    type V = Seq<(Seq<char>, Seq<char>)>;

    closed spec fn view(&self) -> Seq<(Seq<char>, Seq<char>)> {
        self.params@.map_values(|p: (String, String)| (p.0@, p.1@))
    }
}

/// The rendering of one parameter: encoded key, `=`, encoded value.
pub open spec fn rendered_param(p: (Seq<char>, Seq<char>)) -> Seq<char> {
    encoded(p.0) + seq!['='] + encoded(p.1)
}

/// Renderings of all parameters, in order, joined with `&`.
pub open spec fn joined(params: Seq<(Seq<char>, Seq<char>)>) -> Seq<char>
    decreases params.len(),
{
    if params.len() == 0 {
        Seq::<char>::empty()
    } else if params.len() == 1 {
        rendered_param(params[0])
    } else {
        joined(params.drop_last()) + seq!['&'] + rendered_param(params.last())
    }
}

/// The whole query string: empty for no parameters, else `?` followed by the
/// joined parameters.
pub open spec fn rendered(params: Seq<(Seq<char>, Seq<char>)>) -> Seq<char> {
    if params.len() == 0 {
        Seq::<char>::empty()
    } else {
        seq!['?'] + joined(params)
    }
}

impl Query {
    /// Create a new empty query.
    pub fn new() -> (q: Query)
        ensures
            q@ =~= Seq::<(Seq<char>, Seq<char>)>::empty(),
    {
        Query { params: Vec::new() }
    }

    /// Append one parameter whose value is `prefix` followed by `value`.
    fn push_prefixed(&mut self, key: &str, prefix: &str, value: &str)
        ensures
            final(self)@ =~= old(self)@.push((key@, prefix@ + value@)),
    {
        let mut v = String::from_str(prefix);
        v.append(value);
        self.params.push((String::from_str(key), v));
    }

    /// Add a query parameter for filtering records that contain the given
    /// value (the contains relation has no operator prefix).
    pub fn contains(&mut self, key: &str, value: &str)
        ensures
            final(self)@ =~= old(self)@.push((key@, value@)),
    {
        self.params.push((String::from_str(key), String::from_str(value)));
    }

    /// Add a query parameter for filtering records where the field equals the
    /// given value.
    pub fn equal(&mut self, key: &str, value: &str)
        ensures
            final(self)@ =~= old(self)@.push((key@, "eq:"@ + value@)),
    {
        self.push_prefixed(key, "eq:", value);
    }

    /// Add a query parameter for filtering records where the field does not
    /// equal the given value.
    pub fn not_equal(&mut self, key: &str, value: &str)
        ensures
            final(self)@ =~= old(self)@.push((key@, "neq:"@ + value@)),
    {
        self.push_prefixed(key, "neq:", value);
    }

    /// Add a query parameter for filtering records where the field does not
    /// contain the given value.
    pub fn not_contains(&mut self, key: &str, value: &str)
        ensures
            final(self)@ =~= old(self)@.push((key@, "not:"@ + value@)),
    {
        self.push_prefixed(key, "not:", value);
    }

    /// Add a query parameter for filtering records where the field is greater
    /// than the given value.
    pub fn greater_than(&mut self, key: &str, value: &str)
        ensures
            final(self)@ =~= old(self)@.push((key@, "gt:"@ + value@)),
    {
        self.push_prefixed(key, "gt:", value);
    }

    /// Add a query parameter for filtering records where the field is greater
    /// than or equal to the given value.
    pub fn greater_or_equal_than(&mut self, key: &str, value: &str)
        ensures
            final(self)@ =~= old(self)@.push((key@, "gte:"@ + value@)),
    {
        self.push_prefixed(key, "gte:", value);
    }

    /// Add a query parameter for filtering records where the field is less
    /// than the given value.
    pub fn less_than(&mut self, key: &str, value: &str)
        ensures
            final(self)@ =~= old(self)@.push((key@, "lt:"@ + value@)),
    {
        self.push_prefixed(key, "lt:", value);
    }

    /// Add a query parameter for filtering records where the field is less
    /// than or equal to the given value.
    pub fn less_or_equal_than(&mut self, key: &str, value: &str)
        ensures
            final(self)@ =~= old(self)@.push((key@, "lte:"@ + value@)),
    {
        self.push_prefixed(key, "lte:", value);
    }

    /// Add a query parameter for filtering records where the field is null.
    pub fn is_null(&mut self, key: &str)
        ensures
            final(self)@ =~= old(self)@.push((key@, "null:"@)),
    {
        self.params.push((String::from_str(key), String::from_str("null:")));
    }

    /// Add a query parameter for filtering records where the field is not
    /// null.
    pub fn not_null(&mut self, key: &str)
        ensures
            final(self)@ =~= old(self)@.push((key@, "notnull:"@)),
    {
        self.params.push((String::from_str(key), String::from_str("notnull:")));
    }

    /// Add query parameters for sorting results by the given field and order.
    pub fn sort(&mut self, key: &str, order: &str)
        ensures
            final(self)@ =~= old(self)@.push(("sort:field"@, key@)).push(("sort:order"@, order@)),
    {
        self.params.push((String::from_str("sort:field"), String::from_str(key)));
        self.params.push((String::from_str("sort:order"), String::from_str(order)));
    }

    /// Add query parameters for paginating results.
    pub fn paginate(&mut self, page: u32, items_per_page: u32)
        ensures
            final(self)@ =~= old(self)@.push(("pagination:page"@, dec_str(page as nat))).push(
                ("pagination:itemsPerPage"@, dec_str(items_per_page as nat)),
            ),
    {
        let mut p = String::new();
        append_u32(&mut p, page);
        self.params.push((String::from_str("pagination:page"), p));
        let mut c = String::new();
        append_u32(&mut c, items_per_page);
        self.params.push((String::from_str("pagination:itemsPerPage"), c));
    }

    /// Add a query parameter to limit the number of results returned. This
    /// appends a fresh `pagination:itemsPerPage` parameter; nothing is
    /// deduplicated against an earlier `paginate` call.
    pub fn limit(&mut self, count: u32)
        ensures
            final(self)@ =~= old(self)@.push(("pagination:itemsPerPage"@, dec_str(count as nat))),
    {
        let mut c = String::new();
        append_u32(&mut c, count);
        self.params.push((String::from_str("pagination:itemsPerPage"), c));
    }

    /// Build the query string.
    pub fn build(&self) -> (r: String)
        ensures
            r@ == rendered(self@),
    {
        let mut out = String::new();
        if self.params.len() == 0 {
            return out;
        }
        proof {
            reveal_strlit("?");
        }
        out.append("?");
        let mut i: usize = 0;
        while i < self.params.len()
            invariant
                self@.len() == self.params@.len(),
                i <= self.params@.len(),
                out@ == seq!['?'] + joined(self@.take(i as int)),
                forall|j: int|
                    0 <= j < self.params@.len() ==> self@[j] == (
                    #[trigger] self.params@[j].0@,
                    self.params@[j].1@,
                ),
            decreases self.params@.len() - i,
        {
            proof {
                reveal_strlit("&");
                reveal_strlit("=");
            }
            if i > 0 {
                out.append("&");
            }
            let ghost pre = out@;
            append_encoded(&mut out, self.params[i].0.as_str());
            out.append("=");
            append_encoded(&mut out, self.params[i].1.as_str());
            proof {
                assert(out@ =~= pre + rendered_param(self@[i as int]));
                lemma_joined_step(self@, i as int);
            }
            i += 1;
        }
        proof {
            assert(self@.take(self@.len() as int) =~= self@);
        }
        out
    }

    // Convenience aliases

    /// Alias for contains.
    pub fn includes(&mut self, key: &str, value: &str)
        ensures
            final(self)@ =~= old(self)@.push((key@, value@)),
    {
        self.contains(key, value);
    }

    /// Alias for contains.
    pub fn like(&mut self, key: &str, value: &str)
        ensures
            final(self)@ =~= old(self)@.push((key@, value@)),
    {
        self.contains(key, value);
    }

    /// Alias for not_contains.
    pub fn not_includes(&mut self, key: &str, value: &str)
        ensures
            final(self)@ =~= old(self)@.push((key@, "not:"@ + value@)),
    {
        self.not_contains(key, value);
    }

    /// Alias for not_contains.
    pub fn not_like(&mut self, key: &str, value: &str)
        ensures
            final(self)@ =~= old(self)@.push((key@, "not:"@ + value@)),
    {
        self.not_contains(key, value);
    }

    /// Alias for greater_than.
    pub fn gt(&mut self, key: &str, value: &str)
        ensures
            final(self)@ =~= old(self)@.push((key@, "gt:"@ + value@)),
    {
        self.greater_than(key, value);
    }

    /// Alias for greater_or_equal_than.
    pub fn gte(&mut self, key: &str, value: &str)
        ensures
            final(self)@ =~= old(self)@.push((key@, "gte:"@ + value@)),
    {
        self.greater_or_equal_than(key, value);
    }

    /// Alias for less_than.
    pub fn lt(&mut self, key: &str, value: &str)
        ensures
            final(self)@ =~= old(self)@.push((key@, "lt:"@ + value@)),
    {
        self.less_than(key, value);
    }

    /// Alias for less_or_equal_than.
    pub fn lte(&mut self, key: &str, value: &str)
        ensures
            final(self)@ =~= old(self)@.push((key@, "lte:"@ + value@)),
    {
        self.less_or_equal_than(key, value);
    }
}

impl Default for Query {
    /// An empty query, as `Query::new` gives.
    fn default() -> (q: Query)
        ensures
            q@ =~= Seq::<(Seq<char>, Seq<char>)>::empty(),
    {
        Query::new()
    }
}

/// Joining one more parameter appends `&` (except before the first) and the
/// parameter's rendering.
proof fn lemma_joined_step(params: Seq<(Seq<char>, Seq<char>)>, i: int)
    requires
        0 <= i < params.len(),
    ensures
        i == 0 ==> joined(params.take(1)) == rendered_param(params[0]),
        i > 0 ==> joined(params.take(i + 1)) == joined(params.take(i)) + seq!['&']
            + rendered_param(params[i]),
{
    let t = params.take(i + 1);
    assert(t.drop_last() =~= params.take(i));
    assert(t.last() == params[i]);
    if i == 0 {
        assert(joined(params.take(1)) =~= rendered_param(params[0]));
    }
}

/// Law: a freshly constructed, untouched query renders as the empty string.
pub proof fn lemma_empty_query_renders_empty()
    ensures
        rendered(Seq::<(Seq<char>, Seq<char>)>::empty()) == Seq::<char>::empty(),
{
}

/// Splitting a character sequence on `&`: the list of runs between the
/// separators (one empty run more than there are separators).
pub open spec fn split_amp(s: Seq<char>) -> Seq<Seq<char>>
    decreases s.len(),
{
    if s.len() == 0 {
        seq![Seq::<char>::empty()]
    } else if s[0] == '&' {
        seq![Seq::<char>::empty()] + split_amp(s.drop_first())
    } else {
        let rest = split_amp(s.drop_first());
        seq![seq![s[0]] + rest[0]] + rest.drop_first()
    }
}

/// Whether a character sequence is free of the separator `&`.
pub open spec fn amp_free(s: Seq<char>) -> bool {
    forall|i: int| 0 <= i < s.len() ==> s[i] != '&'
}

/// Splitting a separator-free sequence yields that sequence alone.
proof fn lemma_split_amp_free(s: Seq<char>)
    requires
        amp_free(s),
    ensures
        split_amp(s) == seq![s],
    decreases s.len(),
{
    if s.len() == 0 {
        assert(split_amp(s) =~~= seq![s]);
    } else {
        lemma_split_amp_free(s.drop_first());
        let rest = split_amp(s.drop_first());
        assert(rest == seq![s.drop_first()]);
        assert(rest[0] == s.drop_first());
        assert(rest.drop_first() =~~= Seq::<Seq<char>>::empty());
        assert(seq![s[0]] + s.drop_first() =~= s);
        assert(split_amp(s) =~~= seq![s]);
    }
}

/// Splitting `a & t` for separator-free `a` yields `a` followed by the
/// splitting of `t`.
proof fn lemma_split_amp_sep(a: Seq<char>, t: Seq<char>)
    requires
        amp_free(a),
    ensures
        split_amp(a + seq!['&'] + t) == seq![a] + split_amp(t),
    decreases a.len(),
{
    let s = a + seq!['&'] + t;
    if a.len() == 0 {
        assert(s.drop_first() =~= t);
        assert(s[0] == '&');
        assert(a =~= Seq::<char>::empty());
        assert(split_amp(s) =~~= seq![a] + split_amp(t));
    } else {
        assert(s[0] == a[0]);
        assert(s.drop_first() =~= a.drop_first() + seq!['&'] + t);
        lemma_split_amp_sep(a.drop_first(), t);
        let rest = split_amp(s.drop_first());
        assert(rest == seq![a.drop_first()] + split_amp(t));
        assert(rest[0] == a.drop_first());
        assert(seq![s[0]] + rest[0] =~= a);
        assert(rest.drop_first() =~~= split_amp(t));
        assert(split_amp(s) =~~= seq![a] + split_amp(t));
    }
}

/// Anything a character serializes to is free of `&`.
proof fn lemma_serialized_char_amp_free(c: char)
    ensures
        amp_free(serialized_char(c)),
{
    reveal_strlit("0123456789ABCDEF");
    if c == ' ' {
    } else if unreserved(c) {
        assert(c != '&');
    } else {
        let f = |b: u8| crate::encoding::percent_encoded(b);
        let bs = vstd::utf8::encode_utf8(seq![c]);
        assert forall|b: u8| amp_free(#[trigger] f(b)) by {
            assert(b / 16 < 16 && b % 16 < 16);
            assert(crate::encoding::hex_char(b / 16) != '&');
            assert(crate::encoding::hex_char(b % 16) != '&');
        }
        lemma_flat_map_amp_free_bytes(bs, f);
    }
}

/// A flat-mapping of bytes whose pieces are all free of `&` is free of `&`.
proof fn lemma_flat_map_amp_free_bytes(s: Seq<u8>, f: spec_fn(u8) -> Seq<char>)
    requires
        forall|b: u8| amp_free(#[trigger] f(b)),
    ensures
        amp_free(s.flat_map(f)),
    decreases s.len(),
{
    if s.len() > 0 {
        lemma_flat_map_amp_free_bytes(s.drop_last(), f);
        s.drop_last().lemma_flat_map_push(f, s.last());
        assert(s.drop_last().push(s.last()) =~= s);
    }
}

/// A flat-mapping whose pieces are all free of `&` is free of `&`.
proof fn lemma_flat_map_amp_free(s: Seq<char>, f: spec_fn(char) -> Seq<char>)
    requires
        forall|c: char| amp_free(#[trigger] f(c)),
    ensures
        amp_free(s.flat_map(f)),
    decreases s.len(),
{
    if s.len() > 0 {
        lemma_flat_map_amp_free(s.drop_last(), f);
        s.drop_last().lemma_flat_map_push(f, s.last());
        assert(s.drop_last().push(s.last()) =~= s);
    }
}

/// The encoding of any text is free of the parameter separator `&`.
pub proof fn lemma_encoded_amp_free(s: Seq<char>)
    ensures
        amp_free(encoded(s)),
{
    assert forall|c: char| amp_free(#[trigger] serialized_char(c)) by {
        lemma_serialized_char_amp_free(c);
    }
    lemma_flat_map_amp_free(crate::encoding::cleaned(s), |c: char| serialized_char(c));
}

/// A rendered parameter (encoded key, `=`, encoded value) is free of `&`.
proof fn lemma_rendered_param_amp_free(p: (Seq<char>, Seq<char>))
    ensures
        amp_free(rendered_param(p)),
{
    lemma_encoded_amp_free(p.0);
    lemma_encoded_amp_free(p.1);
}

/// `joined` seen from the left: the first parameter's rendering, `&`, then
/// the joining of the rest.
proof fn lemma_joined_left(params: Seq<(Seq<char>, Seq<char>)>)
    requires
        params.len() >= 2,
    ensures
        joined(params) == rendered_param(params[0]) + seq!['&'] + joined(params.drop_first()),
    decreases params.len(),
{
    if params.len() == 2 {
        assert(params.drop_last() =~= seq![params[0]]);
        assert(params.drop_first() =~= seq![params[1]]);
        assert(joined(params) == joined(params.drop_last()) + seq!['&'] + rendered_param(
            params.last(),
        ));
        assert(joined(seq![params[0]]) == rendered_param(params[0]));
        assert(joined(seq![params[1]]) == rendered_param(params[1]));
        assert(params.last() == params[1]);
        assert(joined(params) =~= rendered_param(params[0]) + seq!['&'] + joined(
            params.drop_first(),
        ));
    } else {
        let dl = params.drop_last();
        let df = params.drop_first();
        lemma_joined_left(dl);
        assert(dl.drop_first() =~= df.drop_last());
        assert(df.last() == params.last());
        assert(joined(params) == joined(dl) + seq!['&'] + rendered_param(params.last()));
        assert(joined(df) == joined(df.drop_last()) + seq!['&'] + rendered_param(df.last()));
        assert(joined(dl) == rendered_param(params[0]) + seq!['&'] + joined(df.drop_last()));
        assert(joined(params) =~= rendered_param(params[0]) + seq!['&'] + joined(df));
    }
}

/// Splitting the joined parameters recovers each parameter's rendering.
proof fn lemma_split_joined(params: Seq<(Seq<char>, Seq<char>)>)
    requires
        params.len() > 0,
    ensures
        split_amp(joined(params)) == params.map_values(|p: (Seq<char>, Seq<char>)| rendered_param(p)),
    decreases params.len(),
{
    lemma_rendered_param_amp_free(params[0]);
    if params.len() == 1 {
        lemma_split_amp_free(rendered_param(params[0]));
        assert(split_amp(joined(params)) =~= params.map_values(
            |p: (Seq<char>, Seq<char>)| rendered_param(p),
        ));
    } else {
        lemma_joined_left(params);
        lemma_split_amp_sep(rendered_param(params[0]), joined(params.drop_first()));
        lemma_split_joined(params.drop_first());
        assert(params.drop_first().map_values(|p: (Seq<char>, Seq<char>)| rendered_param(p))
            =~= params.map_values(|p: (Seq<char>, Seq<char>)| rendered_param(p)).drop_first());
        assert(split_amp(joined(params)) =~= params.map_values(
            |p: (Seq<char>, Seq<char>)| rendered_param(p),
        ));
    }
}

/// Law: for every non-empty parameter list, the query string starts with `?`,
/// and splitting the remainder on `&` yields exactly one segment per
/// parameter, in call order, each being that parameter's rendering.
pub proof fn lemma_query_string_segments(params: Seq<(Seq<char>, Seq<char>)>)
    requires
        params.len() > 0,
    ensures
        rendered(params).len() > 0,
        rendered(params)[0] == '?',
        split_amp(rendered(params).drop_first()) == params.map_values(
            |p: (Seq<char>, Seq<char>)| rendered_param(p),
        ),
        split_amp(rendered(params).drop_first()).len() == params.len(),
{
    assert(rendered(params).drop_first() =~= joined(params));
    lemma_split_joined(params);
}

} // verus!
