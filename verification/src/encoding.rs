//! Percent-encoding of query keys and values.
//!
//! A parameter component is encoded in two steps, reproducing the wire
//! grammar byte for byte: spaces are first rewritten to `%20` and the
//! characters `"`, `'` and `\` are stripped; the cleaned text is then
//! form-urlencoded, meaning every byte of its UTF-8 encoding outside
//! `A-Z a-z 0-9 * - . _` is written as `%` followed by two uppercase hex
//! digits (a bare space would become `+`, though cleaning leaves none).

use vstd::prelude::*;
use vstd::utf8::encode_scalar;
use vstd::utf8::encode_utf8;
use vstd::utf8::is_ascii_chars;
use vstd::utf8::is_ascii_chars_encode_utf8;

verus! {

/// Hex digits, indexed by value.
pub open spec fn hex_char(n: u8) -> char
    recommends
        n < 16,
{
    "0123456789ABCDEF"@[n as int]
}

/// `%XX` form of one byte, with uppercase hex digits.
pub open spec fn percent_encoded(b: u8) -> Seq<char> {
    seq!['%', hex_char(b / 16), hex_char(b % 16)]
}

/// Characters that form-urlencoding passes through unchanged.
pub open spec fn unreserved(c: char) -> bool {
    let u = c as u32;
    u == 0x2a || u == 0x2d || u == 0x2e || u == 0x5f || (0x30 <= u && u <= 0x39) || (0x41 <= u
        && u <= 0x5a) || (0x61 <= u && u <= 0x7a)
}

/// Form-urlencoding of one character: unreserved characters stand as
/// themselves, a space becomes `+`, and anything else becomes the `%XX`
/// forms of its UTF-8 bytes.
pub open spec fn serialized_char(c: char) -> Seq<char> {
    if c == ' ' {
        seq!['+']
    } else if unreserved(c) {
        seq![c]
    } else {
        encode_utf8(seq![c]).flat_map(|b: u8| percent_encoded(b))
    }
}

/// Form-urlencoding of a whole character sequence.
pub open spec fn serialized(s: Seq<char>) -> Seq<char> {
    s.flat_map(|c: char| serialized_char(c))
}

/// The rewriting that precedes form-urlencoding: a space becomes the three
/// characters `%20`, and quotes and backslashes are dropped.
pub open spec fn cleaned_char(c: char) -> Seq<char> {
    if c == ' ' {
        seq!['%', '2', '0']
    } else if c == '"' || c == '\'' || c == '\\' {
        Seq::<char>::empty()
    } else {
        seq![c]
    }
}

/// Cleaning of a whole character sequence.
pub open spec fn cleaned(s: Seq<char>) -> Seq<char> {
    s.flat_map(|c: char| cleaned_char(c))
}

/// The full encoding of one query key or value: clean, then form-urlencode.
pub open spec fn encoded(s: Seq<char>) -> Seq<char> {
    serialized(cleaned(s))
}

/// Form-urlencoding distributes over concatenation.
pub proof fn lemma_serialized_concat(a: Seq<char>, b: Seq<char>)
    ensures
        serialized(a + b) == serialized(a) + serialized(b),
    decreases b.len(),
{
    if b.len() == 0 {
        assert(a + b =~= a);
        assert(serialized(b) =~= Seq::<char>::empty());
        assert(serialized(a + b) =~= serialized(a) + serialized(b));
    } else {
        let b0 = b.drop_last();
        lemma_serialized_concat(a, b0);
        assert(a + b =~= (a + b0).push(b.last()));
        (a + b0).lemma_flat_map_push(|c: char| serialized_char(c), b.last());
        b0.lemma_flat_map_push(|c: char| serialized_char(c), b.last());
        assert(b =~= b0.push(b.last()));
        assert(serialized(a + b) =~= serialized(a) + serialized(b));
    }
}

/// The light escaping used for path segments: each space becomes `%20`,
/// everything else stands as it is.
pub open spec fn space_escaped_char(c: char) -> Seq<char> {
    if c == ' ' {
        seq!['%', '2', '0']
    } else {
        seq![c]
    }
}

/// The light escaping of a whole identifier.
pub open spec fn space_escaped(s: Seq<char>) -> Seq<char> {
    s.flat_map(|c: char| space_escaped_char(c))
}

/// Appends `s` with each space escaped to `%20`.
pub fn append_space_escaped(out: &mut String, s: &str)
    ensures
        final(out)@ == old(out)@ + space_escaped(s@),
{
    let ghost base = out@;
    let n = s.unicode_len();
    let mut i: usize = 0;
    while i < n
        invariant
            n == s@.len(),
            i <= n,
            out@ == base + space_escaped(s@.take(i as int)),
        decreases n - i,
    {
        let c = s.get_char(i);
        if c == ' ' {
            out.append("%20");
            proof {
                reveal_strlit("%20");
                assert(space_escaped_char(c) =~= "%20"@);
            }
        } else {
            let piece = s.substring_char(i, i + 1);
            out.append(piece);
            proof {
                assert(piece@ =~= seq![c]);
                assert(space_escaped_char(c) =~= seq![c]);
            }
        }
        proof {
            s@.lemma_flat_map_take_append(|x: char| space_escaped_char(x), i as int);
        }
        i += 1;
    }
    proof {
        assert(s@.take(n as int) =~= s@);
    }
}

/// Decimal rendering of a number, most significant digit first, no sign and
/// no leading zeros (a lone `0` for zero).
pub open spec fn dec_str(n: nat) -> Seq<char>
    decreases n,
{
    if n < 10 {
        seq![hex_char(n as u8)]
    } else {
        dec_str(n / 10).push(hex_char((n % 10) as u8))
    }
}

/// Appends the decimal rendering of `n`.
pub fn append_u32(out: &mut String, n: u32)
    ensures
        final(out)@ == old(out)@ + dec_str(n as nat),
{
    let ghost base = out@;
    let mut digits: Vec<usize> = Vec::new();
    let mut m = n;
    while m >= 10
        invariant
            dec_str(n as nat) == dec_str(m as nat) + digits@.reverse().map_values(
                |d: usize| hex_char(d as u8),
            ),
            forall|k: int| 0 <= k < digits@.len() ==> #[trigger] digits@[k] < 10,
        decreases m,
    {
        let ghost pre = digits@;
        digits.push((m % 10) as usize);
        proof {
            assert(digits@.reverse() =~= seq![(m % 10) as usize] + pre.reverse());
            assert(digits@.reverse().map_values(|d: usize| hex_char(d as u8)) =~= seq![
                hex_char((m % 10) as u8),
            ] + pre.reverse().map_values(|d: usize| hex_char(d as u8)));
            assert(dec_str(m as nat) == dec_str((m / 10) as nat).push(hex_char((m % 10) as u8)));
            assert(dec_str((m / 10) as nat) + digits@.reverse().map_values(
                |d: usize| hex_char(d as u8),
            ) =~= dec_str(m as nat) + pre.reverse().map_values(|d: usize| hex_char(d as u8)));
        }
        m = m / 10;
    }
    let ghost pre = digits@;
    digits.push(m as usize);
    proof {
        assert(digits@.reverse() =~= seq![m as usize] + pre.reverse());
        assert(digits@.reverse().map_values(|d: usize| hex_char(d as u8)) =~= seq![
            hex_char(m as u8),
        ] + pre.reverse().map_values(|d: usize| hex_char(d as u8)));
        assert(dec_str(m as nat) =~= seq![hex_char(m as u8)]);
        assert(dec_str(n as nat) =~= digits@.reverse().map_values(|d: usize| hex_char(d as u8)));
    }
    let ghost chars = digits@.reverse().map_values(|d: usize| hex_char(d as u8));
    let len = digits.len();
    let mut j = len;
    while j > 0
        invariant
            len == digits@.len(),
            j <= len,
            chars == digits@.reverse().map_values(|d: usize| hex_char(d as u8)),
            forall|k: int| 0 <= k < digits@.len() ==> #[trigger] digits@[k] < 10,
            out@ == base + chars.take(len - j),
        decreases j,
    {
        let d = digits[j - 1];
        let table = "0123456789ABCDEF";
        proof {
            reveal_strlit("0123456789ABCDEF");
            assert(is_ascii_chars(table@));
        }
        out.append(table.substring_ascii(d, d + 1));
        proof {
            assert(table@.subrange(d as int, d as int + 1) =~= seq![hex_char(d as u8)]);
            assert(chars[len - j] == hex_char(digits@[j - 1] as u8));
            assert(chars.take(len - j + 1) =~= chars.take(len - j).push(chars[len - j]));
        }
        j = j - 1;
    }
    proof {
        assert(chars.take(len as int) =~= chars);
    }
}

/// Appends `%` and two uppercase hex digits for one byte.
fn append_hex(out: &mut String, b: u8)
    ensures
        final(out)@ == old(out)@ + percent_encoded(b),
{
    let table = "0123456789ABCDEF";
    proof {
        reveal_strlit("0123456789ABCDEF");
        reveal_strlit("%");
        assert(is_ascii_chars(table@));
        assert(b >> 4 == b / 16) by (bit_vector);
        assert(b & 0x0f == b % 16) by (bit_vector);
        assert(b / 16 < 16 && b % 16 < 16);
    }
    out.append("%");
    let hi = (b >> 4) as usize;
    let lo = (b & 0x0f) as usize;
    out.append(table.substring_ascii(hi, hi + 1));
    out.append(table.substring_ascii(lo, lo + 1));
    proof {
        assert(table@.subrange(hi as int, hi as int + 1) =~= seq![hex_char(b / 16)]);
        assert(table@.subrange(lo as int, lo as int + 1) =~= seq![hex_char(b % 16)]);
        assert("%"@ =~= seq!['%']);
        assert(final(out)@ =~= old(out)@ + percent_encoded(b));
    }
}

/// Whether form-urlencoding keeps this character as it stands.
fn is_unreserved(c: char) -> (r: bool)
    ensures
        r == unreserved(c),
{
    let u = c as u32;
    u == 0x2a || u == 0x2d || u == 0x2e || u == 0x5f || (0x30 <= u && u <= 0x39) || (0x41 <= u
        && u <= 0x5a) || (0x61 <= u && u <= 0x7a)
}

/// Appends the form-urlencoding of the single character held by `piece`.
fn append_serialized_char(out: &mut String, piece: &str)
    requires
        piece@.len() == 1,
    ensures
        final(out)@ == old(out)@ + serialized_char(piece@[0]),
{
    let c = piece.get_char(0);
    if c == ' ' {
        out.append("+");
        proof {
            reveal_strlit("+");
            assert(final(out)@ =~= old(out)@ + serialized_char(c));
        }
    } else if is_unreserved(c) {
        out.append(piece);
        proof {
            assert(piece@ =~= seq![c]);
            assert(final(out)@ =~= old(out)@ + serialized_char(c));
        }
    } else {
        let ghost base = out@;
        let bytes = piece.as_bytes_vec();
        proof {
            assert(piece@ =~= seq![c]);
        }
        let ghost f = |b: u8| percent_encoded(b);
        let mut i: usize = 0;
        while i < bytes.len()
            invariant
                bytes@ == encode_utf8(seq![c]),
                i <= bytes@.len(),
                out@ == base + bytes@.take(i as int).flat_map(f),
                f == (|b: u8| percent_encoded(b)),
            decreases bytes@.len() - i,
        {
            append_hex(out, bytes[i]);
            proof {
                bytes@.lemma_flat_map_take_append(f, i as int);
            }
            i += 1;
        }
        proof {
            assert(bytes@.take(bytes@.len() as int) =~= bytes@);
            assert(final(out)@ =~= old(out)@ + serialized_char(c));
        }
    }
}

/// Appends the full encoding of `s` (cleaning, then form-urlencoding).
pub fn append_encoded(out: &mut String, s: &str)
    ensures
        final(out)@ == old(out)@ + encoded(s@),
{
    let ghost base = out@;
    let n = s.unicode_len();
    let mut i: usize = 0;
    while i < n
        invariant
            n == s@.len(),
            i <= n,
            out@ == base + encoded(s@.take(i as int)),
        decreases n - i,
    {
        let c = s.get_char(i);
        let ghost pre = out@;
        if c == '"' || c == '\'' || c == '\\' {
            proof {
                assert(serialized(cleaned_char(c)) =~= Seq::<char>::empty());
            }
        } else if c == ' ' {
            out.append("%2520");
            proof {
                lemma_space_encoding();
            }
        } else {
            let piece = s.substring_char(i, i + 1);
            proof {
                assert(piece@ =~= seq![c]);
            }
            append_serialized_char(out, piece);
            proof {
                assert(cleaned_char(c) =~= seq![c]);
                cleaned_char(c).lemma_flat_map_singleton(|x: char| serialized_char(x));
            }
        }
        proof {
            s@.lemma_flat_map_take_append(|x: char| cleaned_char(x), i as int);
            lemma_serialized_concat(cleaned(s@.take(i as int)), cleaned_char(c));
            assert(out@ =~= pre + serialized(cleaned_char(c)));
            assert(out@ =~= base + encoded(s@.take(i as int + 1)));
        }
        i += 1;
    }
    proof {
        assert(s@.take(n as int) =~= s@);
    }
}

/// The encoding of one space: cleaning yields `%20`, whose form-urlencoding
/// is `%2520` (the `%` itself is percent-encoded).
proof fn lemma_space_encoding()
    ensures
        serialized(cleaned_char(' ')) == "%2520"@,
{
    reveal_strlit("%2520");
    reveal_strlit("0123456789ABCDEF");
    let pc = seq!['%', '2', '0'];
    assert(cleaned_char(' ') =~= pc);
    lemma_serialized_concat(seq!['%'], seq!['2', '0']);
    lemma_serialized_concat(seq!['2'], seq!['0']);
    assert(pc =~= seq!['%'] + (seq!['2'] + seq!['0']));
    seq!['%'].lemma_flat_map_singleton(|c: char| serialized_char(c));
    seq!['2'].lemma_flat_map_singleton(|c: char| serialized_char(c));
    seq!['0'].lemma_flat_map_singleton(|c: char| serialized_char(c));
    lemma_pct_ascii('%');
    assert(serialized_char('2') =~= seq!['2']);
    assert(serialized_char('0') =~= seq!['0']);
    assert('%' as u8 == 37);
    assert(hex_char(2) == '2');
    assert(hex_char(5) == '5');
    assert(percent_encoded(37) =~= seq!['%', '2', '5']);
    assert(serialized_char('%') =~= seq!['%', '2', '5']);
    assert(serialized(seq!['2'] + seq!['0']) =~= seq!['2', '0']);
    assert(serialized(pc) =~= seq!['%', '2', '5'] + seq!['2', '0']);
    assert("%2520"@ =~= seq!['%', '2', '5', '2', '0']);
    assert(serialized(cleaned_char(' ')) =~= "%2520"@);
}

/// Whether `c` is an uppercase hex digit (the only kind this encoder emits).
pub open spec fn is_hex_digit(c: char) -> bool {
    ('0' <= c && c <= '9') || ('A' <= c && c <= 'F')
}

/// The value of an uppercase hex digit (zero for anything else).
pub open spec fn hex_val(c: char) -> u8 {
    if '0' <= c && c <= '9' {
        (c as u8 - '0' as u8) as u8
    } else if 'A' <= c && c <= 'F' {
        (c as u8 - 'A' as u8 + 10) as u8
    } else {
        0
    }
}

/// The server-side decoding of a form-urlencoded text, as the standard
/// decoder performs it: `+` is a space, `%` followed by two hex digits is
/// that byte, and any other character stands for its own (ASCII) byte.
pub open spec fn form_decoded(s: Seq<char>) -> Seq<u8>
    decreases s.len(),
{
    if s.len() == 0 {
        Seq::<u8>::empty()
    } else if s[0] == '+' {
        seq![32u8] + form_decoded(s.drop_first())
    } else if s[0] == '%' && s.len() >= 3 && is_hex_digit(s[1]) && is_hex_digit(s[2]) {
        seq![(hex_val(s[1]) * 16 + hex_val(s[2])) as u8] + form_decoded(s.skip(3))
    } else {
        seq![s[0] as u8] + form_decoded(s.drop_first())
    }
}

/// Hex digits decode back to their value.
proof fn lemma_hex_char_val(n: u8)
    requires
        n < 16,
    ensures
        is_hex_digit(hex_char(n)),
        hex_val(hex_char(n)) == n,
{
    reveal_strlit("0123456789ABCDEF");
}

/// The `%XX` forms of a byte sequence, followed by anything, decode to those
/// bytes followed by the decoding of the rest.
proof fn lemma_decode_pct_bytes(bs: Seq<u8>, t: Seq<char>)
    ensures
        form_decoded(bs.flat_map(|b: u8| percent_encoded(b)) + t) == bs + form_decoded(t),
    decreases bs.len(),
{
    reveal_strlit("0123456789ABCDEF");
    let f = |b: u8| percent_encoded(b);
    if bs.len() == 0 {
        assert(bs.flat_map(f) =~= Seq::<char>::empty());
        assert(bs.flat_map(f) + t =~= t);
        assert(bs + form_decoded(t) =~= form_decoded(t));
    } else {
        let b = bs[0];
        let rest = bs.drop_first();
        assert(bs =~= seq![b] + rest);
        lemma_flat_map_concat(seq![b], rest, f);
        seq![b].lemma_flat_map_singleton(f);
        let s = bs.flat_map(f) + t;
        assert(s =~= percent_encoded(b) + (rest.flat_map(f) + t));
        lemma_hex_char_val(b / 16);
        lemma_hex_char_val(b % 16);
        assert(s[0] == '%' && s.len() >= 3);
        assert(s[1] == hex_char(b / 16) && s[2] == hex_char(b % 16));
        assert(hex_char(b / 16) != '+' && hex_char(b / 16) != '%');
        assert(hex_val(s[1]) * 16 + hex_val(s[2]) == b);
        assert(s.skip(3) =~= rest.flat_map(f) + t);
        lemma_decode_pct_bytes(rest, t);
        assert(form_decoded(s) =~= bs + form_decoded(t));
    }
}

/// Flat-mapping distributes over concatenation.
proof fn lemma_flat_map_concat(a: Seq<u8>, b: Seq<u8>, f: spec_fn(u8) -> Seq<char>)
    ensures
        (a + b).flat_map(f) == a.flat_map(f) + b.flat_map(f),
    decreases b.len(),
{
    if b.len() == 0 {
        assert(a + b =~= a);
        assert(b.flat_map(f) =~= Seq::<char>::empty());
        assert((a + b).flat_map(f) =~= a.flat_map(f) + b.flat_map(f));
    } else {
        let b0 = b.drop_last();
        lemma_flat_map_concat(a, b0, f);
        assert(a + b =~= (a + b0).push(b.last()));
        (a + b0).lemma_flat_map_push(f, b.last());
        b0.lemma_flat_map_push(f, b.last());
        assert(b =~= b0.push(b.last()));
        assert((a + b).flat_map(f) =~= a.flat_map(f) + b.flat_map(f));
    }
}

/// One character's form-urlencoding, followed by anything, decodes to the
/// character's UTF-8 bytes followed by the decoding of the rest.
proof fn lemma_decode_serialized_char(c: char, t: Seq<char>)
    ensures
        form_decoded(serialized_char(c) + t) == encode_utf8(seq![c]) + form_decoded(t),
{
    if c == ' ' {
        let s = serialized_char(c) + t;
        assert(s[0] == '+');
        assert(s.drop_first() =~= t);
        assert(is_ascii_chars(seq![c]));
        is_ascii_chars_encode_utf8(seq![c]);
        assert(encode_utf8(seq![c]) =~= seq![32u8]);
        assert(form_decoded(s) =~= encode_utf8(seq![c]) + form_decoded(t));
    } else if unreserved(c) {
        let s = serialized_char(c) + t;
        assert(s[0] == c);
        assert(c != '+' && c != '%');
        assert(s.drop_first() =~= t);
        assert(is_ascii_chars(seq![c]));
        is_ascii_chars_encode_utf8(seq![c]);
        assert(encode_utf8(seq![c]) =~= seq![c as u8]);
        assert(form_decoded(s) =~= encode_utf8(seq![c]) + form_decoded(t));
    } else {
        lemma_decode_pct_bytes(encode_utf8(seq![c]), t);
    }
}

/// Law: the standard form-urlencoded decoding inverts this encoder exactly —
/// decoding a form-urlencoded text yields the UTF-8 bytes of the text that
/// was encoded, so nothing is double-escaped and nothing is lost.
pub proof fn lemma_decode_inverts_serialized(s: Seq<char>)
    ensures
        form_decoded(serialized(s)) == encode_utf8(s),
    decreases s.len(),
{
    if s.len() == 0 {
        assert(serialized(s) =~= Seq::<char>::empty());
        assert(form_decoded(serialized(s)) =~= encode_utf8(s));
    } else {
        let c = s[0];
        let rest = s.drop_first();
        assert(s =~= seq![c] + rest);
        lemma_serialized_concat(seq![c], rest);
        seq![c].lemma_flat_map_singleton(|x: char| serialized_char(x));
        assert(serialized(s) =~= serialized_char(c) + serialized(rest));
        lemma_decode_serialized_char(c, serialized(rest));
        lemma_decode_inverts_serialized(rest);
        assert(encode_utf8(s) == encode_scalar(c as u32) + encode_utf8(rest));
        assert(seq![c].drop_first() =~= Seq::<char>::empty());
        assert(encode_utf8(Seq::<char>::empty()) =~= Seq::<u8>::empty());
        assert(encode_utf8(seq![c]) =~= encode_scalar(c as u32));
        assert(form_decoded(serialized(s)) =~= encode_utf8(s));
    }
}

/// Law: decoding a fully encoded query component yields the UTF-8 bytes of
/// the cleaned text (the text itself where it holds no space, quote or
/// backslash), so the server reads back the literal filter value.
pub proof fn lemma_decode_inverts_encoded(s: Seq<char>)
    ensures
        form_decoded(encoded(s)) == encode_utf8(cleaned(s)),
{
    lemma_decode_inverts_serialized(cleaned(s));
}

/// For an ASCII character outside the unreserved set (and not a space), the
/// form-urlencoding is the `%XX` form of its single UTF-8 byte.
pub proof fn lemma_pct_ascii(c: char)
    requires
        c != ' ',
        !unreserved(c),
        c <= '\u{7f}',
    ensures
        serialized_char(c) == percent_encoded(c as u8),
{
    let s = seq![c];
    assert(is_ascii_chars(s));
    is_ascii_chars_encode_utf8(s);
    assert(encode_utf8(s) =~= seq![c as u8]);
    encode_utf8(s).lemma_flat_map_singleton(|b: u8| percent_encoded(b));
    assert(serialized_char(c) =~= percent_encoded(c as u8));
}

} // verus!
