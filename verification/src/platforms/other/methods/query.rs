//! The query string of a push request: the configured parameters as
//! `name=value` pairs joined by `&`, each side form-urlencoded.
use vstd::prelude::*;
use vstd::utf8::{encode_scalar, encode_utf8};
use crate::text::string_from_chars;

verus! {

/// Bytes that form-urlencoding keeps as they are: ASCII letters and digits,
/// and `*`, `-`, `.`, `_`.
pub open spec fn is_unreserved(b: u8) -> bool {
    ||| 48 <= b <= 57
    ||| 65 <= b <= 90
    ||| 97 <= b <= 122
    ||| b == 42 || b == 45 || b == 46 || b == 95
}

/// The upper-case hexadecimal digit of `n` (below 16).
pub open spec fn hex_char(n: u8) -> char {
    if n < 10 {
        (48 + n) as char
    } else {
        (55 + n) as char
    }
}

/// One byte form-urlencoded: kept when unreserved, `+` for a space, else `%`
/// and two upper-case hexadecimal digits.
pub open spec fn form_encoded_byte(b: u8) -> Seq<char> {
    if is_unreserved(b) {
        seq![b as char]
    } else if b == 32 {
        seq!['+']
    } else {
        seq!['%', hex_char(b / 16), hex_char(b % 16)]
    }
}

/// The bytes `bytes` form-urlencoded, one after another.
pub open spec fn form_encoded(bytes: Seq<u8>) -> Seq<char>
    decreases bytes.len(),
{
    if bytes.len() == 0 {
        Seq::empty()
    } else {
        form_encoded(bytes.drop_last()) + form_encoded_byte(bytes.last())
    }
}

/// A text form-urlencoded: its UTF-8 bytes encoded.
pub open spec fn form_encoded_text(s: Seq<char>) -> Seq<char> {
    form_encoded(encode_utf8(s))
}

/// One parameter in the query: `name=value`, both encoded.
pub open spec fn pair_text(p: (Seq<char>, Seq<char>)) -> Seq<char> {
    form_encoded_text(p.0) + seq!['='] + form_encoded_text(p.1)
}

/// All parameters, in order, joined by `&`.
pub open spec fn query_text(pairs: Seq<(Seq<char>, Seq<char>)>) -> Seq<char>
    decreases pairs.len(),
{
    if pairs.len() == 0 {
        Seq::empty()
    } else if pairs.len() == 1 {
        pair_text(pairs[0])
    } else {
        query_text(pairs.drop_last()) + seq!['&'] + pair_text(pairs.last())
    }
}

/// The views of name/value pairs.
pub open spec fn pair_views(pairs: Seq<(String, String)>) -> Seq<(Seq<char>, Seq<char>)> {
    pairs.map_values(|p: (String, String)| (p.0@, p.1@))
}

fn hex_digit(n: u8) -> (c: char)
    requires
        n < 16,
    ensures
        c == hex_char(n),
{
    if n < 10 {
        (48 + n) as char
    } else {
        (55 + n) as char
    }
}

fn push_encoded(out: &mut Vec<char>, s: &str)
    ensures
        final(out)@ == old(out)@ + form_encoded_text(s@),
{
    let bytes = s.as_bytes();
    let mut i: usize = 0;
    while i < bytes.len()
        invariant
            i <= bytes@.len(),
            bytes@ == encode_utf8(s@),
            out@ == old(out)@ + form_encoded(bytes@.take(i as int)),
        decreases bytes.len() - i,
    {
        let b = bytes[i];
        let ghost before = out@;
        if (48 <= b && b <= 57) || (65 <= b && b <= 90) || (97 <= b && b <= 122) || b == 42
            || b == 45 || b == 46 || b == 95 {
            out.push(b as char);
        } else if b == 32 {
            out.push('+');
        } else {
            out.push('%');
            out.push(hex_digit(b / 16));
            out.push(hex_digit(b % 16));
        }
        assert(out@ =~= before + form_encoded_byte(b));
        assert(bytes@.take(i + 1).drop_last() =~= bytes@.take(i as int));
        i = i + 1;
    }
    assert(bytes@.take(i as int) =~= bytes@);
}

/// The query string of the parameters `pairs`: each pair as `name=value`
/// with both sides form-urlencoded (UTF-8 bytes; letters, digits and `*-._`
/// kept, a space as `+`, any other byte as `%XX`), joined by `&` in order.
pub fn query_string(pairs: &Vec<(String, String)>) -> (r: String)
    ensures
        r@ == query_text(pair_views(pairs@)),
{
    let ghost pv = pair_views(pairs@);
    let mut out: Vec<char> = Vec::new();
    let mut i: usize = 0;
    while i < pairs.len()
        invariant
            i <= pairs@.len(),
            pv == pair_views(pairs@),
            out@ == query_text(pv.take(i as int)),
        decreases pairs.len() - i,
    {
        let ghost before = out@;
        if i > 0 {
            out.push('&');
        }
        push_encoded(&mut out, pairs[i].0.as_str());
        out.push('=');
        push_encoded(&mut out, pairs[i].1.as_str());
        proof {
            let t = pv.take(i + 1);
            assert(t.drop_last() =~= pv.take(i as int));
            assert(t.last() == (pairs@[i as int].0@, pairs@[i as int].1@));
            if i == 0 {
                assert(t.len() == 1);
                assert(out@ =~= pair_text(t[0]));
            } else {
                assert(out@ =~= before + seq!['&'] + pair_text(t.last()));
            }
        }
        i = i + 1;
    }
    assert(pv.take(i as int) =~= pv);
    string_from_chars(&out)
}

/// The target URL of a push request: the URL itself when there are no
/// parameters, else the URL, `?`, and the query string.
pub open spec fn url_with_query_text(url: Seq<char>, pairs: Seq<(Seq<char>, Seq<char>)>) -> Seq<char> {
    if pairs.len() == 0 {
        url
    } else {
        url + seq!['?'] + query_text(pairs)
    }
}

/// The target URL with the configured parameters as its query string.
pub fn url_with_query(url: &str, pairs: &Vec<(String, String)>) -> (r: String)
    ensures
        r@ == url_with_query_text(url@, pair_views(pairs@)),
{
    if pairs.len() == 0 {
        return url.to_string();
    }
    let q = query_string(pairs);
    let mut s = url.to_string();
    s.append("?");
    s.append(q.as_str());
    proof { reveal_strlit("?"); }
    assert(s@ =~= url@ + seq!['?'] + q@);
    s
}

/// The number that a hexadecimal digit written by `hex_char` stands for.
pub open spec fn hex_value(c: char) -> int {
    if (c as u32) <= 57 {
        (c as u32) - 48
    } else {
        (c as u32) - 55
    }
}

/// Form-urldecoding, read from the front: `%` and two hexadecimal digits is
/// the byte they spell, `+` is a space, any other character is its own code.
pub open spec fn form_decoded(s: Seq<char>) -> Seq<u8>
    decreases s.len(),
{
    if s.len() == 0 {
        Seq::empty()
    } else if s[0] == '%' && s.len() >= 3 {
        seq![(hex_value(s[1]) * 16 + hex_value(s[2])) as u8] + form_decoded(s.skip(3))
    } else if s[0] == '+' {
        seq![32u8] + form_decoded(s.skip(1))
    } else {
        seq![s[0] as u8] + form_decoded(s.skip(1))
    }
}

proof fn lemma_encoded_concat(a: Seq<u8>, b: Seq<u8>)
    ensures
        form_encoded(a + b) == form_encoded(a) + form_encoded(b),
    decreases b.len(),
{
    if b.len() == 0 {
        assert(a + b =~= a);
        assert(form_encoded(a) + form_encoded(b) =~= form_encoded(a));
    } else {
        lemma_encoded_concat(a, b.drop_last());
        assert((a + b).drop_last() =~= a + b.drop_last());
        assert((a + b).last() == b.last());
        assert(form_encoded(a + b) =~= form_encoded(a) + form_encoded(b));
    }
}

proof fn lemma_hex_round_trip(n: u8)
    requires
        n < 16,
    ensures
        hex_value(hex_char(n)) == n,
{
}

/// Decoding gives back the bytes that were encoded, so two different byte
/// strings never encode alike: letters keep their case, and every byte is
/// recovered.
pub proof fn form_decoding_undoes_encoding(bytes: Seq<u8>)
    ensures
        form_decoded(form_encoded(bytes)) == bytes,
    decreases bytes.len(),
{
    if bytes.len() > 0 {
        let b = bytes[0];
        let rest = bytes.drop_first();
        assert(bytes =~= seq![b] + rest);
        lemma_encoded_concat(seq![b], rest);
        assert(seq![b].drop_last() =~= Seq::<u8>::empty());
        assert(seq![b].last() == b);
        assert(form_encoded(seq![b].drop_last()) =~= Seq::<char>::empty());
        assert(form_encoded(seq![b]) =~= form_encoded_byte(b));
        let e = form_encoded_byte(b) + form_encoded(rest);
        form_decoding_undoes_encoding(rest);
        if is_unreserved(b) {
            assert(e.skip(1) =~= form_encoded(rest));
            assert(e[0] == b as char);
            assert((b as char) as u8 == b);
        } else if b == 32 {
            assert(e.skip(1) =~= form_encoded(rest));
        } else {
            assert(e.skip(3) =~= form_encoded(rest));
            lemma_hex_round_trip(b / 16);
            lemma_hex_round_trip(b % 16);
            assert((b / 16) * 16 + b % 16 == b);
        }
        assert(form_decoded(e) =~= seq![b] + rest);
    }
}

/// Encoding is one to one: texts whose encodings agree are the same.
pub proof fn form_encoding_is_injective(a: Seq<u8>, b: Seq<u8>)
    requires
        form_encoded(a) == form_encoded(b),
    ensures
        a == b,
{
    form_decoding_undoes_encoding(a);
    form_decoding_undoes_encoding(b);
}

/// An encoded text holds no `&` and no `=`, so the pairs of a query string
/// and the two sides of each pair are told apart without ambiguity.
pub proof fn encoded_text_has_no_separators(bytes: Seq<u8>)
    ensures
        forall|j: int| 0 <= j < form_encoded(bytes).len()
            ==> #[trigger] form_encoded(bytes)[j] != '&' && form_encoded(bytes)[j] != '=',
    decreases bytes.len(),
{
    if bytes.len() > 0 {
        encoded_text_has_no_separators(bytes.drop_last());
        let b = bytes.last();
        let front = form_encoded(bytes.drop_last());
        let tok = form_encoded_byte(b);
        assert(form_encoded(bytes) == front + tok);
        assert forall|j: int| 0 <= j < tok.len() implies tok[j] != '&' && tok[j] != '=' by {
            if !is_unreserved(b) && b != 32 {
                if j == 1 {
                    lemma_hex_round_trip(b / 16);
                } else if j == 2 {
                    lemma_hex_round_trip(b % 16);
                }
            }
        }
        assert forall|j: int| 0 <= j < form_encoded(bytes).len()
            implies #[trigger] form_encoded(bytes)[j] != '&' && form_encoded(bytes)[j] != '=' by {
            if j < front.len() {
                assert(form_encoded(bytes)[j] == front[j]);
            } else {
                assert(form_encoded(bytes)[j] == tok[j - front.len()]);
            }
        }
    }
}

/// Characters that a query keeps as written: ASCII letters and digits, and
/// `*`, `-`, `.`, `_`.
pub open spec fn is_plain_char(c: char) -> bool {
    ||| '0' <= c <= '9'
    ||| 'A' <= c <= 'Z'
    ||| 'a' <= c <= 'z'
    ||| c == '*' || c == '-' || c == '.' || c == '_'
}

proof fn lemma_low_bits(x: u32)
    requires
        x <= 0x7F,
    ensures
        x & 0x7F == x,
{
    assert(x & 0x7F == x) by (bit_vector)
        requires x <= 0x7F;
}

proof fn lemma_ascii_utf8(s: Seq<char>)
    requires
        forall|j: int| 0 <= j < s.len() ==> (s[j] as u32) <= 0x7F,
    ensures
        encode_utf8(s) == s.map_values(|c: char| (c as u32) as u8),
    decreases s.len(),
{
    if s.len() > 0 {
        let rest = s.drop_first();
        assert forall|j: int| 0 <= j < rest.len() implies (rest[j] as u32) <= 0x7F by {
            assert(rest[j] == s[j + 1]);
        }
        lemma_ascii_utf8(rest);
        lemma_low_bits(s[0] as u32);
        assert(encode_scalar(s[0] as u32) =~= seq![(s[0] as u32) as u8]);
        assert(encode_utf8(s) =~= s.map_values(|c: char| (c as u32) as u8));
    }
}

proof fn lemma_unreserved_bytes_kept(bytes: Seq<u8>)
    requires
        forall|j: int| 0 <= j < bytes.len() ==> is_unreserved(bytes[j]),
    ensures
        form_encoded(bytes) == bytes.map_values(|b: u8| b as char),
    decreases bytes.len(),
{
    if bytes.len() > 0 {
        let init = bytes.drop_last();
        assert forall|j: int| 0 <= j < init.len() implies is_unreserved(init[j]) by {
            assert(init[j] == bytes[j]);
        }
        lemma_unreserved_bytes_kept(init);
        assert(is_unreserved(bytes[bytes.len() - 1]));
        assert(form_encoded(bytes) =~= bytes.map_values(|b: u8| b as char));
    }
}

/// A text made only of ASCII letters, digits and `*`, `-`, `.`, `_` is
/// written into a query exactly as it is: in particular letters keep their
/// case.
pub proof fn plain_text_is_kept(s: Seq<char>)
    requires
        forall|j: int| 0 <= j < s.len() ==> is_plain_char(#[trigger] s[j]),
    ensures
        form_encoded_text(s) == s,
{
    assert forall|j: int| 0 <= j < s.len() implies (s[j] as u32) <= 0x7F by {
        assert(is_plain_char(s[j]));
    }
    lemma_ascii_utf8(s);
    let bytes = s.map_values(|c: char| (c as u32) as u8);
    assert forall|j: int| 0 <= j < bytes.len() implies is_unreserved(bytes[j]) by {
        assert(is_plain_char(s[j]));
    }
    lemma_unreserved_bytes_kept(bytes);
    assert forall|j: int| 0 <= j < s.len() implies ((s[j] as u32) as u8) as char == s[j] by {
        assert(is_plain_char(s[j]));
    }
    assert(form_encoded_text(s) =~= s);
}

/// The index of the last `c` in `s`, or `-1` when there is none.
pub open spec fn last_index_of(s: Seq<char>, c: char) -> int
    decreases s.len(),
{
    if s.len() == 0 {
        -1
    } else if s.last() == c {
        s.len() - 1
    } else {
        last_index_of(s.drop_last(), c)
    }
}

/// The fields of a query string: the pieces between its `&` separators.
pub open spec fn query_fields(q: Seq<char>) -> Seq<Seq<char>>
    decreases q.len(),
{
    let k = last_index_of(q, '&');
    if 0 <= k < q.len() {
        query_fields(q.take(k)).push(q.skip(k + 1))
    } else {
        seq![q]
    }
}

/// One field read back: the decoded bytes before and after its `=`.
pub open spec fn field_pair(f: Seq<char>) -> (Seq<u8>, Seq<u8>) {
    let k = last_index_of(f, '=');
    if 0 <= k < f.len() {
        (form_decoded(f.take(k)), form_decoded(f.skip(k + 1)))
    } else {
        (form_decoded(f), Seq::empty())
    }
}

proof fn lemma_last_index_absent(s: Seq<char>, c: char)
    requires
        forall|j: int| 0 <= j < s.len() ==> s[j] != c,
    ensures
        last_index_of(s, c) == -1,
    decreases s.len(),
{
    if s.len() > 0 {
        assert(s.last() != c);
        lemma_last_index_absent(s.drop_last(), c);
    }
}

proof fn lemma_last_index_at(a: Seq<char>, c: char, b: Seq<char>)
    requires
        forall|j: int| 0 <= j < b.len() ==> b[j] != c,
    ensures
        last_index_of(a + seq![c] + b, c) == a.len(),
    decreases b.len(),
{
    let whole = a + seq![c] + b;
    if b.len() > 0 {
        assert(whole.last() == b.last());
        assert(whole.drop_last() =~= a + seq![c] + b.drop_last());
        lemma_last_index_at(a, c, b.drop_last());
    }
}

proof fn lemma_text_has_no_separators(s: Seq<char>)
    ensures
        forall|j: int| 0 <= j < form_encoded_text(s).len()
            ==> form_encoded_text(s)[j] != '&' && form_encoded_text(s)[j] != '=',
{
    encoded_text_has_no_separators(encode_utf8(s));
}

proof fn lemma_pair_has_no_ampersand(p: (Seq<char>, Seq<char>))
    ensures
        forall|j: int| 0 <= j < pair_text(p).len() ==> pair_text(p)[j] != '&',
{
    lemma_text_has_no_separators(p.0);
    lemma_text_has_no_separators(p.1);
    let a = form_encoded_text(p.0);
    let b = form_encoded_text(p.1);
    assert forall|j: int| 0 <= j < pair_text(p).len() implies pair_text(p)[j] != '&' by {
        if j < a.len() {
            assert(pair_text(p)[j] == a[j]);
        } else if j > a.len() {
            assert(pair_text(p)[j] == b[j - a.len() - 1]);
        }
    }
}

proof fn lemma_fields_of_query(pairs: Seq<(Seq<char>, Seq<char>)>)
    requires
        pairs.len() > 0,
    ensures
        query_fields(query_text(pairs)) == pairs.map_values(|p: (Seq<char>, Seq<char>)| pair_text(p)),
    decreases pairs.len(),
{
    let q = query_text(pairs);
    lemma_pair_has_no_ampersand(pairs.last());
    if pairs.len() == 1 {
        lemma_last_index_absent(q, '&');
        assert(query_fields(q) =~= pairs.map_values(|p: (Seq<char>, Seq<char>)| pair_text(p)));
    } else {
        let init = pairs.drop_last();
        let front = query_text(init);
        lemma_fields_of_query(init);
        lemma_last_index_at(front, '&', pair_text(pairs.last()));
        assert(q.take(front.len() as int) =~= front);
        assert(q.skip(front.len() as int + 1) =~= pair_text(pairs.last()));
        assert(query_fields(q) =~= pairs.map_values(|p: (Seq<char>, Seq<char>)| pair_text(p)));
    }
}

proof fn lemma_field_of_pair(p: (Seq<char>, Seq<char>))
    ensures
        field_pair(pair_text(p)) == (encode_utf8(p.0), encode_utf8(p.1)),
{
    let a = form_encoded_text(p.0);
    let b = form_encoded_text(p.1);
    lemma_text_has_no_separators(p.1);
    lemma_last_index_at(a, '=', b);
    let f = pair_text(p);
    assert(f.take(a.len() as int) =~= a);
    assert(f.skip(a.len() as int + 1) =~= b);
    form_decoding_undoes_encoding(encode_utf8(p.0));
    form_decoding_undoes_encoding(encode_utf8(p.1));
}

/// A query string reads back as its parameters: split at `&` it has one field
/// per pair, in order, and each field split at `=` and decoded gives back the
/// UTF-8 bytes of that pair's name and value.
pub proof fn query_reads_back_as_its_pairs(pairs: Seq<(Seq<char>, Seq<char>)>)
    requires
        pairs.len() > 0,
    ensures
        query_fields(query_text(pairs)).len() == pairs.len(),
        forall|i: int| 0 <= i < pairs.len()
            ==> #[trigger] field_pair(query_fields(query_text(pairs))[i])
                == (encode_utf8(pairs[i].0), encode_utf8(pairs[i].1)),
{
    lemma_fields_of_query(pairs);
    assert forall|i: int| 0 <= i < pairs.len()
        implies #[trigger] field_pair(query_fields(query_text(pairs))[i])
            == (encode_utf8(pairs[i].0), encode_utf8(pairs[i].1)) by {
        lemma_field_of_pair(pairs[i]);
    }
}

}
