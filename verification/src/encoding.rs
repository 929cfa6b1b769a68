//! Byte encodings used on the wire: `application/x-www-form-urlencoded`
//! escaping, unpadded URL-safe base64, and SHA-256 digests.
use base64::Engine;
use sha2::Digest;
use vstd::prelude::*;
use vstd::utf8::{decode_utf8, encode_utf8, is_ascii_chars, is_ascii_chars_encode_utf8, valid_utf8};

use crate::text::digit_char;

verus! {

/// Bytes that the form-urlencoded serializer copies through unchanged:
/// ASCII letters and digits and `*`, `-`, `.`, `_`.
pub open spec fn form_unchanged(b: u8) -> bool {
    ||| b == 42
    ||| b == 45
    ||| b == 46
    ||| 48 <= b <= 57
    ||| 65 <= b <= 90
    ||| b == 95
    ||| 97 <= b <= 122
}

/// Upper-case hexadecimal digit for `d < 16`.
pub open spec fn hex_upper(d: nat) -> char {
    if d < 10 {
        digit_char(d)
    } else {
        (d - 10 + 65) as char
    }
}

/// How one byte is written by the form-urlencoded serializer: unchanged bytes
/// as themselves, the space as `+`, anything else as `%` and two upper-case
/// hex digits.
pub open spec fn form_encode_byte(b: u8) -> Seq<char> {
    if form_unchanged(b) {
        seq![b as char]
    } else if b == 32 {
        seq!['+']
    } else {
        seq!['%', hex_upper((b / 16) as nat), hex_upper((b % 16) as nat)]
    }
}

/// The `application/x-www-form-urlencoded` byte serialization of `bytes`.
pub open spec fn form_urlencoded(bytes: Seq<u8>) -> Seq<char>
    decreases bytes.len(),
{
    if bytes.len() == 0 {
        seq![]
    } else {
        form_encode_byte(bytes[0]) + form_urlencoded(bytes.drop_first())
    }
}

/// Characters that may appear in form-urlencoded output.
pub open spec fn is_form_output_char(c: char) -> bool {
    ||| 'a' <= c <= 'z'
    ||| 'A' <= c <= 'Z'
    ||| '0' <= c <= '9'
    ||| c == '*'
    ||| c == '-'
    ||| c == '.'
    ||| c == '_'
    ||| c == '+'
    ||| c == '%'
}

/// Form-urlencoded text only holds letters, digits and `* - . _ + %`; in
/// particular it never holds the separators `&`, `=`, `?` or `#`, so an
/// encoded value cannot split a query string.
pub proof fn lemma_form_urlencoded_chars(bytes: Seq<u8>)
    ensures
        forall|k: int|
            0 <= k < form_urlencoded(bytes).len() ==> is_form_output_char(
                #[trigger] form_urlencoded(bytes)[k],
            ),
    decreases bytes.len(),
{
    if bytes.len() > 0 {
        let head = form_encode_byte(bytes[0]);
        let tail = bytes.drop_first();
        lemma_form_urlencoded_chars(tail);
        assert forall|k: int| 0 <= k < head.len() implies is_form_output_char(#[trigger] head[k]) by {
            let b = bytes[0];
            if !form_unchanged(b) && b != 32 {
                assert(b / 16 < 16 && b % 16 < 16);
            }
        }
        assert forall|k: int|
            0 <= k < form_urlencoded(bytes).len() implies is_form_output_char(
                #[trigger] form_urlencoded(bytes)[k],
            ) by {
            if k >= head.len() {
                assert(form_urlencoded(bytes)[k] == form_urlencoded(tail)[k - head.len()]);
            }
        }
    }
}

/// `url::form_urlencoded::byte_serialize` over the UTF-8 bytes of `s`.
#[verifier::external_body]
pub(crate) fn urlencode(s: &str) -> (r: String)
    ensures
        r@ == form_urlencoded(encode_utf8(s@)),
{
    url::form_urlencoded::byte_serialize(s.as_bytes()).collect()
}

/// The form-urlencoded text of a string: its UTF-8 bytes, serialized.
pub open spec fn form_component(s: Seq<char>) -> Seq<char> {
    form_urlencoded(encode_utf8(s))
}

/// An `application/x-www-form-urlencoded` query: each pair as its encoded
/// name, `=`, its encoded value, the pairs joined by `&`, in order.
pub open spec fn form_query(pairs: Seq<(Seq<char>, Seq<char>)>) -> Seq<char>
    decreases pairs.len(),
{
    if pairs.len() == 0 {
        seq![]
    } else {
        let sep = if pairs.len() > 1 {
            seq!['&']
        } else {
            seq![]
        };
        form_query(pairs.drop_last()) + sep + form_component(pairs.last().0) + seq!['=']
            + form_component(pairs.last().1)
    }
}

/// Appends one pair to a form-urlencoded query that already holds the pairs
/// `before`.
pub(crate) fn append_query_pair(
    out: &mut String,
    Ghost(before): Ghost<Seq<(Seq<char>, Seq<char>)>>,
    Ghost(prefix): Ghost<Seq<char>>,
    first: bool,
    name: &str,
    value: &str,
)
    requires
        old(out)@ == prefix + form_query(before),
        first == (before.len() == 0),
    ensures
        final(out)@ == prefix + form_query(before.push((name@, value@))),
{
    let ghost pairs = before.push((name@, value@));
    assert(pairs.drop_last() =~= before);
    if !first {
        out.append("&");
    }
    let n = urlencode(name);
    out.append(n.as_str());
    out.append("=");
    let v = urlencode(value);
    out.append(v.as_str());
    proof {
        reveal_strlit("&");
        reveal_strlit("=");
        assert(out@ =~= prefix + form_query(pairs));
    }
}

/// The URL-safe base64 alphabet (RFC 4648, section 5), index `v < 64`.
pub open spec fn b64url_char(v: int) -> char {
    if v < 26 {
        (v + 65) as char
    } else if v < 52 {
        (v - 26 + 97) as char
    } else if v < 62 {
        (v - 52 + 48) as char
    } else if v == 62 {
        '-'
    } else {
        '_'
    }
}

/// Unpadded URL-safe base64 of `b`: every three bytes become four characters,
/// a final pair of bytes three characters and a final single byte two.
pub open spec fn b64url(b: Seq<u8>) -> Seq<char>
    decreases b.len(),
{
    if b.len() == 0 {
        seq![]
    } else if b.len() == 1 {
        let b0 = b[0] as int;
        seq![b64url_char(b0 / 4), b64url_char((b0 % 4) * 16)]
    } else if b.len() == 2 {
        let b0 = b[0] as int;
        let b1 = b[1] as int;
        seq![b64url_char(b0 / 4), b64url_char((b0 % 4) * 16 + b1 / 16), b64url_char((b1 % 16) * 4)]
    } else {
        let b0 = b[0] as int;
        let b1 = b[1] as int;
        let b2 = b[2] as int;
        seq![
            b64url_char(b0 / 4),
            b64url_char((b0 % 4) * 16 + b1 / 16),
            b64url_char((b1 % 16) * 4 + b2 / 64),
            b64url_char(b2 % 64),
        ] + b64url(b.skip(3))
    }
}

/// Characters of the URL-safe base64 alphabet.
pub open spec fn is_b64url_char(c: char) -> bool {
    ||| 'A' <= c <= 'Z'
    ||| 'a' <= c <= 'z'
    ||| '0' <= c <= '9'
    ||| c == '-'
    ||| c == '_'
}

/// Unpadded base64 of `n` bytes has `ceil(4n / 3)` characters, all from the
/// URL-safe alphabet.
pub proof fn lemma_b64url_shape(b: Seq<u8>)
    ensures
        b64url(b).len() == (4 * b.len() + 2) / 3,
        forall|k: int| 0 <= k < b64url(b).len() ==> is_b64url_char(#[trigger] b64url(b)[k]),
    decreases b.len(),
{
    if b.len() >= 3 {
        let rest = b.skip(3);
        lemma_b64url_shape(rest);
        let b0 = b[0] as int;
        let b1 = b[1] as int;
        let b2 = b[2] as int;
        assert(b0 / 4 < 64);
        assert((b0 % 4) * 16 + b1 / 16 < 64);
        assert((b1 % 16) * 4 + b2 / 64 < 64);
        assert(b2 % 64 < 64);
        let head = seq![
            b64url_char(b0 / 4),
            b64url_char((b0 % 4) * 16 + b1 / 16),
            b64url_char((b1 % 16) * 4 + b2 / 64),
            b64url_char(b2 % 64),
        ];
        assert(b64url(b) == head + b64url(rest));
        assert forall|k: int| 0 <= k < b64url(b).len() implies is_b64url_char(#[trigger] b64url(b)[k]) by {
            if k >= 4 {
                assert(b64url(b)[k] == b64url(rest)[k - 4]);
            }
        }
    } else if b.len() == 2 {
        let b0 = b[0] as int;
        let b1 = b[1] as int;
        assert(b0 / 4 < 64);
        assert((b0 % 4) * 16 + b1 / 16 < 64);
        assert((b1 % 16) * 4 < 64);
    } else if b.len() == 1 {
        let b0 = b[0] as int;
        assert(b0 / 4 < 64);
        assert((b0 % 4) * 16 < 64);
    }
}

/// `base64::engine::general_purpose::URL_SAFE_NO_PAD.encode`: the unpadded
/// URL-safe base64 text of `bytes`. The engine panics when the encoded
/// length overflows `usize`; the bound keeps well clear of that.
#[verifier::external_body]
pub(crate) fn b64url_encode(bytes: &[u8]) -> (r: String)
    requires
        bytes@.len() <= usize::MAX / 2,
    ensures
        r@ == b64url(bytes@),
{
    base64::engine::general_purpose::URL_SAFE_NO_PAD.encode(bytes)
}

/// The SHA-256 digest of `data` (FIPS 180-4), as the `sha2` crate computes it.
pub uninterp spec fn sha256(data: Seq<u8>) -> Seq<u8>;

/// `sha2::Sha256::digest`: the 32-byte SHA-256 digest of `data`. The digest
/// itself is named, not stated.
#[verifier::external_body]
pub(crate) fn sha256_digest(data: &[u8]) -> (r: Vec<u8>)
    ensures
        r@ == sha256(data@),
        r@.len() == 32,
{
    sha2::Sha256::digest(data).to_vec()
}


/// Value of a hexadecimal digit of either case.
pub open spec fn hex_value(c: char) -> Option<int> {
    if '0' <= c <= '9' {
        Some((c as u32) - 48)
    } else if 'A' <= c <= 'F' {
        Some((c as u32) - 55)
    } else if 'a' <= c <= 'f' {
        Some((c as u32) - 87)
    } else {
        None
    }
}

/// The bytes a form-urlencoded text stands for: `+` is a space, `%` with two
/// hex digits is that byte, and any other character (a lone `%` included)
/// stands for its own UTF-8 bytes.
pub open spec fn form_unescape(s: Seq<char>) -> Seq<u8>
    decreases s.len(),
{
    if s.len() == 0 {
        seq![]
    } else if s[0] == '+' {
        seq![32u8] + form_unescape(s.drop_first())
    } else if s[0] == '%' && s.len() >= 3 && hex_value(s[1]) is Some && hex_value(s[2]) is Some {
        seq![(hex_value(s[1]).unwrap() * 16 + hex_value(s[2]).unwrap()) as u8] + form_unescape(
            s.skip(3),
        )
    } else {
        encode_utf8(seq![s[0]]) + form_unescape(s.drop_first())
    }
}

/// The text a form-urlencoded name or value decodes to; `None` where the
/// bytes are not UTF-8 (which a lossy decoder would patch with U+FFFD).
pub open spec fn form_decode_component(s: Seq<char>) -> Option<Seq<char>> {
    if valid_utf8(form_unescape(s)) {
        Some(decode_utf8(form_unescape(s)))
    } else {
        None
    }
}

proof fn lemma_unescape_one_byte(b: u8, t: Seq<char>)
    ensures
        form_unescape(form_encode_byte(b) + t) == seq![b] + form_unescape(t),
{
    let head = form_encode_byte(b);
    let s = head + t;
    if form_unchanged(b) {
        let c = b as char;
        assert(s[0] == c);
        assert(s.drop_first() =~= t);
        assert(is_ascii_chars(seq![c]));
        is_ascii_chars_encode_utf8(seq![c]);
        assert(encode_utf8(seq![c]) =~= seq![b]);
    } else if b == 32 {
        assert(s[0] == '+');
        assert(s.drop_first() =~= t);
    } else {
        let hi = (b / 16) as nat;
        let lo = (b % 16) as nat;
        assert(hi < 16 && lo < 16);
        assert(s[0] == '%' && s[1] == hex_upper(hi) && s[2] == hex_upper(lo));
        assert(hex_value(hex_upper(hi)) == Some(hi as int));
        assert(hex_value(hex_upper(lo)) == Some(lo as int));
        assert(s.skip(3) =~= t);
        assert(hi * 16 + lo == b);
    }
}

/// Unescaping undoes the form-urlencoded byte serialization.
pub proof fn lemma_form_unescape_inverts(bytes: Seq<u8>)
    ensures
        form_unescape(form_urlencoded(bytes)) == bytes,
    decreases bytes.len(),
{
    if bytes.len() > 0 {
        let tail = bytes.drop_first();
        lemma_unescape_one_byte(bytes[0], form_urlencoded(tail));
        lemma_form_unescape_inverts(tail);
        assert(seq![bytes[0]] + tail =~= bytes);
    }
}

/// Decoding a form-urlencoded component gives back the text encoded.
pub proof fn lemma_form_component_decodes(s: Seq<char>)
    ensures
        form_decode_component(form_component(s)) == Some(s),
{
    broadcast use vstd::utf8::encode_utf8_valid_utf8, vstd::utf8::encode_utf8_decode_utf8;

    lemma_form_unescape_inverts(encode_utf8(s));
}


/// A query text cut at every `&` into its sequences, in order; a text
/// without `&` is one sequence, and the empty text is one empty sequence.
pub open spec fn split_on_amp(q: Seq<char>) -> Seq<Seq<char>>
    decreases q.len(),
{
    if q.len() == 0 {
        seq![seq![]]
    } else {
        let init = split_on_amp(q.drop_last());
        if q.last() == '&' {
            init.push(seq![])
        } else {
            init.update(init.len() - 1, init.last().push(q.last()))
        }
    }
}

/// Position of the first `c` in `s`, or -1 when there is none.
pub open spec fn first_index_of(s: Seq<char>, c: char) -> int
    decreases s.len(),
{
    if s.len() == 0 {
        -1
    } else if s[0] == c {
        0
    } else {
        let r = first_index_of(s.drop_first(), c);
        if r < 0 {
            -1
        } else {
            r + 1
        }
    }
}

/// One name/value sequence: the name runs to the first `=`, the value is
/// the rest (empty when there is no `=`), both decoded.
pub open spec fn form_decode_pair(seg: Seq<char>) -> Option<(Seq<char>, Seq<char>)> {
    let i = first_index_of(seg, '=');
    let name = if i < 0 {
        seg
    } else {
        seg.take(i)
    };
    let value = if i < 0 {
        seq![]
    } else {
        seg.skip(i + 1)
    };
    match (form_decode_component(name), form_decode_component(value)) {
        (Some(n), Some(v)) => Some((n, v)),
        _ => None,
    }
}

/// The pairs of a list of sequences, skipping empty sequences.
pub open spec fn form_decode_segments(segs: Seq<Seq<char>>) -> Option<Seq<(Seq<char>, Seq<char>)>>
    decreases segs.len(),
{
    if segs.len() == 0 {
        Some(seq![])
    } else {
        match form_decode_segments(segs.drop_last()) {
            None => None,
            Some(init) => if segs.last().len() == 0 {
                Some(init)
            } else {
                match form_decode_pair(segs.last()) {
                    Some(p) => Some(init.push(p)),
                    None => None,
                }
            },
        }
    }
}

/// The `application/x-www-form-urlencoded` parse of a query text: cut at
/// `&`, empty sequences skipped, each sequence cut at its first `=`, and
/// names and values decoded.
pub open spec fn form_decode_query(q: Seq<char>) -> Option<Seq<(Seq<char>, Seq<char>)>> {
    form_decode_segments(split_on_amp(q))
}

proof fn lemma_split_nonempty(q: Seq<char>)
    ensures
        split_on_amp(q).len() >= 1,
    decreases q.len(),
{
    if q.len() > 0 {
        lemma_split_nonempty(q.drop_last());
    }
}

proof fn lemma_split_extend(z: Seq<char>, y: Seq<char>)
    requires
        forall|k: int| 0 <= k < y.len() ==> #[trigger] y[k] != '&',
    ensures
        split_on_amp(z + y) == split_on_amp(z).update(
            split_on_amp(z).len() - 1,
            split_on_amp(z).last() + y,
        ),
    decreases y.len(),
{
    lemma_split_nonempty(z);
    let sz = split_on_amp(z);
    if y.len() == 0 {
        assert(z + y =~= z);
        assert(sz.last() + y =~= sz.last());
        assert(sz.update(sz.len() - 1, sz.last() + y) =~= sz);
    } else {
        let y0 = y.drop_last();
        lemma_split_extend(z, y0);
        assert((z + y).drop_last() =~= z + y0);
        assert((z + y).last() == y.last());
        let prev = sz.update(sz.len() - 1, sz.last() + y0);
        assert(prev.last() =~= sz.last() + y0);
        assert((sz.last() + y0).push(y.last()) =~= sz.last() + y);
        assert(prev.update(prev.len() - 1, prev.last().push(y.last())) =~= sz.update(
            sz.len() - 1,
            sz.last() + y,
        ));
    }
}

proof fn lemma_first_index_after(x: Seq<char>, y: Seq<char>)
    requires
        forall|k: int| 0 <= k < x.len() ==> #[trigger] x[k] != '=',
    ensures
        first_index_of(x + seq!['='] + y, '=') == x.len(),
    decreases x.len(),
{
    let s = x + seq!['='] + y;
    if x.len() == 0 {
        assert(s[0] == '=');
    } else {
        let x1 = x.drop_first();
        assert forall|k: int| 0 <= k < x1.len() implies #[trigger] x1[k] != '=' by {
            assert(x1[k] == x[k + 1]);
        }
        lemma_first_index_after(x1, y);
        assert(s[0] == x[0]);
        assert(s.drop_first() =~= x1 + seq!['='] + y);
    }
}

/// The sequence `name=value` of one encoded pair.
pub open spec fn form_pair_text(pair: (Seq<char>, Seq<char>)) -> Seq<char> {
    form_component(pair.0) + seq!['='] + form_component(pair.1)
}

/// Characters that may appear in a form-urlencoded query.
pub open spec fn is_query_char(c: char) -> bool {
    is_form_output_char(c) || c == '&' || c == '='
}

proof fn lemma_pair_text_decodes(pair: (Seq<char>, Seq<char>))
    ensures
        form_decode_pair(form_pair_text(pair)) == Some(pair),
        form_pair_text(pair).len() > 0,
        forall|k: int| 0 <= k < form_pair_text(pair).len() ==> #[trigger] form_pair_text(pair)[k] != '&',
        forall|k: int| 0 <= k < form_pair_text(pair).len() ==> is_query_char(#[trigger] form_pair_text(pair)[k]),
{
    let x = form_component(pair.0);
    let y = form_component(pair.1);
    let seg = form_pair_text(pair);
    lemma_form_urlencoded_chars(encode_utf8(pair.0));
    lemma_form_urlencoded_chars(encode_utf8(pair.1));
    assert forall|k: int| 0 <= k < x.len() implies #[trigger] x[k] != '=' by {
        assert(is_form_output_char(x[k]));
    }
    lemma_first_index_after(x, y);
    assert(seg.take(x.len() as int) =~= x);
    assert(seg.skip(x.len() as int + 1) =~= y);
    lemma_form_component_decodes(pair.0);
    lemma_form_component_decodes(pair.1);
    assert forall|k: int| 0 <= k < seg.len() implies #[trigger] seg[k] != '&' by {
        if k < x.len() {
            assert(seg[k] == x[k]);
            assert(is_form_output_char(x[k]));
        } else if k > x.len() {
            assert(seg[k] == y[k - x.len() - 1]);
            assert(is_form_output_char(y[k - x.len() - 1]));
        }
    }
    assert forall|k: int| 0 <= k < seg.len() implies is_query_char(#[trigger] seg[k]) by {
        if k < x.len() {
            assert(seg[k] == x[k]);
            assert(is_form_output_char(x[k]));
        } else if k > x.len() {
            assert(seg[k] == y[k - x.len() - 1]);
            assert(is_form_output_char(y[k - x.len() - 1]));
        }
    }
}

/// A form-urlencoded query holds only encoded characters, `&` and `=`; in
/// particular no `#`, so in a URL it is never cut short by a fragment.
pub proof fn lemma_form_query_chars(pairs: Seq<(Seq<char>, Seq<char>)>)
    ensures
        forall|k: int| 0 <= k < form_query(pairs).len() ==> is_query_char(#[trigger] form_query(pairs)[k]),
    decreases pairs.len(),
{
    if pairs.len() > 0 {
        let seg = form_pair_text(pairs.last());
        lemma_pair_text_decodes(pairs.last());
        lemma_form_query_step(pairs);
        if pairs.len() > 1 {
            let init = form_query(pairs.drop_last());
            lemma_form_query_chars(pairs.drop_last());
            let q = form_query(pairs);
            assert forall|k: int| 0 <= k < q.len() implies is_query_char(#[trigger] q[k]) by {
                if k < init.len() {
                    assert(q[k] == init[k]);
                } else if k > init.len() {
                    assert(q[k] == seg[k - init.len() - 1]);
                }
            }
        }
    }
}

proof fn lemma_form_query_step(pairs: Seq<(Seq<char>, Seq<char>)>)
    requires
        pairs.len() > 0,
    ensures
        pairs.len() == 1 ==> form_query(pairs) == form_pair_text(pairs.last()),
        pairs.len() > 1 ==> form_query(pairs) == form_query(pairs.drop_last()) + seq!['&']
            + form_pair_text(pairs.last()),
{
    let init = pairs.drop_last();
    let k = form_component(pairs.last().0);
    let v = form_component(pairs.last().1);
    if pairs.len() == 1 {
        assert(form_query(init) =~= Seq::<char>::empty());
        assert(form_query(pairs) =~= form_pair_text(pairs.last()));
    } else {
        assert(form_query(pairs) =~= form_query(init) + seq!['&'] + form_pair_text(pairs.last()));
    }
}

proof fn lemma_single_pair_decodes(pairs: Seq<(Seq<char>, Seq<char>)>)
    requires
        pairs.len() == 1,
    ensures
        form_decode_query(form_query(pairs)) == Some(pairs),
{
    let seg = form_pair_text(pairs.last());
    lemma_pair_text_decodes(pairs.last());
    lemma_form_query_step(pairs);
    assert(Seq::<char>::empty() + seg =~= seg);
    lemma_split_extend(Seq::<char>::empty(), seg);
    let segs = split_on_amp(form_query(pairs));
    assert(segs =~= seq![seg]);
    assert(segs.drop_last() =~= Seq::<Seq<char>>::empty());
    assert(form_decode_segments(Seq::<Seq<char>>::empty()) == Some(Seq::<(Seq<char>, Seq<char>)>::empty()));
    assert(segs.last() == seg);
    assert(Seq::<(Seq<char>, Seq<char>)>::empty().push(pairs.last()) =~= pairs);
}

proof fn lemma_more_pairs_decode(pairs: Seq<(Seq<char>, Seq<char>)>)
    requires
        pairs.len() > 1,
        form_decode_query(form_query(pairs.drop_last())) == Some(pairs.drop_last()),
    ensures
        form_decode_query(form_query(pairs)) == Some(pairs),
{
    let init = pairs.drop_last();
    let seg = form_pair_text(pairs.last());
    lemma_pair_text_decodes(pairs.last());
    lemma_form_query_step(pairs);
    let before = form_query(init) + seq!['&'];
    assert(before.drop_last() =~= form_query(init));
    lemma_split_nonempty(form_query(init));
    let sb = split_on_amp(before);
    assert(sb == split_on_amp(form_query(init)).push(seq![]));
    lemma_split_extend(before, seg);
    assert(sb.last() + seg =~= seg);
    let segs = split_on_amp(form_query(pairs));
    assert(segs =~= split_on_amp(form_query(init)).push(seg));
    assert(segs.drop_last() =~= split_on_amp(form_query(init)));
    assert(init.push(pairs.last()) =~= pairs);
}

/// Parsing a form-urlencoded query gives back the pairs it was made from,
/// in order, whatever characters the names and values hold.
pub proof fn lemma_form_query_decodes(pairs: Seq<(Seq<char>, Seq<char>)>)
    ensures
        form_decode_query(form_query(pairs)) == Some(pairs),
    decreases pairs.len(),
{
    if pairs.len() == 0 {
        assert(split_on_amp(form_query(pairs)) =~= seq![Seq::<char>::empty()]);
        assert(seq![Seq::<char>::empty()].drop_last() =~= Seq::<Seq<char>>::empty());
        assert(form_decode_segments(Seq::<Seq<char>>::empty()) == Some(Seq::<(Seq<char>, Seq<char>)>::empty()));
        assert(pairs =~= Seq::<(Seq<char>, Seq<char>)>::empty());
    } else if pairs.len() == 1 {
        lemma_single_pair_decodes(pairs);
    } else {
        lemma_form_query_decodes(pairs.drop_last());
        lemma_more_pairs_decode(pairs);
    }
}

} // verus!
