//! Standard base64 (RFC 4648 alphabet with `=` padding) for image payloads.
//!
//! Encoding is the textbook three-bytes-to-four-characters mapping. Decoding
//! is strict: only alphabet characters, CR and LF (ignored) before the
//! padding, nothing but `=` from the first `=` on, exactly the padding a
//! final short group needs, and zero bits where a short group ends.
use vstd::prelude::*;
use crate::text::{chars_vec, find_first, first_index_of, lemma_first_index_of, push_char};

verus! {

/// The alphabet character of a 6-bit value.
pub open spec fn b64_char(v: u8) -> char {
    if v < 26 {
        ((v as int) + 65) as char
    } else if v < 52 {
        ((v as int) - 26 + 97) as char
    } else if v < 62 {
        ((v as int) - 52 + 48) as char
    } else if v == 62 {
        '+'
    } else {
        '/'
    }
}

/// The 6-bit value of an alphabet character.
pub open spec fn b64_value(c: char) -> Option<u8> {
    if 'A' <= c && c <= 'Z' {
        Some(((c as int) - 65) as u8)
    } else if 'a' <= c && c <= 'z' {
        Some(((c as int) - 97 + 26) as u8)
    } else if '0' <= c && c <= '9' {
        Some(((c as int) - 48 + 52) as u8)
    } else if c == '+' {
        Some(62u8)
    } else if c == '/' {
        Some(63u8)
    } else {
        None
    }
}

proof fn lemma_char_value(v: u8)
    requires
        v < 64,
    ensures
        b64_value(b64_char(v)) == Some(v),
        b64_char(v) != '=',
        b64_char(v) != '\r',
        b64_char(v) != '\n',
{
}

proof fn lemma_value_range(c: char)
    ensures
        b64_value(c) matches Some(v) ==> v < 64,
{
}

/// The four sextets of a three-byte group.
pub open spec fn sextets(a: u8, b: u8, c: u8) -> (u8, u8, u8, u8) {
    (a >> 2, ((a & 3) << 4) | (b >> 4), ((b & 15) << 2) | (c >> 6), c & 63)
}

/// The four characters of a group of `n` (1 to 3) bytes; missing bytes are
/// zero and their characters are padding.
pub open spec fn enc_group(a: u8, b: u8, c: u8, n: int) -> Seq<char> {
    let s = sextets(a, b, c);
    seq![
        b64_char(s.0),
        b64_char(s.1),
        if n > 1 { b64_char(s.2) } else { '=' },
        if n > 2 { b64_char(s.3) } else { '=' },
    ]
}

/// The base64 text of a byte sequence.
pub open spec fn b64_encode(bytes: Seq<u8>) -> Seq<char>
    decreases bytes.len(),
{
    if bytes.len() == 0 {
        Seq::empty()
    } else if bytes.len() == 1 {
        enc_group(bytes[0], 0, 0, 1)
    } else if bytes.len() == 2 {
        enc_group(bytes[0], bytes[1], 0, 2)
    } else {
        enc_group(bytes[0], bytes[1], bytes[2], 3) + b64_encode(bytes.skip(3))
    }
}

/// Digit values of text before the padding, skipping CR and LF; `None` at
/// any other character outside the alphabet.
pub open spec fn digits_of(s: Seq<char>) -> Option<Seq<u8>>
    decreases s.len(),
{
    if s.len() == 0 {
        Some(Seq::empty())
    } else {
        match digits_of(s.drop_last()) {
            None => None,
            Some(d) => if s.last() == '\r' || s.last() == '\n' {
                Some(d)
            } else {
                match b64_value(s.last()) {
                    Some(v) => Some(d.push(v)),
                    None => None,
                }
            },
        }
    }
}

/// The three bytes four sextets carry.
pub open spec fn dec_group(w: u8, x: u8, y: u8, z: u8) -> Seq<u8> {
    seq![((w << 2) | (x >> 4)) as u8, (((x & 15) << 4) | (y >> 2)) as u8, (((y & 3) << 6) | z) as u8]
}

/// Decodes digit values followed by `pad` padding characters: whole groups of
/// four, then nothing (no padding), two digits (two `=`, low four bits zero)
/// or three digits (one `=`, low two bits zero).
pub open spec fn decode_digits(d: Seq<u8>, pad: int) -> Option<Seq<u8>>
    decreases d.len(),
{
    if d.len() == 0 {
        if pad == 0 { Some(Seq::empty()) } else { None }
    } else if d.len() >= 4 {
        match decode_digits(d.skip(4), pad) {
            Some(rest) => Some(dec_group(d[0], d[1], d[2], d[3]) + rest),
            None => None,
        }
    } else if d.len() == 2 {
        if pad == 2 && d[1] & 15 == 0 { Some(dec_group(d[0], d[1], 0, 0).take(1)) } else { None }
    } else if d.len() == 3 {
        if pad == 1 && d[2] & 3 == 0 { Some(dec_group(d[0], d[1], d[2], 0).take(2)) } else { None }
    } else {
        None
    }
}

/// Index where the padding starts: the first `=`, or the end.
pub open spec fn padding_start(s: Seq<char>) -> int {
    match first_index_of(s, '=') {
        Some(i) => i,
        None => s.len() as int,
    }
}

/// The bytes a base64 text decodes to, or `None` when it is malformed.
pub open spec fn b64_decode(s: Seq<char>) -> Option<Seq<u8>> {
    let k = padding_start(s);
    if forall|i: int| k <= i < s.len() ==> #[trigger] s[i] == '=' {
        match digits_of(s.take(k)) {
            Some(d) => decode_digits(d, s.len() - k),
            None => None,
        }
    } else {
        None
    }
}

fn char_of(v: u8) -> (c: char)
    requires
        v < 64,
    ensures
        c == b64_char(v),
{
    if v < 26 {
        (v + 65) as char
    } else if v < 52 {
        (v - 26 + 97) as char
    } else if v < 62 {
        (v - 52 + 48) as char
    } else if v == 62 {
        '+'
    } else {
        '/'
    }
}

fn value_of(c: char) -> (r: Option<u8>)
    ensures
        r == b64_value(c),
{
    if 'A' <= c && c <= 'Z' {
        Some(((c as u32) - 65) as u8)
    } else if 'a' <= c && c <= 'z' {
        Some(((c as u32) - 97 + 26) as u8)
    } else if '0' <= c && c <= '9' {
        Some(((c as u32) - 48 + 52) as u8)
    } else if c == '+' {
        Some(62)
    } else if c == '/' {
        Some(63)
    } else {
        None
    }
}

proof fn lemma_sextets_small(a: u8, b: u8, c: u8)
    ensures
        a >> 2 < 64,
        ((a & 3) << 4) | (b >> 4) < 64,
        ((b & 15) << 2) | (c >> 6) < 64,
        c & 63 < 64,
{
    assert(a >> 2 < 64) by (bit_vector);
    assert(((a & 3) << 4) | (b >> 4) < 64) by (bit_vector);
    assert(((b & 15) << 2) | (c >> 6) < 64) by (bit_vector);
    assert(c & 63 < 64) by (bit_vector);
}

proof fn lemma_digits_none_extends(s: Seq<char>, k: int)
    requires
        0 <= k <= s.len(),
        digits_of(s.take(k)) is None,
    ensures
        digits_of(s) is None,
    decreases s.len() - k,
{
    if k < s.len() {
        assert(s.take(k + 1).drop_last() =~= s.take(k));
        lemma_digits_none_extends(s, k + 1);
    } else {
        assert(s.take(k) =~= s);
    }
}

/// Encodes bytes as standard base64 with padding.
pub fn base64(bytes: &[u8]) -> (r: String)
    ensures
        r@ == b64_encode(bytes@),
{
    let n = bytes.len();
    let mut out = String::new();
    let mut i: usize = 0;
    assert(bytes@.skip(0) =~= bytes@);
    while i < n
        invariant
            n == bytes@.len(),
            i <= n,
            out@ + b64_encode(bytes@.skip(i as int)) == b64_encode(bytes@),
        decreases n - i,
    {
        let rest = n - i;
        let a = bytes[i];
        let b = if rest > 1 { bytes[i + 1] } else { 0 };
        let c = if rest > 2 { bytes[i + 2] } else { 0 };
        let take: usize = if rest > 3 { 3 } else { rest };
        proof {
            lemma_sextets_small(a, b, c);
            let s = bytes@.skip(i as int);
            assert(s[0] == a);
            if rest > 1 { assert(s[1] == b); }
            if rest > 2 { assert(s[2] == c); }
            if rest >= 3 {
                assert(s.skip(3) =~= bytes@.skip(i + 3));
            }
            if rest <= 3 {
                assert(bytes@.skip(i + take) =~= Seq::<u8>::empty());
                assert(b64_encode(bytes@.skip(i + take)) == Seq::<char>::empty());
            }
            if rest < 3 {
                assert(b64_encode(s) =~= enc_group(a, b, c, rest as int) + Seq::<char>::empty());
            }
            assert(b64_encode(s) == enc_group(a, b, c, if rest > 3 { 3 } else { rest as int }) + b64_encode(bytes@.skip(i + take)));
        }
        let ghost before = out@;
        push_char(&mut out, char_of(a >> 2));
        push_char(&mut out, char_of(((a & 3) << 4) | (b >> 4)));
        if rest > 1 {
            push_char(&mut out, char_of(((b & 15) << 2) | (c >> 6)));
        } else {
            push_char(&mut out, '=');
        }
        if rest > 2 {
            push_char(&mut out, char_of(c & 63));
        } else {
            push_char(&mut out, '=');
        }
        assert(out@ =~= before + enc_group(a, b, c, if rest > 3 { 3 } else { rest as int }));
        i = i + take;
    }
    assert(bytes@.skip(n as int) =~= Seq::<u8>::empty());
    assert(out@ + Seq::<char>::empty() =~= out@);
    out
}

/// `Some(prefix + rest)` when the rest decodes, otherwise `None`.
pub open spec fn prepend(prefix: Seq<u8>, rest: Option<Seq<u8>>) -> Option<Seq<u8>> {
    match rest {
        Some(r) => Some(prefix + r),
        None => None,
    }
}

/// Decodes standard base64, returning `None` for anything malformed: a
/// character outside the alphabet (CR and LF are skipped before the padding),
/// anything but `=` after the first `=`, a wrong amount of padding, or
/// nonzero bits at the end of a short final group.
pub fn base64_decode(value: &str) -> (r: Option<Vec<u8>>)
    ensures
        match r {
            Some(v) => b64_decode(value@) == Some(v@),
            None => b64_decode(value@) is None,
        },
{
    let value_chars = chars_vec(value);
    let n = value.unicode_len();
    let k: usize = match find_first(value, '=') {
        Some(k) => k,
        None => n,
    };
    proof {
        lemma_first_index_of(value@, '=');
    }
    assert(k as int == padding_start(value@));
    let mut j: usize = k;
    while j < n
        invariant
            value_chars@ == value@,
            n == value@.len(),
            k as int == padding_start(value@),
            k <= j <= n,
            forall|i: int| k <= i < j ==> #[trigger] value@[i] == '=',
        decreases n - j,
    {
        if value_chars[j] != '=' {
            assert(value@[j as int] != '=');
            return None;
        }
        j = j + 1;
    }
    let mut digits: Vec<u8> = Vec::new();
    let mut i: usize = 0;
    assert(value@.take(0) =~= Seq::<char>::empty());
    while i < k
        invariant
            value_chars@ == value@,
            n == value@.len(),
            k as int == padding_start(value@),
            forall|t: int| k <= t < n ==> #[trigger] value@[t] == '=',
            k <= n,
            i <= k,
            digits_of(value@.take(i as int)) == Some(digits@),
            forall|t: int| 0 <= t < digits@.len() ==> #[trigger] digits@[t] < 64,
        decreases k - i,
    {
        let c = value_chars[i];
        assert(value@.take(i + 1).drop_last() =~= value@.take(i as int));
        assert(value@.take(i + 1).last() == c);
        if c == '\r' || c == '\n' {
        } else {
            match value_of(c) {
                Some(v) => {
                    proof { lemma_value_range(c); }
                    digits.push(v);
                },
                None => {
                    proof {
                        lemma_digits_none_extends(value@.take(k as int), i + 1);
                        assert(value@.take(k as int).take(i + 1) =~= value@.take(i + 1));
                    }
                    return None;
                },
            }
        }
        i = i + 1;
    }
    let pad: usize = n - k;
    let d = digits.len();
    let mut out: Vec<u8> = Vec::new();
    let mut g: usize = 0;
    assert(digits@.skip(0) =~= digits@);
    while d - g >= 4
        invariant
            value_chars@ == value@,
            d == digits@.len(),
            g <= d,
            forall|t: int| 0 <= t < digits@.len() ==> #[trigger] digits@[t] < 64,
            decode_digits(digits@, pad as int) == prepend(out@, decode_digits(digits@.skip(g as int), pad as int)),
        decreases d - g,
    {
        let w = digits[g];
        let x = digits[g + 1];
        let y = digits[g + 2];
        let z = digits[g + 3];
        proof {
            let s = digits@.skip(g as int);
            assert(s.skip(4) =~= digits@.skip(g + 4));
            assert(s[0] == w && s[1] == x && s[2] == y && s[3] == z);
        }
        let ghost before = out@;
        out.push(((w << 2) | (x >> 4)) as u8);
        out.push((((x & 15) << 4) | (y >> 2)) as u8);
        out.push((((y & 3) << 6) | z) as u8);
        assert(out@ =~= before + dec_group(w, x, y, z));
        proof {
            let rest = decode_digits(digits@.skip(g + 4), pad as int);
            match rest {
                Some(r) => {
                    assert(before + (dec_group(w, x, y, z) + r) =~= (before + dec_group(w, x, y, z)) + r);
                },
                None => {},
            }
        }
        g = g + 4;
    }
    let left = d - g;
    let s = Ghost(digits@.skip(g as int));
    if left == 0 {
        if pad != 0 {
            return None;
        }
        assert(out@ + Seq::<u8>::empty() =~= out@);
        return Some(out);
    }
    if left == 2 {
        let w = digits[g];
        let x = digits[g + 1];
        assert(s@[0] == w && s@[1] == x);
        if pad == 2 && x & 15 == 0 {
            let ghost before = out@;
            out.push(((w << 2) | (x >> 4)) as u8);
            assert(out@ =~= before + dec_group(w, x, 0, 0).take(1));
            return Some(out);
        }
        return None;
    }
    if left == 3 {
        let w = digits[g];
        let x = digits[g + 1];
        let y = digits[g + 2];
        assert(s@[0] == w && s@[1] == x && s@[2] == y);
        if pad == 1 && y & 3 == 0 {
            let ghost before = out@;
            out.push(((w << 2) | (x >> 4)) as u8);
            out.push((((x & 15) << 4) | (y >> 2)) as u8);
            assert(out@ =~= before + dec_group(w, x, y, 0).take(2));
            return Some(out);
        }
        return None;
    }
    None
}


/// The sextets an encoding carries, in order (without padding).
pub open spec fn enc_digits(bytes: Seq<u8>) -> Seq<u8>
    decreases bytes.len(),
{
    if bytes.len() == 0 {
        Seq::empty()
    } else if bytes.len() == 1 {
        let s = sextets(bytes[0], 0, 0);
        seq![s.0, s.1]
    } else if bytes.len() == 2 {
        let s = sextets(bytes[0], bytes[1], 0);
        seq![s.0, s.1, s.2]
    } else {
        let s = sextets(bytes[0], bytes[1], bytes[2]);
        seq![s.0, s.1, s.2, s.3] + enc_digits(bytes.skip(3))
    }
}

/// The number of `=` an encoding ends with.
pub open spec fn pad_count(bytes: Seq<u8>) -> int
    decreases bytes.len(),
{
    if bytes.len() == 0 {
        0
    } else if bytes.len() == 1 {
        2
    } else if bytes.len() == 2 {
        1
    } else {
        pad_count(bytes.skip(3))
    }
}

/// `n` padding characters.
pub open spec fn pad_seq(n: int) -> Seq<char> {
    Seq::new(n as nat, |i: int| '=')
}

/// The alphabet characters of a sequence of sextets.
pub open spec fn chars_of(d: Seq<u8>) -> Seq<char> {
    d.map_values(|v: u8| b64_char(v))
}

proof fn lemma_group_round_trip(a: u8, b: u8, c: u8)
    by (bit_vector)
    ensures
        (((a >> 2) << 2) | ((((a & 3) << 4) | (b >> 4)) >> 4)) == a,
        (((((a & 3) << 4) | (b >> 4)) & 15) << 4) | ((((b & 15) << 2) | (c >> 6)) >> 2) == b,
        ((((((b & 15) << 2) | (c >> 6)) & 3) << 6) | (c & 63)) == c,
{
}

proof fn lemma_tail_bits(a: u8, b: u8, z: u8)
    by (bit_vector)
    requires
        z == 0,
    ensures
        (((a & 3) << 4) | (z >> 4)) & 15 == 0,
        (((b & 15) << 2) | (z >> 6)) & 3 == 0,
        (((a >> 2) << 2) | ((((a & 3) << 4) | (z >> 4)) >> 4)) == a,
        (((((a & 3) << 4) | (b >> 4)) & 15) << 4) | ((((b & 15) << 2) | (z >> 6)) >> 2) == b,
{
}

proof fn lemma_encode_shape(bytes: Seq<u8>)
    ensures
        b64_encode(bytes) == chars_of(enc_digits(bytes)) + pad_seq(pad_count(bytes)),
        forall|t: int| 0 <= t < enc_digits(bytes).len() ==> #[trigger] enc_digits(bytes)[t] < 64,
        0 <= pad_count(bytes) <= 2,
    decreases bytes.len(),
{
    if bytes.len() == 0 {
        assert(chars_of(Seq::<u8>::empty()) + pad_seq(0) =~= Seq::<char>::empty());
    } else if bytes.len() == 1 {
        lemma_sextets_small(bytes[0], 0, 0);
        assert(b64_encode(bytes) =~= chars_of(enc_digits(bytes)) + pad_seq(2));
    } else if bytes.len() == 2 {
        lemma_sextets_small(bytes[0], bytes[1], 0);
        assert(b64_encode(bytes) =~= chars_of(enc_digits(bytes)) + pad_seq(1));
    } else {
        let rest = bytes.skip(3);
        lemma_encode_shape(rest);
        lemma_sextets_small(bytes[0], bytes[1], bytes[2]);
        let s = sextets(bytes[0], bytes[1], bytes[2]);
        let head = seq![s.0, s.1, s.2, s.3];
        assert(chars_of(head + enc_digits(rest)) =~= chars_of(head) + chars_of(enc_digits(rest)));
        assert(chars_of(head) =~= enc_group(bytes[0], bytes[1], bytes[2], 3));
        assert(b64_encode(bytes) =~= chars_of(enc_digits(bytes)) + pad_seq(pad_count(bytes)));
        assert forall|t: int| 0 <= t < enc_digits(bytes).len() implies #[trigger] enc_digits(bytes)[t] < 64 by {
            if t >= 4 {
                assert(enc_digits(bytes)[t] == enc_digits(rest)[t - 4]);
            }
        }
    }
}

proof fn lemma_digits_of_chars(d: Seq<u8>)
    requires
        forall|t: int| 0 <= t < d.len() ==> #[trigger] d[t] < 64,
    ensures
        digits_of(chars_of(d)) == Some(d),
    decreases d.len(),
{
    if d.len() > 0 {
        assert(chars_of(d).drop_last() =~= chars_of(d.drop_last()));
        lemma_digits_of_chars(d.drop_last());
        lemma_char_value(d.last());
        assert(chars_of(d).last() == b64_char(d.last()));
        assert(d.drop_last().push(d.last()) =~= d);
    }
}

proof fn lemma_decode_digits(bytes: Seq<u8>)
    ensures
        decode_digits(enc_digits(bytes), pad_count(bytes)) == Some(bytes),
    decreases bytes.len(),
{
    if bytes.len() == 0 {
    } else if bytes.len() == 1 {
        lemma_tail_bits(bytes[0], 0, 0);
        assert(dec_group(sextets(bytes[0], 0, 0).0, sextets(bytes[0], 0, 0).1, 0, 0).take(1) =~= bytes);
    } else if bytes.len() == 2 {
        lemma_tail_bits(bytes[0], bytes[1], 0);
        lemma_group_round_trip(bytes[0], bytes[1], 0);
        let s = sextets(bytes[0], bytes[1], 0);
        let g = dec_group(s.0, s.1, s.2, 0);
        assert(g[0] == bytes[0]);
        assert(g[1] == (((s.1 & 15) << 4) | (s.2 >> 2)) as u8);
        assert(g[1] == bytes[1]);
        assert(g.take(2) =~= bytes);
    } else {
        let rest = bytes.skip(3);
        lemma_decode_digits(rest);
        lemma_group_round_trip(bytes[0], bytes[1], bytes[2]);
        let s = sextets(bytes[0], bytes[1], bytes[2]);
        let d = enc_digits(bytes);
        assert(d.skip(4) =~= enc_digits(rest));
        assert(d[0] == s.0 && d[1] == s.1 && d[2] == s.2 && d[3] == s.3);
        assert(dec_group(s.0, s.1, s.2, s.3) == seq![bytes[0], bytes[1], bytes[2]]);
        assert(seq![bytes[0], bytes[1], bytes[2]] + rest =~= bytes);
    }
}

/// The RFC 4648 base64 alphabet, in the order of the 6-bit values.
pub open spec fn rfc4648_alphabet() -> Seq<char> {
    "ABCDEFGHIJKLMNOPQRSTUVWXYZabcdefghijklmnopqrstuvwxyz0123456789+/"@
}

/// The alphabet is RFC 4648's: the character of each 6-bit value is the one
/// at that position of the standard table (`+` for 62, `/` for 63), and
/// decoding reads each table character back as its position.
pub proof fn alphabet_is_the_standard_table(v: u8)
    requires
        v < 64,
    ensures
        b64_char(v) == rfc4648_alphabet()[v as int],
        b64_value(rfc4648_alphabet()[v as int]) == Some(v),
        b64_char(62) == '+' && b64_char(63) == '/',
        b64_value('+') == Some(62u8) && b64_value('/') == Some(63u8),
{
    reveal_strlit("ABCDEFGHIJKLMNOPQRSTUVWXYZabcdefghijklmnopqrstuvwxyz0123456789+/");
    assert(rfc4648_alphabet().len() == 64);
}

/// Only the 64 table characters decode, each to its own position.
pub proof fn only_table_characters_decode(c: char)
    ensures
        b64_value(c) matches Some(v) ==> v < 64 && rfc4648_alphabet()[v as int] == c,
{
    reveal_strlit("ABCDEFGHIJKLMNOPQRSTUVWXYZabcdefghijklmnopqrstuvwxyz0123456789+/");
}

/// Decoding undoes encoding: every byte sequence survives the round trip.
pub proof fn base64_round_trip(bytes: Seq<u8>)
    ensures
        b64_decode(b64_encode(bytes)) == Some(bytes),
{
    lemma_encode_shape(bytes);
    let d = enc_digits(bytes);
    let p = pad_count(bytes);
    let body = chars_of(d);
    let text = b64_encode(bytes);
    assert forall|t: int| 0 <= t < body.len() implies #[trigger] body[t] != '=' by {
        lemma_char_value(d[t]);
    }
    lemma_first_index_of(text, '=');
    if p > 0 {
        assert(text[body.len() as int] == '=');
        assert forall|j: int| 0 <= j < body.len() implies text[j] != '=' by {
            assert(text[j] == body[j]);
        }
        crate::text::lemma_first_index_unique(text, '=', body.len() as int);
    } else {
        assert(text =~= body);
    }
    assert(padding_start(text) == body.len());
    assert(text.take(body.len() as int) =~= body);
    lemma_digits_of_chars(d);
    lemma_decode_digits(bytes);
}

} // verus!
