//! Character-level helpers over `&str` with specifications on `Seq<char>`.
use vstd::prelude::*;
use vstd::string::*;

verus! {

/// ASCII lower-casing of one character; every other character is unchanged.
pub open spec fn ascii_lower(c: char) -> char {
    if 'A' <= c && c <= 'Z' {
        ((c as u32) + 32) as char
    } else {
        c
    }
}

/// True when `c` is an ASCII decimal digit.
pub open spec fn is_digit(c: char) -> bool {
    '0' <= c && c <= '9'
}

/// True when `c` is an ASCII hexadecimal digit in either case.
pub open spec fn is_hex_digit(c: char) -> bool {
    is_digit(c) || ('a' <= c && c <= 'f') || ('A' <= c && c <= 'F')
}

/// Two character sequences are equal when ASCII letters are compared without case.
pub open spec fn eq_ignore_case(a: Seq<char>, b: Seq<char>) -> bool {
    a.len() == b.len() && forall|i: int| 0 <= i < a.len() ==> #[trigger] ascii_lower(a[i]) == ascii_lower(b[i])
}

/// Executable ASCII lower-casing of one character.
pub fn char_to_lower(c: char) -> (r: char)
    ensures
        r == ascii_lower(c),
{
    if 'A' <= c && c <= 'Z' {
        let b: u8 = (c as u32) as u8;
        (b + 32) as char
    } else {
        c
    }
}

/// Compares two strings, ignoring the case of ASCII letters.
pub fn str_eq_ignore_case(a: &str, b: &str) -> (r: bool)
    ensures
        r == eq_ignore_case(a@, b@),
{
    let a_chars = chars_vec(a);
    let b_chars = chars_vec(b);
    let n = a.unicode_len();
    let m = b.unicode_len();
    if n != m {
        return false;
    }
    let mut i: usize = 0;
    while i < n
        invariant
            a_chars@ == a@,
            b_chars@ == b@,
            n == a@.len(),
            m == b@.len(),
            n == m,
            i <= n,
            forall|j: int| 0 <= j < i ==> #[trigger] ascii_lower(a@[j]) == ascii_lower(b@[j]),
        decreases n - i,
    {
        let x = char_to_lower(a_chars[i]);
        let y = char_to_lower(b_chars[i]);
        if x != y {
            return false;
        }
        i = i + 1;
    }
    true
}


/// Index of the last occurrence of `c` in `s`.
pub open spec fn last_index_of(s: Seq<char>, c: char) -> Option<int>
    decreases s.len(),
{
    if s.len() == 0 {
        None
    } else if s.last() == c {
        Some(s.len() - 1)
    } else {
        last_index_of(s.drop_last(), c)
    }
}

/// Index of the first occurrence of `c` in `s`.
pub open spec fn first_index_of(s: Seq<char>, c: char) -> Option<int>
    decreases s.len(),
{
    if s.len() == 0 {
        None
    } else if s[0] == c {
        Some(0)
    } else {
        match first_index_of(s.drop_first(), c) {
            Some(i) => Some(i + 1),
            None => None,
        }
    }
}

/// `prefix` is a prefix of `s`.
pub open spec fn has_prefix(s: Seq<char>, prefix: Seq<char>) -> bool {
    prefix.len() <= s.len() && s.take(prefix.len() as int) == prefix
}

/// `suffix` is a suffix of `s`.
pub open spec fn has_suffix(s: Seq<char>, suffix: Seq<char>) -> bool {
    suffix.len() <= s.len() && s.skip(s.len() - suffix.len()) == suffix
}

pub proof fn lemma_last_index_of(s: Seq<char>, c: char)
    ensures
        match last_index_of(s, c) {
            Some(i) => 0 <= i < s.len() && s[i] == c && forall|j: int| i < j < s.len() ==> s[j] != c,
            None => forall|j: int| 0 <= j < s.len() ==> s[j] != c,
        },
    decreases s.len(),
{
    if s.len() > 0 && s.last() != c {
        lemma_last_index_of(s.drop_last(), c);
        assert forall|j: int| 0 <= j < s.len() - 1 implies s[j] == s.drop_last()[j] by {}
    }
}

pub proof fn lemma_first_index_of(s: Seq<char>, c: char)
    ensures
        match first_index_of(s, c) {
            Some(i) => 0 <= i < s.len() && s[i] == c && forall|j: int| 0 <= j < i ==> s[j] != c,
            None => forall|j: int| 0 <= j < s.len() ==> s[j] != c,
        },
    decreases s.len(),
{
    if s.len() > 0 && s[0] != c {
        lemma_first_index_of(s.drop_first(), c);
        match first_index_of(s.drop_first(), c) {
            Some(i) => {
                assert forall|j: int| 0 <= j < i + 1 implies s[j] != c by {
                    if j > 0 {
                        assert(s[j] == s.drop_first()[j - 1]);
                    }
                }
            },
            None => {
                assert forall|j: int| 0 <= j < s.len() implies s[j] != c by {
                    if j > 0 {
                        assert(s[j] == s.drop_first()[j - 1]);
                    }
                }
            },
        }
    }
}

/// Characterises `last_index_of` by its defining properties.
pub proof fn lemma_last_index_unique(s: Seq<char>, c: char, i: int)
    requires
        0 <= i < s.len(),
        s[i] == c,
        forall|j: int| i < j < s.len() ==> s[j] != c,
    ensures
        last_index_of(s, c) == Some(i),
{
    lemma_last_index_of(s, c);
}

pub proof fn lemma_first_index_unique(s: Seq<char>, c: char, i: int)
    requires
        0 <= i < s.len(),
        s[i] == c,
        forall|j: int| 0 <= j < i ==> s[j] != c,
    ensures
        first_index_of(s, c) == Some(i),
{
    lemma_first_index_of(s, c);
}

/// Position of the last `c` in `s`.
pub fn find_last(s: &str, c: char) -> (r: Option<usize>)
    ensures
        match r {
            Some(i) => last_index_of(s@, c) == Some(i as int),
            None => last_index_of(s@, c) is None,
        },
{
    let s_chars = chars_vec(s);
    let n = s.unicode_len();
    let mut i: usize = n;
    while i > 0
        invariant
            s_chars@ == s@,
            n == s@.len(),
            i <= n,
            forall|j: int| i <= j < n ==> s@[j] != c,
        decreases i,
    {
        if s_chars[i - 1] == c {
            proof {
                lemma_last_index_unique(s@, c, i - 1);
            }
            return Some(i - 1);
        }
        i = i - 1;
    }
    proof {
        lemma_last_index_of(s@, c);
    }
    None
}

/// Position of the first `c` in `s`.
pub fn find_first(s: &str, c: char) -> (r: Option<usize>)
    ensures
        match r {
            Some(i) => first_index_of(s@, c) == Some(i as int),
            None => first_index_of(s@, c) is None,
        },
{
    let s_chars = chars_vec(s);
    let n = s.unicode_len();
    let mut i: usize = 0;
    while i < n
        invariant
            s_chars@ == s@,
            n == s@.len(),
            i <= n,
            forall|j: int| 0 <= j < i ==> s@[j] != c,
        decreases n - i,
    {
        if s_chars[i] == c {
            proof {
                lemma_first_index_unique(s@, c, i as int);
            }
            return Some(i);
        }
        i = i + 1;
    }
    proof {
        lemma_first_index_of(s@, c);
    }
    None
}

/// Exact equality of two strings.
pub fn str_eq(a: &str, b: &str) -> (r: bool)
    ensures
        r == (a@ == b@),
{
    let a_chars = chars_vec(a);
    let b_chars = chars_vec(b);
    let n = a.unicode_len();
    let m = b.unicode_len();
    if n != m {
        return false;
    }
    let mut i: usize = 0;
    while i < n
        invariant
            a_chars@ == a@,
            b_chars@ == b@,
            n == a@.len(),
            m == b@.len(),
            n == m,
            i <= n,
            forall|j: int| 0 <= j < i ==> a@[j] == b@[j],
        decreases n - i,
    {
        if a_chars[i] != b_chars[i] {
            return false;
        }
        i = i + 1;
    }
    assert(a@ =~= b@);
    true
}

/// True when `s` begins with `prefix`.
pub fn starts_with(s: &str, prefix: &str) -> (r: bool)
    ensures
        r == has_prefix(s@, prefix@),
{
    let prefix_chars = chars_vec(prefix);
    let s_chars = chars_vec(s);
    let n = s.unicode_len();
    let m = prefix.unicode_len();
    if m > n {
        return false;
    }
    let mut i: usize = 0;
    while i < m
        invariant
            prefix_chars@ == prefix@,
            s_chars@ == s@,
            n == s@.len(),
            m == prefix@.len(),
            m <= n,
            i <= m,
            forall|j: int| 0 <= j < i ==> s@[j] == prefix@[j],
        decreases m - i,
    {
        if s_chars[i] != prefix_chars[i] {
            assert(s@.take(m as int)[i as int] != prefix@[i as int]);
            return false;
        }
        i = i + 1;
    }
    assert(s@.take(m as int) =~= prefix@);
    true
}

/// True when `s` ends with `suffix`.
pub fn ends_with(s: &str, suffix: &str) -> (r: bool)
    ensures
        r == has_suffix(s@, suffix@),
{
    let s_chars = chars_vec(s);
    let suffix_chars = chars_vec(suffix);
    let n = s.unicode_len();
    let m = suffix.unicode_len();
    if m > n {
        return false;
    }
    let d = n - m;
    let mut i: usize = 0;
    while i < m
        invariant
            s_chars@ == s@,
            suffix_chars@ == suffix@,
            n == s@.len(),
            m == suffix@.len(),
            d == n - m,
            i <= m,
            forall|j: int| 0 <= j < i ==> s@[d + j] == suffix@[j],
        decreases m - i,
    {
        if s_chars[d + i] != suffix_chars[i] {
            assert(s@.skip(d as int)[i as int] != suffix@[i as int]);
            return false;
        }
        i = i + 1;
    }
    assert(s@.skip(d as int) =~= suffix@);
    true
}

/// True when `c` occurs in `s`.
pub fn contains_char(s: &str, c: char) -> (r: bool)
    ensures
        r == s@.contains(c),
{
    let s_chars = chars_vec(s);
    let n = s.unicode_len();
    let mut i: usize = 0;
    while i < n
        invariant
            s_chars@ == s@,
            n == s@.len(),
            i <= n,
            forall|j: int| 0 <= j < i ==> s@[j] != c,
        decreases n - i,
    {
        if s_chars[i] == c {
            assert(s@[i as int] == c);
            return true;
        }
        i = i + 1;
    }
    false
}


/// Splits `s` at every character that occurs in `seps`, keeping empty pieces,
/// as `str::split` with a set of separator characters does.
pub open spec fn split_any(s: Seq<char>, seps: Seq<char>) -> Seq<Seq<char>>
    decreases s.len(),
{
    if s.len() == 0 {
        seq![Seq::<char>::empty()]
    } else {
        let rest = split_any(s.drop_last(), seps);
        if seps.contains(s.last()) {
            rest.push(Seq::<char>::empty())
        } else {
            rest.update(rest.len() - 1, rest.last().push(s.last()))
        }
    }
}

pub proof fn lemma_split_any_nonempty(s: Seq<char>, seps: Seq<char>)
    ensures
        split_any(s, seps).len() >= 1,
    decreases s.len(),
{
    if s.len() > 0 {
        lemma_split_any_nonempty(s.drop_last(), seps);
    }
}

/// Views of a vector of string slices.
pub open spec fn views(v: Seq<&str>) -> Seq<Seq<char>> {
    v.map_values(|x: &str| x@)
}

/// Splits `s` at every character of `seps`.
pub fn split_any_exec<'a>(s: &'a str, seps: &str) -> (r: Vec<&'a str>)
    ensures
        views(r@) == split_any(s@, seps@),
{
    let s_chars = chars_vec(s);
    let n = s.unicode_len();
    let mut pieces: Vec<&'a str> = Vec::new();
    let mut start: usize = 0;
    let mut i: usize = 0;
    assert(s@.take(0) =~= Seq::<char>::empty());
    assert(s@.subrange(0, 0) =~= Seq::<char>::empty());
    assert(views(pieces@).push(s@.subrange(0, 0)) =~= seq![Seq::<char>::empty()]);
    while i < n
        invariant
            s_chars@ == s@,
            n == s@.len(),
            start <= i <= n,
            split_any(s@.take(i as int), seps@) == views(pieces@).push(s@.subrange(start as int, i as int)),
        decreases n - i,
    {
        let c = s_chars[i];
        let is_sep = contains_char(seps, c);
        proof {
            assert(s@.take(i + 1).drop_last() =~= s@.take(i as int));
            assert(s@.take(i + 1).last() == c);
            lemma_split_any_nonempty(s@.take(i as int), seps@);
        }
        if is_sep {
            let piece = s.substring_char(start, i);
            proof {
                assert(views(pieces@.push(piece)) =~= views(pieces@).push(piece@));
                assert(s@.subrange(i + 1, i + 1) =~= Seq::<char>::empty());
            }
            pieces.push(piece);
            start = i + 1;
        } else {
            proof {
                assert(s@.subrange(start as int, i + 1) =~= s@.subrange(start as int, i as int).push(c));
                let prev = views(pieces@).push(s@.subrange(start as int, i as int));
                assert(prev.update(prev.len() - 1, prev.last().push(c)) =~= views(pieces@).push(s@.subrange(start as int, i + 1)));
            }
        }
        i = i + 1;
    }
    let last = s.substring_char(start, n);
    proof {
        assert(s@.take(n as int) =~= s@);
        assert(views(pieces@.push(last)) =~= views(pieces@).push(last@));
    }
    pieces.push(last);
    pieces
}

/// Numeric value of a sequence of ASCII digits.
pub open spec fn digits_value(s: Seq<char>) -> int
    decreases s.len(),
{
    if s.len() == 0 {
        0
    } else {
        digits_value(s.drop_last()) * 10 + ((s.last() as int) - ('0' as int))
    }
}

/// Every character of `s` is an ASCII digit.
pub open spec fn all_digits(s: Seq<char>) -> bool {
    forall|i: int| 0 <= i < s.len() ==> #[trigger] is_digit(s[i])
}

/// The unsigned decimal value of `s` as `str::parse` reads an unsigned
/// integer type whose largest value is `max`: an optional leading `+`, then
/// at least one ASCII digit and nothing else, with a value not above `max`.
pub open spec fn parse_unsigned(s: Seq<char>, max: int) -> Option<int> {
    let digits = if s.len() > 0 && s[0] == '+' { s.skip(1) } else { s };
    if digits.len() > 0 && all_digits(digits) && digits_value(digits) <= max {
        Some(digits_value(digits))
    } else {
        None
    }
}

pub proof fn lemma_digits_value_nonneg(s: Seq<char>)
    requires
        all_digits(s),
    ensures
        digits_value(s) >= 0,
    decreases s.len(),
{
    if s.len() > 0 {
        assert(all_digits(s.drop_last())) by {
            assert forall|i: int| 0 <= i < s.drop_last().len() implies #[trigger] is_digit(s.drop_last()[i]) by {
                assert(is_digit(s[i]));
            }
        }
        lemma_digits_value_nonneg(s.drop_last());
        assert(is_digit(s[s.len() - 1]));
    }
}

pub proof fn lemma_digits_value_prefix_monotone(s: Seq<char>, k: int)
    requires
        all_digits(s),
        0 <= k <= s.len(),
    ensures
        digits_value(s.take(k)) <= digits_value(s),
    decreases s.len() - k,
{
    if k < s.len() {
        assert(s.take(k + 1).drop_last() =~= s.take(k));
        assert(all_digits(s.take(k + 1))) by {
            assert forall|i: int| 0 <= i < s.take(k + 1).len() implies #[trigger] is_digit(s.take(k + 1)[i]) by {
                assert(is_digit(s[i]));
            }
        }
        assert(all_digits(s.take(k))) by {
            assert forall|i: int| 0 <= i < s.take(k).len() implies #[trigger] is_digit(s.take(k)[i]) by {
                assert(is_digit(s[i]));
            }
        }
        lemma_digits_value_nonneg(s.take(k));
        assert(is_digit(s[k]));
        assert(digits_value(s.take(k)) <= digits_value(s.take(k + 1))) by (nonlinear_arith)
            requires
                digits_value(s.take(k + 1)) == digits_value(s.take(k)) * 10 + ((s[k] as int) - ('0' as int)),
                digits_value(s.take(k)) >= 0,
                '0' <= s[k],
        ;
        lemma_digits_value_prefix_monotone(s, k + 1);
    } else {
        assert(s.take(k) =~= s);
    }
}

/// Parses `s` as `str::parse` parses an unsigned integer type with largest value `max`.
pub fn parse_unsigned_exec(s: &str, max: u32) -> (r: Option<u32>)
    ensures
        match r {
            Some(v) => parse_unsigned(s@, max as int) == Some(v as int),
            None => parse_unsigned(s@, max as int) is None,
        },
{
    let s_chars = chars_vec(s);
    let n = s.unicode_len();
    let mut i: usize = 0;
    if n > 0 && s_chars[0] == '+' {
        i = 1;
    }
    let first = i;
    let ghost digits = if s@.len() > 0 && s@[0] == '+' { s@.skip(1) } else { s@ };
    assert(digits =~= s@.skip(first as int));
    if i >= n {
        return None;
    }
    let mut value: u64 = 0;
    while i < n
        invariant
            s_chars@ == s@,
            n == s@.len(),
            first <= i <= n,
            first <= 1,
            digits =~= s@.skip(first as int),
            digits == (if s@.len() > 0 && s@[0] == '+' { s@.skip(1) } else { s@ }),
            all_digits(s@.subrange(first as int, i as int)),
            value as int == digits_value(s@.subrange(first as int, i as int)),
            value <= max,
        decreases n - i,
    {
        let c = s_chars[i];
        if c < '0' || c > '9' {
            proof {
                assert(digits[i - first] == c);
                assert(!is_digit(digits[i - first]));
                assert(!all_digits(digits));
            }
            return None;
        }
        let d: u64 = ((c as u32) - ('0' as u32)) as u64;
        let next = value * 10 + d;
        proof {
            assert(s@.subrange(first as int, i + 1).drop_last() =~= s@.subrange(first as int, i as int));
            assert(all_digits(s@.subrange(first as int, i + 1))) by {
                assert forall|j: int| 0 <= j < s@.subrange(first as int, i + 1).len() implies #[trigger] is_digit(s@.subrange(first as int, i + 1)[j]) by {
                    if j < i - first {
                        assert(s@.subrange(first as int, i + 1)[j] == s@.subrange(first as int, i as int)[j]);
                    }
                }
            }
        }
        if next > max as u64 {
            proof {
                assert(digits_value(s@.subrange(first as int, i + 1)) == next as int);
                assert(all_digits(digits) ==> digits_value(digits) > max) by {
                    if all_digits(digits) {
                        assert(digits.take(i + 1 - first) =~= s@.subrange(first as int, i + 1));
                        lemma_digits_value_prefix_monotone(digits, i + 1 - first);
                    }
                }
            }
            return None;
        }
        value = next;
        i = i + 1;
    }
    assert(s@.subrange(first as int, n as int) =~= digits);
    Some(value as u32)
}

/// Unicode `White_Space` characters, the set `char::is_whitespace` and `str::trim` use.
pub open spec fn is_whitespace(c: char) -> bool {
    ||| ('\u{9}' <= c && c <= '\u{d}')
    ||| c == ' '
    ||| c == '\u{85}'
    ||| c == '\u{a0}'
    ||| c == '\u{1680}'
    ||| ('\u{2000}' <= c && c <= '\u{200a}')
    ||| c == '\u{2028}'
    ||| c == '\u{2029}'
    ||| c == '\u{202f}'
    ||| c == '\u{205f}'
    ||| c == '\u{3000}'
}

/// Executable Unicode `White_Space` test.
pub fn char_is_whitespace(c: char) -> (r: bool)
    ensures
        r == is_whitespace(c),
{
    ('\u{9}' <= c && c <= '\u{d}') || c == ' ' || c == '\u{85}' || c == '\u{a0}' || c == '\u{1680}'
        || ('\u{2000}' <= c && c <= '\u{200a}') || c == '\u{2028}' || c == '\u{2029}'
        || c == '\u{202f}' || c == '\u{205f}' || c == '\u{3000}'
}

/// Number of leading whitespace characters.
pub open spec fn leading_ws(s: Seq<char>) -> int
    decreases s.len(),
{
    if s.len() > 0 && is_whitespace(s[0]) {
        1 + leading_ws(s.drop_first())
    } else {
        0
    }
}

/// Number of trailing whitespace characters.
pub open spec fn trailing_ws(s: Seq<char>) -> int
    decreases s.len(),
{
    if s.len() > 0 && is_whitespace(s.last()) {
        1 + trailing_ws(s.drop_last())
    } else {
        0
    }
}

/// `s` without leading and trailing whitespace, as `str::trim` returns it.
pub open spec fn trim(s: Seq<char>) -> Seq<char> {
    let t = s.skip(leading_ws(s));
    t.take(t.len() - trailing_ws(t))
}

pub proof fn lemma_leading_ws(s: Seq<char>)
    ensures
        0 <= leading_ws(s) <= s.len(),
        forall|j: int| 0 <= j < leading_ws(s) ==> is_whitespace(#[trigger] s[j]),
        leading_ws(s) < s.len() ==> !is_whitespace(s[leading_ws(s)]),
    decreases s.len(),
{
    if s.len() > 0 && is_whitespace(s[0]) {
        lemma_leading_ws(s.drop_first());
        assert forall|j: int| 0 <= j < leading_ws(s) implies is_whitespace(#[trigger] s[j]) by {
            if j > 0 {
                assert(s[j] == s.drop_first()[j - 1]);
            }
        }
    }
}

pub proof fn lemma_trailing_ws(s: Seq<char>)
    ensures
        0 <= trailing_ws(s) <= s.len(),
        forall|j: int| s.len() - trailing_ws(s) <= j < s.len() ==> is_whitespace(#[trigger] s[j]),
        trailing_ws(s) < s.len() ==> !is_whitespace(s[s.len() - 1 - trailing_ws(s)]),
    decreases s.len(),
{
    if s.len() > 0 && is_whitespace(s.last()) {
        lemma_trailing_ws(s.drop_last());
        assert forall|j: int| s.len() - trailing_ws(s) <= j < s.len() implies is_whitespace(#[trigger] s[j]) by {
            if j < s.len() - 1 {
                assert(s[j] == s.drop_last()[j]);
            }
        }
    }
}

pub proof fn lemma_leading_unique(s: Seq<char>, k: int)
    requires
        0 <= k <= s.len(),
        forall|j: int| 0 <= j < k ==> is_whitespace(#[trigger] s[j]),
        k < s.len() ==> !is_whitespace(s[k]),
    ensures
        leading_ws(s) == k,
    decreases s.len(),
{
    if k > 0 {
        assert(is_whitespace(s[0]));
        assert forall|j: int| 0 <= j < k - 1 implies is_whitespace(#[trigger] s.drop_first()[j]) by {
            assert(is_whitespace(s[j + 1]));
        }
        if k - 1 < s.len() - 1 {
            assert(s.drop_first()[k - 1] == s[k]);
        }
        lemma_leading_unique(s.drop_first(), k - 1);
    }
}

pub proof fn lemma_trailing_unique(s: Seq<char>, k: int)
    requires
        0 <= k <= s.len(),
        forall|j: int| s.len() - k <= j < s.len() ==> is_whitespace(#[trigger] s[j]),
        k < s.len() ==> !is_whitespace(s[s.len() - 1 - k]),
    ensures
        trailing_ws(s) == k,
    decreases s.len(),
{
    if k > 0 {
        assert(is_whitespace(s[s.len() - 1]));
        assert forall|j: int| s.drop_last().len() - (k - 1) <= j < s.drop_last().len() implies is_whitespace(#[trigger] s.drop_last()[j]) by {
            assert(is_whitespace(s[j]));
        }
        if k - 1 < s.len() - 1 {
            assert(s.drop_last()[s.drop_last().len() - 1 - (k - 1)] == s[s.len() - 1 - k]);
        }
        lemma_trailing_unique(s.drop_last(), k - 1);
    }
}

/// Removes leading and trailing Unicode whitespace, as `str::trim` does.
pub fn trim_exec(s: &str) -> (r: &str)
    ensures
        r@ == trim(s@),
{
    let s_chars = chars_vec(s);
    let n = s.unicode_len();
    let mut a: usize = 0;
    while a < n && char_is_whitespace(s_chars[a])
        invariant
            s_chars@ == s@,
            n == s@.len(),
            a <= n,
            forall|j: int| 0 <= j < a ==> is_whitespace(#[trigger] s@[j]),
        decreases n - a,
    {
        a = a + 1;
    }
    proof {
        lemma_leading_unique(s@, a as int);
    }
    let mut b: usize = n;
    while b > a && char_is_whitespace(s_chars[b - 1])
        invariant
            s_chars@ == s@,
            n == s@.len(),
            a <= b <= n,
            forall|j: int| b <= j < n ==> is_whitespace(#[trigger] s@[j]),
        decreases b - a,
    {
        b = b - 1;
    }
    proof {
        let t = s@.skip(a as int);
        assert forall|j: int| t.len() - (n - b) <= j < t.len() implies is_whitespace(#[trigger] t[j]) by {
            assert(t[j] == s@[a + j]);
        }
        if n - b < t.len() {
            assert(t[t.len() - 1 - (n - b)] == s@[b - 1]);
        }
        lemma_trailing_unique(t, (n - b) as int);
        assert(t.take(t.len() - (n - b)) =~= s@.subrange(a as int, b as int));
    }
    s.substring_char(a, b)
}


/// Concatenates two strings.
pub(crate) fn concat2(a: &str, b: &str) -> (r: String)
    ensures
        r@ == a@ + b@,
{
    let mut r = owned(a);
    r.append(b);
    r
}

/// An owned copy of `s` (`str::to_owned`).
pub fn owned(s: &str) -> (r: String)
    ensures
        r@ == s@,
{
    s.to_owned()
}

/// True when `c` is an ASCII letter.
pub open spec fn is_alpha(c: char) -> bool {
    ('a' <= c && c <= 'z') || ('A' <= c && c <= 'Z')
}

/// ASCII upper-casing of one character; every other character is unchanged.
pub open spec fn ascii_upper(c: char) -> char {
    if 'a' <= c && c <= 'z' {
        ((c as u32) - 32) as char
    } else {
        c
    }
}

/// Executable ASCII upper-casing of one character.
pub fn char_to_upper(c: char) -> (r: char)
    ensures
        r == ascii_upper(c),
{
    if 'a' <= c && c <= 'z' {
        let b: u8 = (c as u32) as u8;
        (b - 32) as char
    } else {
        c
    }
}


/// Appends one character (`String::push`).
#[verifier::external_body]
pub(crate) fn push_char(s: &mut String, c: char)
    ensures
        final(s)@ == old(s)@.push(c),
{
    s.push(c)
}

/// ASCII lower-casing of a whole string (`str::to_ascii_lowercase`).
pub fn lower_ascii(s: &str) -> (r: String)
    ensures
        r@ == s@.map_values(|c: char| ascii_lower(c)),
{
    let s_chars = chars_vec(s);
    let n = s.unicode_len();
    let mut out = String::new();
    let mut i: usize = 0;
    while i < n
        invariant
            s_chars@ == s@,
            n == s@.len(),
            i <= n,
            out@ == s@.take(i as int).map_values(|c: char| ascii_lower(c)),
        decreases n - i,
    {
        let c = char_to_lower(s_chars[i]);
        push_char(&mut out, c);
        assert(out@ =~= s@.take(i + 1).map_values(|c: char| ascii_lower(c)));
        i = i + 1;
    }
    assert(s@.take(n as int) =~= s@);
    out
}


/// Trimming twice trims nothing more.
pub proof fn lemma_trim_idempotent(s: Seq<char>)
    ensures
        trim(trim(s)) == trim(s),
{
    lemma_leading_ws(s);
    let u = s.skip(leading_ws(s));
    lemma_trailing_ws(u);
    let t = trim(s);
    if t.len() > 0 {
        assert(t[0] == u[0]);
        assert(u[0] == s[leading_ws(s)]);
        assert(t[t.len() - 1] == u[u.len() - 1 - trailing_ws(u)]);
    }
    lemma_leading_unique(t, 0);
    assert forall|j: int| t.len() - 0 <= j < t.len() implies is_whitespace(#[trigger] t[j]) by {}
    lemma_trailing_unique(t, 0);
    assert(t.skip(0) =~= t);
    assert(t.take(t.len() as int) =~= t);
}


/// The decimal digits of a natural number, most significant first, without
/// leading zeros (`0` is written `0`).
pub open spec fn decimal(n: nat) -> Seq<char>
    decreases n,
{
    if n < 10 {
        seq![((n as int) + 48) as char]
    } else {
        decimal(n / 10).push((((n % 10) as int) + 48) as char)
    }
}

/// Writes `n` in decimal (`u128` `Display`).
pub fn decimal_string(n: u128) -> (r: String)
    ensures
        r@ == decimal(n as nat),
    decreases n,
{
    if n < 10 {
        let mut s = String::new();
        push_char(&mut s, ((n as u8) + 48) as char);
        assert(s@ =~= decimal(n as nat));
        s
    } else {
        let mut s = decimal_string(n / 10);
        push_char(&mut s, (((n % 10) as u8) + 48) as char);
        s
    }
}

/// Writes a signed number in decimal (`i64` `Display`).
pub fn signed_decimal_string(n: i64) -> (r: String)
    ensures
        r@ == if n < 0 { seq!['-'] + decimal((-(n as int)) as nat) } else { decimal(n as nat) },
{
    if n < 0 {
        let magnitude: u128 = (-(n as i128)) as u128;
        let digits = decimal_string(magnitude);
        let r = concat2("-", digits.as_str());
        proof { reveal_strlit("-"); }
        assert(r@ =~= seq!['-'] + decimal((-(n as int)) as nat));
        r
    } else {
        decimal_string(n as u128)
    }
}


/// `a` sorts strictly before `b` in code-point order. This is the order of
/// `String`'s `Ord`, since UTF-8 byte order and code-point order agree.
pub open spec fn text_before(a: Seq<char>, b: Seq<char>) -> bool
    decreases a.len(),
{
    if a.len() == 0 {
        b.len() > 0
    } else if b.len() == 0 {
        false
    } else if a[0] != b[0] {
        (a[0] as int) < (b[0] as int)
    } else {
        text_before(a.drop_first(), b.drop_first())
    }
}

/// No text sorts before itself.
pub proof fn lemma_text_before_irreflexive(a: Seq<char>)
    ensures
        !text_before(a, a),
    decreases a.len(),
{
    if a.len() > 0 {
        lemma_text_before_irreflexive(a.drop_first());
    }
}

/// The order is transitive.
pub proof fn lemma_text_before_transitive(a: Seq<char>, b: Seq<char>, c: Seq<char>)
    requires
        text_before(a, b),
        text_before(b, c),
    ensures
        text_before(a, c),
    decreases a.len(),
{
    if a.len() > 0 && b.len() > 0 && c.len() > 0 && a[0] == b[0] && b[0] == c[0] {
        lemma_text_before_transitive(a.drop_first(), b.drop_first(), c.drop_first());
    }
}

/// Two different texts are ordered one way or the other.
pub proof fn lemma_text_before_total(a: Seq<char>, b: Seq<char>)
    requires
        a != b,
    ensures
        text_before(a, b) || text_before(b, a),
    decreases a.len(),
{
    if a.len() == 0 {
        if b.len() == 0 {
            assert(a =~= b);
        }
    } else if b.len() == 0 {
    } else if a[0] != b[0] {
        assert((a[0] as int) != (b[0] as int));
    } else {
        if a.drop_first() == b.drop_first() {
            assert(a =~= seq![a[0]] + a.drop_first());
            assert(b =~= seq![b[0]] + b.drop_first());
        }
        lemma_text_before_total(a.drop_first(), b.drop_first());
    }
}

/// Compares two texts in code-point order.
pub fn text_less(a: &str, b: &str) -> (r: bool)
    ensures
        r == text_before(a@, b@),
{
    let a_chars = chars_vec(a);
    let b_chars = chars_vec(b);
    let n = a.unicode_len();
    let m = b.unicode_len();
    let mut i: usize = 0;
    assert(a@.skip(0) =~= a@);
    assert(b@.skip(0) =~= b@);
    while i < n && i < m
        invariant
            a_chars@ == a@,
            b_chars@ == b@,
            n == a@.len(),
            m == b@.len(),
            i <= n,
            i <= m,
            text_before(a@, b@) == text_before(a@.skip(i as int), b@.skip(i as int)),
        decreases n - i,
    {
        let x = a_chars[i];
        let y = b_chars[i];
        assert(a@.skip(i as int)[0] == x);
        assert(b@.skip(i as int)[0] == y);
        if x != y {
            return x < y;
        }
        assert(a@.skip(i as int).drop_first() =~= a@.skip(i + 1));
        assert(b@.skip(i as int).drop_first() =~= b@.skip(i + 1));
        i = i + 1;
    }
    i < m
}

/// The characters of a text, collected in one pass (indexing a `str` by
/// character costs a scan each time).
pub fn chars_vec(s: &str) -> (r: Vec<char>)
    ensures
        r@ == s@,
{
    broadcast use vstd::string::axiom_spec_iter;
    let mut v: Vec<char> = Vec::new();
    for c in it: s.chars()
        invariant
            v@ == it.seq().take(it.index() as int),
    {
        v.push(c);
    }
    v
}

} // verus!
