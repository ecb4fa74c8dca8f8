use vstd::prelude::*;

verus! {

// ---------------------------------------------------------------------------
// Decimal digits
// ---------------------------------------------------------------------------

/// The character for one decimal digit.
pub open spec fn dec_digit_char(d: int) -> char {
    if d == 0 {
        '0'
    } else if d == 1 {
        '1'
    } else if d == 2 {
        '2'
    } else if d == 3 {
        '3'
    } else if d == 4 {
        '4'
    } else if d == 5 {
        '5'
    } else if d == 6 {
        '6'
    } else if d == 7 {
        '7'
    } else if d == 8 {
        '8'
    } else {
        '9'
    }
}

pub open spec fn is_dec_digit(c: char) -> bool {
    48 <= c as int <= 57
}

pub open spec fn digit_val(c: char) -> int {
    c as int - 48
}

/// The canonical decimal rendering of a non-negative integer, without sign
/// and without leading zeros (except for zero itself).
pub open spec fn dec_str(n: int) -> Seq<char>
    recommends
        n >= 0,
    decreases n,
{
    if n < 10 {
        seq![dec_digit_char(n)]
    } else {
        dec_str(n / 10).push(dec_digit_char(n % 10))
    }
}

/// The one-character string for one decimal digit.
fn dec_digit_str(d: i32) -> (r: &'static str)
    requires
        0 <= d <= 9,
    ensures
        r@ =~= seq![dec_digit_char(d as int)],
{
    proof {
        reveal_strlit("0");
        reveal_strlit("1");
        reveal_strlit("2");
        reveal_strlit("3");
        reveal_strlit("4");
        reveal_strlit("5");
        reveal_strlit("6");
        reveal_strlit("7");
        reveal_strlit("8");
        reveal_strlit("9");
    }
    match d {
        0 => "0",
        1 => "1",
        2 => "2",
        3 => "3",
        4 => "4",
        5 => "5",
        6 => "6",
        7 => "7",
        8 => "8",
        _ => "9",
    }
}

/// Renders a non-negative integer in decimal.
pub fn i32_dec_string(n: i32) -> (s: String)
    requires
        n >= 0,
    ensures
        s@ == dec_str(n as int),
    decreases n,
{
    if n < 10 {
        String::from_str(dec_digit_str(n))
    } else {
        let mut s = i32_dec_string(n / 10);
        s.append(dec_digit_str(n % 10));
        proof {
            assert(s@ =~= dec_str(n as int));
        }
        s
    }
}

// ---------------------------------------------------------------------------
// Strict parsing of non-negative integers
// ---------------------------------------------------------------------------

/// The digit part of a numeric string: everything after an optional leading
/// plus sign.
pub open spec fn digits_part(s: Seq<char>) -> Seq<char> {
    if s.len() > 0 && s[0] == '+' {
        s.subrange(1, s.len() as int)
    } else {
        s
    }
}

pub open spec fn all_dec_digits(s: Seq<char>) -> bool {
    forall|i: int| 0 <= i < s.len() ==> is_dec_digit(#[trigger] s[i])
}

/// The value of a string of decimal digits, most significant first.
pub open spec fn digits_val(s: Seq<char>) -> int
    decreases s.len(),
{
    if s.len() == 0 {
        0
    } else {
        digits_val(s.drop_last()) * 10 + digit_val(s.last())
    }
}

/// A well-formed non-negative integer: an optional plus sign followed by at
/// least one decimal digit — no spaces, decimals or units.
pub open spec fn nonneg_int_grammar(s: Seq<char>) -> bool {
    digits_part(s).len() >= 1 && all_dec_digits(digits_part(s))
}

/// What strict parsing of a non-negative 32-bit integer yields: the digits'
/// value when the string is well formed and the value representable, nothing
/// otherwise.
pub open spec fn spec_parse_nonneg(s: Seq<char>) -> Option<int> {
    if nonneg_int_grammar(s) && digits_val(digits_part(s)) <= i32::MAX as int {
        Some(digits_val(digits_part(s)))
    } else {
        None
    }
}

pub proof fn lemma_digits_val_nonneg(s: Seq<char>)
    requires
        all_dec_digits(s),
    ensures
        digits_val(s) >= 0,
    decreases s.len(),
{
    if s.len() > 0 {
        assert(all_dec_digits(s.drop_last()));
        lemma_digits_val_nonneg(s.drop_last());
    }
}

/// The value of a digit string is at least the value of any of its prefixes.
pub proof fn lemma_digits_val_prefix_le(s: Seq<char>, k: int)
    requires
        all_dec_digits(s),
        0 <= k <= s.len(),
    ensures
        digits_val(s.subrange(0, k)) <= digits_val(s),
    decreases s.len(),
{
    if k == s.len() {
        assert(s.subrange(0, k) =~= s);
    } else {
        let d = s.drop_last();
        assert(all_dec_digits(d));
        assert(s.subrange(0, k) =~= d.subrange(0, k));
        lemma_digits_val_prefix_le(d, k);
        lemma_digits_val_nonneg(d);
    }
}

/// Strict parse of a non-negative 32-bit integer: an optional plus sign, then
/// decimal digits; fails on anything else and on overflow.
pub fn parse_nonneg_i32(s: &str) -> (r: Option<i32>)
    ensures
        match r {
            Some(v) => v >= 0 && spec_parse_nonneg(s@) == Some(v as int),
            None => spec_parse_nonneg(s@) is None,
        },
{
    let len = s.unicode_len();
    let start: usize = if len > 0 && s.get_char(0) == '+' {
        1
    } else {
        0
    };
    let ghost d = digits_part(s@);
    proof {
        assert(d =~= s@.subrange(start as int, len as int));
    }
    if len == start {
        return None;
    }
    let mut acc: i64 = 0;
    let mut i: usize = start;
    while i < len
        invariant
            start <= i <= len,
            len == s@.len(),
            d == digits_part(s@),
            d == s@.subrange(start as int, len as int),
            all_dec_digits(d.subrange(0, i - start)),
            acc == digits_val(d.subrange(0, i - start)),
            0 <= acc <= i32::MAX as i64,
        decreases len - i,
    {
        let c = s.get_char(i);
        let cv = c as u32;
        if cv < 48 || cv > 57 {
            proof {
                assert(d[i - start] == s@[i as int]);
                assert(!is_dec_digit(d[i - start]));
            }
            return None;
        }
        let dv: i64 = (cv - 48) as i64;
        let ghost prefix = d.subrange(0, i - start);
        let ghost prefix2 = d.subrange(0, i + 1 - start);
        proof {
            assert(prefix2.drop_last() =~= prefix);
            assert(prefix2.last() == d[i - start]);
            assert(d[i - start] == s@[i as int]);
            assert(digits_val(prefix2) == acc * 10 + dv);
        }
        acc = acc * 10 + dv;
        if acc > i32::MAX as i64 {
            proof {
                if nonneg_int_grammar(s@) {
                    lemma_digits_val_prefix_le(d, i + 1 - start);
                }
            }
            return None;
        }
        i = i + 1;
    }
    proof {
        assert(d.subrange(0, len - start) =~= d);
    }
    Some(acc as i32)
}

/// Strict parse of a positive 32-bit integer: as `parse_nonneg_i32`, and the
/// value must be at least one.
pub fn parse_pos_i32(s: &str) -> (r: Option<i32>)
    ensures
        match r {
            Some(v) => spec_parse_nonneg(s@) == Some(v as int) && v >= 1,
            None => spec_parse_nonneg(s@) is None || spec_parse_nonneg(s@) == Some(0int),
        },
{
    match parse_nonneg_i32(s) {
        Some(v) => {
            if v >= 1 {
                Some(v)
            } else {
                None
            }
        },
        None => None,
    }
}

// ---------------------------------------------------------------------------
// Substring search
// ---------------------------------------------------------------------------

/// Whether `n` occurs in `h` as a contiguous run of characters.
pub open spec fn contains_seq(h: Seq<char>, n: Seq<char>) -> bool {
    exists|i: int|
        0 <= i <= h.len() - n.len() && #[trigger] h.subrange(i, i + n.len() as int) == n
}

/// Whether `n@` occurs at position `at` of `h@`.
fn matches_at(h: &str, n: &str, at: usize) -> (r: bool)
    requires
        at + n@.len() <= h@.len() <= usize::MAX,
    ensures
        r == (h@.subrange(at as int, at + n@.len() as int) == n@),
{
    let nlen = n.unicode_len();
    let mut j: usize = 0;
    while j < nlen
        invariant
            0 <= j <= nlen,
            nlen == n@.len(),
            at + nlen <= h@.len() <= usize::MAX,
            forall|k: int| 0 <= k < j ==> h@[at + k] == n@[k],
        decreases nlen - j,
    {
        if h.get_char(at + j) != n.get_char(j) {
            proof {
                assert(h@.subrange(at as int, at + n@.len() as int)[j as int] != n@[j as int]);
            }
            return false;
        }
        j = j + 1;
    }
    proof {
        assert(h@.subrange(at as int, at + n@.len() as int) =~= n@);
    }
    true
}

/// Whether the characters of `n` occur contiguously in `h`.
pub fn str_contains(h: &str, n: &str) -> (r: bool)
    ensures
        r == contains_seq(h@, n@),
{
    let hlen = h.unicode_len();
    let nlen = n.unicode_len();
    if nlen > hlen {
        return false;
    }
    let bound = hlen - nlen;
    let mut i: usize = 0;
    loop
        invariant
            0 <= i <= bound,
            bound == hlen - nlen,
            nlen <= hlen,
            hlen == h@.len(),
            nlen == n@.len(),
            forall|k: int|
                0 <= k < i ==> #[trigger] h@.subrange(k, k + n@.len() as int) != n@,
        decreases bound - i,
    {
        if matches_at(h, n, i) {
            return true;
        }
        if i == bound {
            proof {
                assert(forall|k: int|
                    0 <= k <= h@.len() - n@.len() ==> #[trigger] h@.subrange(
                        k,
                        k + n@.len() as int,
                    ) != n@);
            }
            return false;
        }
        i = i + 1;
    }
}

// ---------------------------------------------------------------------------
// ASCII-case-insensitive equality
// ---------------------------------------------------------------------------

pub open spec fn is_ascii_upper(c: char) -> bool {
    65 <= c as int <= 90
}

/// Two characters are equal up to ASCII case.
pub open spec fn chars_eq_ic(a: char, b: char) -> bool {
    ||| a == b
    ||| (is_ascii_upper(a) && b as int == a as int + 32)
    ||| (is_ascii_upper(b) && a as int == b as int + 32)
}

/// Character-wise equality up to ASCII case.
pub open spec fn eq_ignore_case(a: Seq<char>, b: Seq<char>) -> bool {
    a.len() == b.len() && forall|i: int| 0 <= i < a.len() ==> chars_eq_ic(#[trigger] a[i], b[i])
}

/// Compares two strings for equality, treating ASCII letters of either case
/// as the same.
pub fn str_eq_ignore_case(a: &str, b: &str) -> (r: bool)
    ensures
        r == eq_ignore_case(a@, b@),
{
    let alen = a.unicode_len();
    let blen = b.unicode_len();
    if alen != blen {
        return false;
    }
    let mut i: usize = 0;
    while i < alen
        invariant
            0 <= i <= alen,
            alen == a@.len(),
            alen == b@.len(),
            forall|k: int| 0 <= k < i ==> chars_eq_ic(#[trigger] a@[k], b@[k]),
        decreases alen - i,
    {
        let ca = a.get_char(i) as u32;
        let cb = b.get_char(i) as u32;
        let same = ca == cb || (65 <= ca && ca <= 90 && cb == ca + 32) || (65 <= cb && cb <= 90
            && ca == cb + 32);
        if !same {
            return false;
        }
        i = i + 1;
    }
    true
}

// ---------------------------------------------------------------------------
// Blank strings
// ---------------------------------------------------------------------------

pub open spec fn is_space_char(c: char) -> bool {
    c == ' ' || 9 <= c as int <= 13
}

/// A string that is empty or all whitespace.
pub open spec fn is_blank(s: Seq<char>) -> bool {
    forall|i: int| 0 <= i < s.len() ==> is_space_char(#[trigger] s[i])
}

/// Whether a string holds nothing but whitespace (or nothing at all).
pub fn str_is_blank(s: &str) -> (r: bool)
    ensures
        r == is_blank(s@),
{
    let len = s.unicode_len();
    let mut i: usize = 0;
    while i < len
        invariant
            0 <= i <= len,
            len == s@.len(),
            forall|k: int| 0 <= k < i ==> is_space_char(#[trigger] s@[k]),
        decreases len - i,
    {
        let c = s.get_char(i) as u32;
        if !(c == 32 || (9 <= c && c <= 13)) {
            return false;
        }
        i = i + 1;
    }
    true
}

} // verus!
