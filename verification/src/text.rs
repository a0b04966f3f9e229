//! Character-level text helpers: conversion to characters, substring
//! search, Unicode whitespace trimming, and case mapping.
use vstd::prelude::*;

verus! {

/// The characters of a string, in order.
pub fn chars_of(s: &str) -> (r: Vec<char>)
    ensures
        r@ == s@,
{
    let mut r: Vec<char> = Vec::new();
    for c in it: s.chars()
        invariant
            r@ == it.seq().take(it.index() as int),
    {
        r.push(c);
    }
    r
}

/// `needle` occurs in `hay` starting at position `i`.
pub open spec fn occurs_at(hay: Seq<char>, needle: Seq<char>, i: int) -> bool {
    0 <= i && i + needle.len() <= hay.len() && hay.subrange(i, i + needle.len()) == needle
}

/// `needle` occurs somewhere in `hay` (the empty needle occurs everywhere).
pub open spec fn seq_contains(hay: Seq<char>, needle: Seq<char>) -> bool {
    exists|i: int| #[trigger] occurs_at(hay, needle, i)
}

/// Whether `needle` occurs in `hay` as a contiguous run of characters.
pub fn contains_chars(hay: &Vec<char>, needle: &Vec<char>) -> (r: bool)
    ensures
        r == seq_contains(hay@, needle@),
{
    let n = needle.len();
    if n > hay.len() {
        assert forall|i: int| !occurs_at(hay@, needle@, i) by {}
        return false;
    }
    if n == 0 {
        assert(hay@.subrange(0, 0) =~= needle@);
        assert(occurs_at(hay@, needle@, 0));
        return true;
    }
    let last = hay.len() - n;
    let mut i: usize = 0;
    while i <= last
        invariant
            n == needle@.len(),
            n > 0,
            last == hay@.len() - n,
            hay@.len() <= usize::MAX,
            0 <= i <= last + 1,
            forall|k: int| 0 <= k < i ==> !#[trigger] occurs_at(hay@, needle@, k),
        decreases last + 1 - i,
    {
        let mut j: usize = 0;
        let mut matched = true;
        while j < n
            invariant
                n == needle@.len(),
                hay@.len() <= usize::MAX,
                i <= last,
                last == hay@.len() - n,
                0 <= j <= n,
                matched ==> forall|m: int| 0 <= m < j ==> hay@[i + m] == needle@[m],
                !matched ==> !occurs_at(hay@, needle@, i as int),
            decreases n - j,
        {
            if hay[i + j] != needle[j] {
                matched = false;
                assert(hay@.subrange(i as int, i + n)[j as int] != needle@[j as int]);
            }
            j = j + 1;
        }
        if matched {
            assert(hay@.subrange(i as int, i + n) =~= needle@);
            assert(occurs_at(hay@, needle@, i as int));
            return true;
        }
        i = i + 1;
    }
    assert forall|k: int| !occurs_at(hay@, needle@, k) by {
        if 0 <= k < i {
        }
    }
    false
}

/// Unicode `White_Space`, the set that `char::is_whitespace` and `str::trim` use.
pub open spec fn is_white_space(c: char) -> bool {
    ||| ('\u{9}' <= c && c <= '\u{d}')
    ||| c == ' '
    ||| c == '\u{85}'
    ||| c == '\u{a0}'
    ||| c == '\u{1680}'
    ||| ('\u{2000}' <= c && c <= '\u{200a}')
    ||| c == '\u{2028}'
    ||| c == '\u{2029}'
    ||| c == '\u{202f}'
    ||| c == '\u{205f}'
    ||| c == '\u{3000}'
}

/// Whether `c` is Unicode whitespace.
pub fn is_whitespace(c: char) -> (r: bool)
    ensures
        r == is_white_space(c),
{
    ('\u{9}' <= c && c <= '\u{d}') || c == ' ' || c == '\u{85}' || c == '\u{a0}' || c == '\u{1680}'
        || ('\u{2000}' <= c && c <= '\u{200a}') || c == '\u{2028}' || c == '\u{2029}'
        || c == '\u{202f}' || c == '\u{205f}' || c == '\u{3000}'
}

/// Number of leading whitespace characters.
pub open spec fn leading_ws(s: Seq<char>) -> nat
    decreases s.len(),
{
    if s.len() > 0 && is_white_space(s[0]) {
        1 + leading_ws(s.drop_first())
    } else {
        0
    }
}

/// `s` with leading and trailing whitespace removed, as `str::trim` gives it.
pub open spec fn trimmed(s: Seq<char>) -> Seq<char>
    decreases s.len(),
{
    if s.len() > 0 && is_white_space(s[0]) {
        trimmed(s.drop_first())
    } else if s.len() > 0 && is_white_space(s.last()) {
        trimmed(s.drop_last())
    } else {
        s
    }
}

proof fn lemma_trimmed_bounds(s: Seq<char>, lo: int, hi: int)
    requires
        0 <= lo <= hi <= s.len(),
        forall|k: int| 0 <= k < lo ==> is_white_space(#[trigger] s[k]),
        forall|k: int| hi <= k < s.len() ==> is_white_space(#[trigger] s[k]),
        lo < hi ==> !is_white_space(s[lo]) && !is_white_space(s[hi - 1]),
    ensures
        trimmed(s) == s.subrange(lo, hi),
    decreases s.len(),
{
    if s.len() > 0 && is_white_space(s[0]) {
        let t = s.drop_first();
        if lo == 0 {
            // then lo == hi == 0 and everything is whitespace
            assert(hi == 0);
            lemma_trimmed_bounds(t, 0, 0);
            assert(t.subrange(0, 0) =~= s.subrange(0, 0));
        } else {
            lemma_trimmed_bounds(t, lo - 1, hi - 1);
            assert(t.subrange(lo - 1, hi - 1) =~= s.subrange(lo, hi));
        }
    } else if s.len() > 0 && is_white_space(s.last()) {
        let t = s.drop_last();
        if hi == s.len() {
            assert(lo == hi);
            lemma_trimmed_bounds(t, t.len() as int, t.len() as int);
            assert(t.subrange(t.len() as int, t.len() as int) =~= s.subrange(lo, hi));
        } else {
            lemma_trimmed_bounds(t, lo, hi);
            assert(t.subrange(lo, hi) =~= s.subrange(lo, hi));
        }
    } else {
        if s.len() > 0 {
            assert(lo == 0) by {
                if lo > 0 {
                    assert(is_white_space(s[0]));
                }
            }
            assert(hi == s.len()) by {
                if hi < s.len() {
                    assert(is_white_space(s[s.len() - 1]));
                }
            }
        }
        assert(s.subrange(lo, hi) =~= s);
    }
}

/// The characters of `s` with leading and trailing whitespace removed.
pub fn trimmed_chars(s: &str) -> (r: Vec<char>)
    ensures
        r@ == trimmed(s@),
{
    let cs = chars_of(s);
    let n = cs.len();
    let mut lo: usize = 0;
    while lo < n && is_whitespace(cs[lo])
        invariant
            n == cs@.len(),
            0 <= lo <= n,
            forall|k: int| 0 <= k < lo ==> is_white_space(#[trigger] cs@[k]),
        decreases n - lo,
    {
        lo = lo + 1;
    }
    let mut hi: usize = n;
    while hi > lo && is_whitespace(cs[hi - 1])
        invariant
            n == cs@.len(),
            0 <= lo <= hi <= n,
            forall|k: int| hi <= k < n ==> is_white_space(#[trigger] cs@[k]),
        decreases hi - lo,
    {
        hi = hi - 1;
    }
    let mut r: Vec<char> = Vec::new();
    let mut k: usize = lo;
    while k < hi
        invariant
            n == cs@.len(),
            lo <= k <= hi <= n,
            r@ == cs@.subrange(lo as int, k as int),
        decreases hi - k,
    {
        r.push(cs[k]);
        k = k + 1;
    }
    proof {
        lemma_trimmed_bounds(cs@, lo as int, hi as int);
    }
    r
}

/// The lower-case mapping of `str::to_lowercase`: full Unicode case
/// mapping, a function of the string alone.
pub uninterp spec fn lowercase_of(s: Seq<char>) -> Seq<char>;

/// The upper-case mapping of `str::to_uppercase`: full Unicode case
/// mapping, a function of the string alone.
pub uninterp spec fn uppercase_of(s: Seq<char>) -> Seq<char>;

/// Calls `str::to_lowercase` and hands back its characters; the result is
/// named by `lowercase_of` (the Unicode tables are not restated here).
#[verifier::external_body]
pub(crate) fn lowercase_chars(s: &str) -> (r: Vec<char>)
    ensures
        r@ == lowercase_of(s@),
{
    s.to_lowercase().chars().collect()
}

/// Calls `str::to_uppercase` and hands back its characters; the result is
/// named by `uppercase_of` (the Unicode tables are not restated here).
#[verifier::external_body]
pub(crate) fn uppercase_chars(s: &str) -> (r: Vec<char>)
    ensures
        r@ == uppercase_of(s@),
{
    s.to_uppercase().chars().collect()
}

/// The decimal digit character for `d` (0..=9).
pub open spec fn digit_char(d: nat) -> char {
    (48 + d) as char
}

/// The decimal representation of `n`, without leading zeros.
pub open spec fn decimal(n: nat) -> Seq<char>
    decreases n,
{
    if n < 10 {
        seq![digit_char(n)]
    } else {
        decimal(n / 10) + seq![digit_char(n % 10)]
    }
}

/// `s` with zeros in front to make it at least `width` characters long.
pub open spec fn zero_padded(s: Seq<char>, width: nat) -> Seq<char> {
    Seq::new(if s.len() >= width { 0 } else { (width - s.len()) as nat }, |_i: int| '0') + s
}

fn digit_str(d: u32) -> (r: &'static str)
    requires
        d < 10,
    ensures
        r@ == seq![digit_char(d as nat)],
{
    proof {
        reveal_strlit("0");
        reveal_strlit("1");
        reveal_strlit("2");
        reveal_strlit("3");
        reveal_strlit("4");
        reveal_strlit("5");
        reveal_strlit("6");
        reveal_strlit("7");
        reveal_strlit("8");
        reveal_strlit("9");
    }
    let r = match d {
        0 => "0",
        1 => "1",
        2 => "2",
        3 => "3",
        4 => "4",
        5 => "5",
        6 => "6",
        7 => "7",
        8 => "8",
        _ => "9",
    };
    assert(r@ =~= seq![digit_char(d as nat)]);
    r
}

/// `n` written in decimal, as `to_string` writes it.
pub fn decimal_string(n: u32) -> (r: String)
    ensures
        r@ == decimal(n as nat),
{
    let mut r = digit_str(n % 10).to_owned();
    let mut m: u32 = n / 10;
    while m > 0
        invariant
            decimal(n as nat) == (if m == 0 { Seq::<char>::empty() } else { decimal(m as nat) }) + r@,
        decreases m,
    {
        let mut t = digit_str(m % 10).to_owned();
        t.append(r.as_str());
        proof {
            if m / 10 == 0 {
                assert(decimal(m as nat) == seq![digit_char(m as nat)]);
                assert(m % 10 == m);
            }
            assert(decimal(m as nat) == (if m / 10 == 0 { Seq::<char>::empty() } else { decimal((m / 10) as nat) }) + seq![digit_char((m % 10) as nat)]);
        }
        r = t;
        m = m / 10;
        assert(decimal(n as nat) =~= (if m == 0 { Seq::<char>::empty() } else { decimal(m as nat) }) + r@);
    }
    assert(decimal(n as nat) =~= r@);
    r
}

/// `n` in decimal, zero-padded to at least `width` digits, as
/// `format!("{:0w$}", n)` writes it.
pub fn zero_padded_decimal(n: u32, width: usize) -> (r: String)
    ensures
        r@ == zero_padded(decimal(n as nat), width as nat),
{
    let digits = decimal_string(n);
    let len = digits.unicode_len();
    let fill: usize = if len >= width { 0 } else { width - len };
    let mut r = String::new();
    let mut k: usize = 0;
    while k < fill
        invariant
            k <= fill,
            r@ == Seq::new(k as nat, |_i: int| '0'),
        decreases fill - k,
    {
        proof {
            reveal_strlit("0");
        }
        r.append("0");
        k = k + 1;
        assert(r@ =~= Seq::new(k as nat, |_i: int| '0'));
    }
    r.append(digits.as_str());
    assert(r@ =~= zero_padded(decimal(n as nat), width as nat));
    r
}

/// Every character of `needle` equals the character of `hay` at `i` plus
/// its index.
pub open spec fn chars_match_at(hay: Seq<char>, needle: Seq<char>, i: int) -> bool {
    0 <= i && i + needle.len() <= hay.len()
        && forall|k: int| 0 <= k < needle.len() ==> #[trigger] hay[i + k] == needle[k]
}

/// Substring search, characterised position by position: `needle` occurs
/// in `hay` exactly when at some start every needle character equals the
/// hay character at that start plus its index.
pub proof fn law_contains_positions(hay: Seq<char>, needle: Seq<char>)
    ensures
        seq_contains(hay, needle) <==> exists|i: int| #[trigger] chars_match_at(hay, needle, i),
{
    if seq_contains(hay, needle) {
        let i = choose|i: int| #[trigger] occurs_at(hay, needle, i);
        assert forall|k: int| 0 <= k < needle.len() implies #[trigger] hay[i + k] == needle[k] by {
            assert(hay.subrange(i, i + needle.len())[k] == hay[i + k]);
        }
        assert(chars_match_at(hay, needle, i));
    }
    if exists|i: int| #[trigger] chars_match_at(hay, needle, i) {
        let i = choose|i: int| #[trigger] chars_match_at(hay, needle, i);
        assert forall|k: int| 0 <= k < needle.len() implies hay.subrange(i, i + needle.len())[k] == needle[k] by {
            assert(hay[i + k] == needle[k]);
        }
        assert(hay.subrange(i, i + needle.len()) =~= needle);
        assert(occurs_at(hay, needle, i));
    }
}

proof fn lemma_trim_witness(s: Seq<char>) -> (r: (int, int))
    ensures
        0 <= r.0 <= r.1 <= s.len(),
        trimmed(s) == s.subrange(r.0, r.1),
        forall|k: int| 0 <= k < r.0 ==> is_white_space(#[trigger] s[k]),
        forall|k: int| r.1 <= k < s.len() ==> is_white_space(#[trigger] s[k]),
        r.0 < r.1 ==> !is_white_space(s[r.0]) && !is_white_space(s[r.1 - 1]),
    decreases s.len(),
{
    if s.len() > 0 && is_white_space(s[0]) {
        let t = s.drop_first();
        let (lo, hi) = lemma_trim_witness(t);
        assert(t.subrange(lo, hi) =~= s.subrange(lo + 1, hi + 1));
        assert forall|k: int| 0 <= k < lo + 1 implies is_white_space(#[trigger] s[k]) by {
            if k > 0 {
                assert(s[k] == t[k - 1]);
            }
        }
        assert forall|k: int| hi + 1 <= k < s.len() implies is_white_space(#[trigger] s[k]) by {
            assert(s[k] == t[k - 1]);
        }
        if lo < hi {
            assert(s[lo + 1] == t[lo]);
            assert(s[hi] == t[hi - 1]);
        }
        (lo + 1, hi + 1)
    } else if s.len() > 0 && is_white_space(s.last()) {
        let t = s.drop_last();
        let (lo, hi) = lemma_trim_witness(t);
        assert(t.subrange(lo, hi) =~= s.subrange(lo, hi));
        assert forall|k: int| 0 <= k < lo implies is_white_space(#[trigger] s[k]) by {
            assert(s[k] == t[k]);
        }
        assert forall|k: int| hi <= k < s.len() implies is_white_space(#[trigger] s[k]) by {
            if k < s.len() - 1 {
                assert(s[k] == t[k]);
            }
        }
        if lo < hi {
            assert(s[lo] == t[lo]);
            assert(s[hi - 1] == t[hi - 1]);
        }
        (lo, hi)
    } else {
        assert(s.subrange(0, s.len() as int) =~= s);
        (0, s.len() as int)
    }
}

/// Trimming, characterised: the result is a contiguous part of the text
/// such that everything before and after it is whitespace and, unless it
/// is empty, it neither starts nor ends with whitespace.
pub proof fn law_trimmed(s: Seq<char>)
    ensures
        exists|lo: int, hi: int| {
            &&& 0 <= lo <= hi <= s.len()
            &&& trimmed(s) == s.subrange(lo, hi)
            &&& forall|k: int| 0 <= k < lo ==> is_white_space(#[trigger] s[k])
            &&& forall|k: int| hi <= k < s.len() ==> is_white_space(#[trigger] s[k])
            &&& lo < hi ==> !is_white_space(s[lo]) && !is_white_space(s[hi - 1])
        },
{
    let (lo, hi) = lemma_trim_witness(s);
    assert(0 <= lo <= hi <= s.len());
}

/// Unicode whitespace, listed: tab through carriage return, space, next
/// line, no-break space, Ogham space mark, en quad through hair space, line
/// and paragraph separators, narrow no-break space, medium mathematical
/// space and ideographic space; no ASCII letter or digit is whitespace.
pub proof fn law_white_space(c: char)
    ensures
        ('a' <= c <= 'z' || 'A' <= c <= 'Z' || '0' <= c <= '9') ==> !is_white_space(c),
        (c == ' ' || c == '\t' || c == '\n' || c == '\r') ==> is_white_space(c),
{
}

} // verus!
