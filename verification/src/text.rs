//! Small string helpers shared by the enum codecs and converters.

use crate::decimal::{decimal_text, digit_char, digits_of};
use vstd::prelude::*;

verus! {

/// Character-wise equality of two string slices.
pub fn str_eq(a: &str, b: &str) -> (r: bool)
    ensures
        r == (a@ == b@),
{
    let n = a.unicode_len();
    let m = b.unicode_len();
    if n != m {
        return false;
    }
    let mut i: usize = 0;
    while i < n
        invariant
            n == a@.len(),
            m == b@.len(),
            n == m,
            i <= n,
            forall|j: int| 0 <= j < i ==> a@[j] == b@[j],
        decreases n - i,
    {
        if a.get_char(i) != b.get_char(i) {
            return false;
        }
        i = i + 1;
    }
    proof {
        assert(a@ =~= b@);
    }
    true
}

/// ASCII lowercase of one character; other characters are unchanged.
pub open spec fn ascii_lower(c: char) -> char {
    if 'A' <= c && c <= 'Z' {
        ((c as u32) + 32) as char
    } else {
        c
    }
}

/// ASCII lowercase of a text (`str::to_ascii_lowercase`).
pub open spec fn ascii_lower_seq(s: Seq<char>) -> Seq<char> {
    s.map_values(|c: char| ascii_lower(c))
}

fn lower_char_is(c: char, d: char) -> (r: bool)
    ensures
        r == (ascii_lower(c) == d),
{
    if 'A' <= c && c <= 'Z' {
        (c as u32) + 32 == (d as u32)
    } else {
        c == d
    }
}

/// Whether the ASCII lowercase of `a` is exactly `b`.
pub fn lower_eq(a: &str, b: &str) -> (r: bool)
    ensures
        r == (ascii_lower_seq(a@) == b@),
{
    let n = a.unicode_len();
    let m = b.unicode_len();
    if n != m {
        proof {
            assert(ascii_lower_seq(a@).len() == n);
        }
        return false;
    }
    let mut i: usize = 0;
    while i < n
        invariant
            n == a@.len(),
            m == b@.len(),
            n == m,
            i <= n,
            forall|j: int| 0 <= j < i ==> ascii_lower(a@[j]) == b@[j],
        decreases n - i,
    {
        if !lower_char_is(a.get_char(i), b.get_char(i)) {
            proof {
                assert(ascii_lower_seq(a@)[i as int] != b@[i as int]);
            }
            return false;
        }
        i = i + 1;
    }
    proof {
        assert(ascii_lower_seq(a@) =~= b@);
    }
    true
}


/// The text held by an optional string, or the empty text.
pub open spec fn opt_text(o: Option<String>) -> Seq<char> {
    match o {
        Some(s) => s@,
        None => Seq::empty(),
    }
}

/// The string held, or an empty string (`Option::unwrap_or_default`).
pub fn string_or_empty(o: Option<String>) -> (r: String)
    ensures
        r@ == opt_text(o),
{
    match o {
        Some(s) => s,
        None => String::new(),
    }
}

/// The characters of decimal digits given least significant first, in
/// reading order.
pub open spec fn digits_text(ds: Seq<u8>) -> Seq<char> {
    Seq::new(ds.len(), |i: int| digit_char(ds[ds.len() - 1 - i] as nat))
}

fn digit_str(d: u8) -> (r: &'static str)
    requires
        d < 10,
    ensures
        r@ == seq![digit_char(d as nat)],
{
    proof {
        reveal_strlit("0");
        reveal_strlit("1");
        reveal_strlit("2");
        reveal_strlit("3");
        reveal_strlit("4");
        reveal_strlit("5");
        reveal_strlit("6");
        reveal_strlit("7");
        reveal_strlit("8");
        reveal_strlit("9");
    }
    if d == 0 {
        "0"
    } else if d == 1 {
        "1"
    } else if d == 2 {
        "2"
    } else if d == 3 {
        "3"
    } else if d == 4 {
        "4"
    } else if d == 5 {
        "5"
    } else if d == 6 {
        "6"
    } else if d == 7 {
        "7"
    } else if d == 8 {
        "8"
    } else {
        "9"
    }
}

/// Decimal text of an integer (what `format!("{}", n)` writes): a minus
/// sign for negatives, then the digits without leading zeros, or `0`.
pub fn int_to_text(n: i64) -> (r: String)
    ensures
        r@ == decimal_text(n as int, 0),
{
    let neg = n < 0;
    let mut m: u64 = if neg {
        if n == i64::MIN {
            9223372036854775808u64
        } else {
            (-n) as u64
        }
    } else {
        n as u64
    };
    let ghost mag: nat = if n < 0 { (-n) as nat } else { n as nat };
    let mut ds: Vec<u8> = Vec::new();
    while m > 0
        invariant
            digits_of(mag) == digits_of(m as nat) + digits_text(ds@),
            forall|i: int| 0 <= i < ds@.len() ==> ds@[i] < 10,
        decreases m,
    {
        let d = (m % 10) as u8;
        proof {
            let t = digits_text(ds@.push(d));
            assert(t =~= seq![digit_char(d as nat)] + digits_text(ds@));
            assert(digits_of(m as nat) == digits_of((m / 10) as nat).push(digit_char((m % 10) as nat)));
            assert(digits_of((m / 10) as nat).push(digit_char(d as nat)) + digits_text(ds@)
                =~= digits_of((m / 10) as nat) + t);
        }
        ds.push(d);
        m = m / 10;
    }
    assert(digits_of(0) =~= Seq::<char>::empty());
    assert(digits_of(mag) =~= digits_text(ds@));
    let mut s = if neg {
        String::from_str("-")
    } else {
        String::new()
    };
    let ghost prefix = s@;
    let mut j: usize = ds.len();
    while j > 0
        invariant
            j <= ds@.len(),
            forall|i: int| 0 <= i < ds@.len() ==> ds@[i] < 10,
            s@ == prefix + digits_text(ds@).take(ds@.len() - j),
        decreases j,
    {
        j = j - 1;
        let piece = digit_str(ds[j]);
        proof {
            assert(digits_text(ds@).take(ds@.len() - j) =~= digits_text(ds@).take(ds@.len() - j - 1)
                + seq![digit_char(ds@[j as int] as nat)]);
        }
        s = s.concat(piece);
    }
    proof {
        assert(digits_text(ds@).take(ds@.len() as int) =~= digits_text(ds@));
        reveal_strlit("-");
        if n == 0 {
            assert(digits_text(ds@) =~= Seq::<char>::empty());
        }
    }
    if n == 0 {
        proof {
            reveal_strlit("0");
            assert(digits_of(0) =~= Seq::<char>::empty());
            assert(decimal_text(0, 0) =~= seq!['0']);
        }
        return String::from_str("0");
    }
    s
}

/// Unicode white space (`char::is_whitespace`).
pub open spec fn is_ws(c: char) -> bool {
    ||| ('\u{9}' <= c && c <= '\u{d}')
    ||| c == ' '
    ||| c == '\u{85}'
    ||| c == '\u{a0}'
    ||| c == '\u{1680}'
    ||| ('\u{2000}' <= c && c <= '\u{200a}')
    ||| c == '\u{2028}'
    ||| c == '\u{2029}'
    ||| c == '\u{202f}'
    ||| c == '\u{205f}'
    ||| c == '\u{3000}'
}

fn char_is_ws(c: char) -> (r: bool)
    ensures
        r == is_ws(c),
{
    ('\u{9}' <= c && c <= '\u{d}') || c == ' ' || c == '\u{85}' || c == '\u{a0}' || c
        == '\u{1680}' || ('\u{2000}' <= c && c <= '\u{200a}') || c == '\u{2028}' || c
        == '\u{2029}' || c == '\u{202f}' || c == '\u{205f}' || c == '\u{3000}'
}

/// Index of the first character that is not white space, from `i` on.
pub open spec fn first_non_ws(s: Seq<char>, i: int) -> int
    decreases s.len() - i,
{
    if i < 0 || i >= s.len() {
        s.len() as int
    } else if !is_ws(s[i]) {
        i
    } else {
        first_non_ws(s, i + 1)
    }
}

/// One past the index of the last character that is not white space,
/// looking below `j`.
pub open spec fn last_non_ws_end(s: Seq<char>, j: int) -> int
    decreases j,
{
    if j <= 0 || j > s.len() {
        0
    } else if !is_ws(s[j - 1]) {
        j
    } else {
        last_non_ws_end(s, j - 1)
    }
}

/// The text without leading and trailing white space (`str::trim`).
pub open spec fn trim_seq(s: Seq<char>) -> Seq<char> {
    let a = first_non_ws(s, 0);
    let b = last_non_ws_end(s, s.len() as int);
    if a < b {
        s.subrange(a, b)
    } else {
        Seq::empty()
    }
}

/// Bytes that a character takes in UTF-8.
pub open spec fn utf8_width(c: char) -> int {
    if (c as u32) < 0x80 {
        1
    } else if (c as u32) < 0x800 {
        2
    } else if (c as u32) < 0x10000 {
        3
    } else {
        4
    }
}

/// Bytes that a text takes in UTF-8 (`str::len`).
pub open spec fn utf8_len(s: Seq<char>) -> int
    decreases s.len(),
{
    if s.len() == 0 {
        0
    } else {
        utf8_len(s.drop_last()) + utf8_width(s.last())
    }
}

/// Whether a text without its surrounding white space is empty, and its
/// UTF-8 length when that is at most `cap`: `(empty, length or cap + 1)`.
pub fn trimmed_len_capped(s: &str, cap: usize) -> (r: (bool, usize))
    requires
        cap < usize::MAX,
    ensures
        r.0 == (trim_seq(s@).len() == 0),
        utf8_len(trim_seq(s@)) <= cap ==> r.1 == utf8_len(trim_seq(s@)),
        utf8_len(trim_seq(s@)) > cap ==> r.1 == cap + 1,
{
    let n = s.unicode_len();
    let mut a: usize = 0;
    while a < n && char_is_ws(s.get_char(a))
        invariant
            n == s@.len(),
            a <= n,
            first_non_ws(s@, 0) == first_non_ws(s@, a as int),
        decreases n - a,
    {
        a = a + 1;
    }
    let mut b: usize = n;
    while b > a && char_is_ws(s.get_char(b - 1))
        invariant
            n == s@.len(),
            a <= b <= n,
            first_non_ws(s@, 0) == a as int,
            a < n ==> !is_ws(s@[a as int]),
            last_non_ws_end(s@, n as int) == last_non_ws_end(s@, b as int),
        decreases b,
    {
        b = b - 1;
    }
    proof {
        lemma_last_non_ws_stops(s@, a as int, b as int);
    }
    let ghost t = trim_seq(s@);
    assert(t =~= s@.subrange(a as int, b as int));
    let mut k: usize = a;
    let mut len: usize = 0;
    while k < b
        invariant
            n == s@.len(),
            a <= k <= b <= n,
            cap < usize::MAX,
            utf8_len(s@.subrange(a as int, k as int)) <= cap ==> len == utf8_len(
                s@.subrange(a as int, k as int),
            ),
            utf8_len(s@.subrange(a as int, k as int)) > cap ==> len == cap + 1,
        decreases b - k,
    {
        let c = s.get_char(k);
        let w: usize = if (c as u32) < 0x80 {
            1
        } else if (c as u32) < 0x800 {
            2
        } else if (c as u32) < 0x10000 {
            3
        } else {
            4
        };
        proof {
            let sub = s@.subrange(a as int, k as int + 1);
            assert(sub.drop_last() =~= s@.subrange(a as int, k as int));
            assert(sub.last() == c);
            lemma_utf8_len_nonneg(s@.subrange(a as int, k as int));
        }
        if len > cap || w > cap - len {
            len = cap + 1;
        } else {
            len = len + w;
        }
        k = k + 1;
    }
    (a == b, len)
}

proof fn lemma_utf8_len_nonneg(s: Seq<char>)
    ensures
        utf8_len(s) >= 0,
    decreases s.len(),
{
    if s.len() > 0 {
        lemma_utf8_len_nonneg(s.drop_last());
    }
}

proof fn lemma_last_non_ws_stops(s: Seq<char>, a: int, b: int)
    requires
        0 <= a <= b <= s.len(),
        first_non_ws(s, 0) == a,
        a < s.len() ==> !is_ws(s[a]),
        b > a ==> !is_ws(s[b - 1]),
        last_non_ws_end(s, s.len() as int) == last_non_ws_end(s, b),
    ensures
        last_non_ws_end(s, s.len() as int) == if a < s.len() { b } else { 0 },
{
    if b > a {
    } else if a < s.len() {
        lemma_last_ge(s, a, s.len() as int);
        lemma_last_le(s, b);
    } else {
        lemma_last_all_ws(s, b);
    }
}

proof fn lemma_last_ge(s: Seq<char>, a: int, j: int)
    requires
        0 <= a < j <= s.len(),
        !is_ws(s[a]),
    ensures
        last_non_ws_end(s, j) >= a + 1,
    decreases j,
{
    if j > a + 1 && is_ws(s[j - 1]) {
        lemma_last_ge(s, a, j - 1);
    }
}

proof fn lemma_last_le(s: Seq<char>, j: int)
    requires
        0 <= j <= s.len(),
    ensures
        last_non_ws_end(s, j) <= j,
    decreases j,
{
    if j > 0 {
        lemma_last_le(s, j - 1);
    }
}

proof fn lemma_last_all_ws(s: Seq<char>, b: int)
    requires
        0 <= b <= s.len(),
        first_non_ws(s, 0) == s.len(),
    ensures
        last_non_ws_end(s, b) == 0,
    decreases b,
{
    if b > 0 {
        lemma_first_all_ws(s, 0);
        lemma_last_all_ws(s, b - 1);
    }
}

proof fn lemma_first_all_ws(s: Seq<char>, i: int)
    requires
        0 <= i <= s.len(),
        first_non_ws(s, i) == s.len(),
    ensures
        forall|k: int| i <= k < s.len() ==> is_ws(s[k]),
    decreases s.len() - i,
{
    if i < s.len() {
        lemma_first_all_ws(s, i + 1);
    }
}

} // verus!
