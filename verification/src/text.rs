//! Character-level scanning used by the submission parser: finding
//! delimiters, trimming whitespace, and reading unsigned 64-bit numbers
//! written in decimal or with a `0x` hex prefix.

use vstd::prelude::*;

verus! {

/// The whitespace stripped from keys and values: Unicode's white-space
/// characters, the set `str::trim` removes.
pub open spec fn is_space(c: char) -> bool {
    ||| c == ' ' || c == '\t' || c == '\n' || c == '\r'
    ||| c == '\u{000B}' || c == '\u{000C}' || c == '\u{0085}' || c == '\u{00A0}'
    ||| c == '\u{1680}'
    ||| ('\u{2000}' as u32 <= c as u32 && c as u32 <= '\u{200A}' as u32)
    ||| c == '\u{2028}' || c == '\u{2029}' || c == '\u{202F}' || c == '\u{205F}'
    ||| c == '\u{3000}'
}

pub open spec fn is_dec_digit(c: char) -> bool {
    '0' as u32 <= c as u32 && c as u32 <= '9' as u32
}

pub open spec fn is_hex_digit(c: char) -> bool {
    ||| is_dec_digit(c)
    ||| ('a' as u32 <= c as u32 && c as u32 <= 'f' as u32)
    ||| ('A' as u32 <= c as u32 && c as u32 <= 'F' as u32)
}

/// Numeric value of a digit character (0 for anything else).
pub open spec fn digit_value(c: char) -> nat {
    if is_dec_digit(c) {
        (c as u32 - '0' as u32) as nat
    } else if 'a' as u32 <= c as u32 && c as u32 <= 'f' as u32 {
        (c as u32 - 'a' as u32 + 10) as nat
    } else if 'A' as u32 <= c as u32 && c as u32 <= 'F' as u32 {
        (c as u32 - 'A' as u32 + 10) as nat
    } else {
        0
    }
}

/// Distance from the start of `s` to the first occurrence of `d`
/// (`s.len()` when `d` does not occur).
pub open spec fn dist_to(s: Seq<char>, d: char) -> nat
    decreases s.len(),
{
    if s.len() == 0 {
        0
    } else if s[0] == d {
        0
    } else {
        (1 + dist_to(s.drop_first(), d)) as nat
    }
}

pub proof fn lemma_dist_to_is(s: Seq<char>, d: char, j: int)
    requires
        0 <= j <= s.len(),
        forall|k: int| 0 <= k < j ==> s[k] != d,
        j < s.len() ==> s[j] == d,
    ensures
        dist_to(s, d) == j,
    decreases s.len(),
{
    if s.len() > 0 && s[0] != d {
        assert(j >= 1);
        let t = s.drop_first();
        assert forall|k: int| 0 <= k < j - 1 implies t[k] != d by {
            assert(t[k] == s[k + 1]);
        }
        assert(j - 1 < t.len() ==> t[j - 1] == s[j]);
        lemma_dist_to_is(t, d, j - 1);
    }
}

/// Number of whitespace characters at the start of `s`.
pub open spec fn lead_spaces(s: Seq<char>) -> nat
    decreases s.len(),
{
    if s.len() > 0 && is_space(s[0]) {
        (1 + lead_spaces(s.drop_first())) as nat
    } else {
        0
    }
}

/// Number of whitespace characters at the end of `s`.
pub open spec fn tail_spaces(s: Seq<char>) -> nat
    decreases s.len(),
{
    if s.len() > 0 && is_space(s[s.len() - 1]) {
        (1 + tail_spaces(s.drop_last())) as nat
    } else {
        0
    }
}

/// `s` with leading and trailing whitespace removed.
pub open spec fn trim_spec(s: Seq<char>) -> Seq<char> {
    if lead_spaces(s) == s.len() {
        Seq::empty()
    } else {
        s.subrange(lead_spaces(s) as int, s.len() as int - tail_spaces(s) as int)
    }
}

pub proof fn lemma_lead_spaces_is(s: Seq<char>, a: int)
    requires
        0 <= a <= s.len(),
        forall|k: int| 0 <= k < a ==> is_space(s[k]),
        a < s.len() ==> !is_space(s[a]),
    ensures
        lead_spaces(s) == a,
    decreases s.len(),
{
    if s.len() > 0 && is_space(s[0]) {
        assert(a >= 1);
        let t = s.drop_first();
        assert forall|k: int| 0 <= k < a - 1 implies is_space(t[k]) by {
            assert(t[k] == s[k + 1]);
        }
        assert(a - 1 < t.len() ==> t[a - 1] == s[a]);
        lemma_lead_spaces_is(t, a - 1);
    }
}

pub proof fn lemma_tail_spaces_is(s: Seq<char>, b: int)
    requires
        0 <= b <= s.len(),
        forall|k: int| s.len() - b <= k < s.len() ==> is_space(s[k]),
        b < s.len() ==> !is_space(s[s.len() - b - 1]),
    ensures
        tail_spaces(s) == b,
    decreases s.len(),
{
    if s.len() > 0 && is_space(s[s.len() - 1]) {
        assert(b >= 1);
        let t = s.drop_last();
        assert forall|k: int| t.len() - (b - 1) <= k < t.len() implies is_space(t[k]) by {
            assert(t[k] == s[k]);
        }
        assert(b - 1 < t.len() ==> t[t.len() - (b - 1) - 1] == s[s.len() - b - 1]);
        lemma_tail_spaces_is(t, b - 1);
    }
}

/// Place value of a digit string: a left fold with the given base.
pub open spec fn digits_val(s: Seq<char>, base: nat) -> nat
    decreases s.len(),
{
    if s.len() == 0 {
        0
    } else {
        digits_val(s.drop_last(), base) * base + digit_value(s.last())
    }
}

pub open spec fn all_digits(s: Seq<char>, hex: bool) -> bool {
    forall|i: int|
        0 <= i < s.len() ==> (if hex {
            is_hex_digit(s[i])
        } else {
            is_dec_digit(s[i])
        })
}

/// The number a digit string denotes, if it is non-empty, well-formed and
/// fits in 64 bits.
pub open spec fn num_of(s: Seq<char>, hex: bool) -> Option<u64> {
    let base: nat = if hex { 16 } else { 10 };
    if s.len() > 0 && all_digits(s, hex) && digits_val(s, base) <= u64::MAX {
        Some(digits_val(s, base) as u64)
    } else {
        None
    }
}

/// The value of an unsigned 64-bit numeral: decimal, with one leading
/// `+` allowed, or hexadecimal when written with a `0x`/`0X` prefix.
/// Anything else (empty, stray characters, out of range) denotes
/// nothing.
pub open spec fn parse_u64_spec(s: Seq<char>) -> Option<u64> {
    if s.len() >= 2 && s[0] == '0' && (s[1] == 'x' || s[1] == 'X') {
        num_of(s.subrange(2, s.len() as int), true)
    } else if s.len() >= 1 && s[0] == '+' {
        num_of(s.subrange(1, s.len() as int), false)
    } else {
        num_of(s, false)
    }
}

/// Appending digits never decreases the denoted value.
pub proof fn lemma_digits_val_prefix(s: Seq<char>, k: int, base: nat)
    requires
        0 <= k <= s.len(),
        base >= 1,
    ensures
        digits_val(s, base) >= digits_val(s.take(k), base),
    decreases s.len() - k,
{
    if k < s.len() {
        lemma_digits_val_prefix(s, k + 1, base);
        let a = digits_val(s.take(k), base);
        assert(s.take(k + 1).drop_last() =~= s.take(k));
        assert(a * base >= a) by (nonlinear_arith)
            requires
                base >= 1,
        ;
        assert(digits_val(s.take(k + 1), base) >= a);
    } else {
        assert(s.take(k) =~= s);
    }
}

/// Relies on `str::chars`: the iterator yields exactly the characters of
/// the string, in order (the view of a `str` is that character sequence).
#[verifier::external_body]
pub fn chars_of(s: &str) -> (r: Vec<char>)
    ensures
        r@ == s@,
{
    s.chars().collect()
}

/// Relies on `String`'s `FromIterator<char>`: collecting characters in
/// order builds the string whose characters they are.
#[verifier::external_body]
pub fn string_from_chars(v: &Vec<char>) -> (r: String)
    ensures
        r@ == v@,
{
    v.iter().collect()
}

/// An owned copy of a string slice.
pub fn str_owned(s: &str) -> (r: String)
    ensures
        r@ == s@,
{
    let v = chars_of(s);
    string_from_chars(&v)
}

pub fn is_space_char(c: char) -> (r: bool)
    ensures
        r == is_space(c),
{
    c == ' ' || c == '\t' || c == '\n' || c == '\r' || c == '\u{000B}' || c == '\u{000C}'
        || c == '\u{0085}' || c == '\u{00A0}' || c == '\u{1680}'
        || (c as u32 >= '\u{2000}' as u32 && c as u32 <= '\u{200A}' as u32) || c == '\u{2028}'
        || c == '\u{2029}' || c == '\u{202F}' || c == '\u{205F}' || c == '\u{3000}'
}

/// First position of `d` in `v[from..to]`, or `to` if absent.
pub fn find_from(v: &Vec<char>, d: char, from: usize, to: usize) -> (r: usize)
    requires
        from <= to <= v.len(),
    ensures
        from <= r <= to,
        r - from == dist_to(v@.subrange(from as int, to as int), d),
        r < to ==> v@[r as int] == d,
        forall|k: int| from <= k < r ==> v@[k] != d,
{
    let mut i: usize = from;
    while i < to
        invariant
            from <= i <= to <= v.len(),
            forall|k: int| from <= k < i ==> v@[k] != d,
        ensures
            from <= i <= to,
            i < to ==> v@[i as int] == d,
            forall|k: int| from <= k < i ==> v@[k] != d,
        decreases to - i,
    {
        if v[i] == d {
            break;
        }
        i += 1;
    }
    proof {
        let s = v@.subrange(from as int, to as int);
        assert forall|k: int| 0 <= k < i - from implies s[k] != d by {
            assert(s[k] == v@[from + k]);
        }
        assert(i - from < s.len() ==> s[i - from] == v@[i as int]);
        lemma_dist_to_is(s, d, i - from);
    }
    i
}

/// Bounds of `v[from..to]` with surrounding whitespace stripped.
pub fn trim_range(v: &Vec<char>, from: usize, to: usize) -> (r: (usize, usize))
    requires
        from <= to <= v.len(),
    ensures
        from <= r.0 <= r.1 <= to,
        trim_spec(v@.subrange(from as int, to as int)) == v@.subrange(r.0 as int, r.1 as int),
{
    let ghost s = v@.subrange(from as int, to as int);
    let mut lo: usize = from;
    while lo < to && is_space_char(v[lo])
        invariant
            from <= lo <= to <= v.len(),
            forall|k: int| from <= k < lo ==> is_space(v@[k]),
        decreases to - lo,
    {
        lo += 1;
    }
    proof {
        assert forall|k: int| 0 <= k < lo - from implies is_space(s[k]) by {
            assert(s[k] == v@[from + k]);
        }
        assert(lo - from < s.len() ==> s[lo - from] == v@[lo as int]);
        lemma_lead_spaces_is(s, lo - from);
    }
    if lo == to {
        proof {
            assert(trim_spec(s) =~= v@.subrange(lo as int, lo as int));
        }
        return (lo, lo);
    }
    let mut hi: usize = to;
    while hi > lo && is_space_char(v[hi - 1])
        invariant
            from <= lo < hi <= to <= v.len(),
            !is_space(v@[lo as int]),
            forall|k: int| hi <= k < to ==> is_space(v@[k]),
        decreases hi,
    {
        proof {
            assert(hi - 1 > lo) by {
                if hi - 1 == lo {
                    assert(is_space(v@[lo as int]));
                }
            }
        }
        hi -= 1;
    }
    proof {
        assert forall|k: int| s.len() - (to - hi) <= k < s.len() implies is_space(s[k]) by {
            assert(s[k] == v@[from + k]);
        }
        assert(!is_space(v@[hi - 1 as int]));
        assert(s[s.len() - (to - hi) - 1] == v@[hi - 1 as int]);
        lemma_tail_spaces_is(s, to - hi);
        assert(lead_spaces(s) < s.len());
        assert(trim_spec(s) == s.subrange(lo - from, (hi - from) as int));
        assert(s.subrange(lo - from, (hi - from) as int) =~= v@.subrange(
            lo as int,
            hi as int,
        ));
    }
    (lo, hi)
}

/// Whether `v[lo..hi]` equals the character sequence `w`.
pub fn range_eq(v: &Vec<char>, lo: usize, hi: usize, w: &Vec<char>) -> (r: bool)
    requires
        lo <= hi <= v.len(),
    ensures
        r == (v@.subrange(lo as int, hi as int) == w@),
{
    let ghost s = v@.subrange(lo as int, hi as int);
    if hi - lo != w.len() {
        proof {
            assert(s.len() == hi - lo);
        }
        return false;
    }
    let mut i: usize = 0;
    while i < w.len()
        invariant
            lo <= hi <= v.len(),
            hi - lo == w.len(),
            i <= w.len(),
            s == v@.subrange(lo as int, hi as int),
            forall|k: int| 0 <= k < i ==> v@[lo + k] == w@[k],
        decreases w.len() - i,
    {
        if v[lo + i] != w[i] {
            proof {
                assert(s[i as int] == v@[lo + i]);
            }
            return false;
        }
        i += 1;
    }
    proof {
        assert forall|k: int| 0 <= k < s.len() implies s[k] == w@[k] by {
            assert(s[k] == v@[lo + k]);
        }
        assert(s =~= w@);
    }
    true
}

/// A copy of `v[lo..hi]`.
pub fn copy_range(v: &Vec<char>, lo: usize, hi: usize) -> (r: Vec<char>)
    requires
        lo <= hi <= v.len(),
    ensures
        r@ == v@.subrange(lo as int, hi as int),
{
    let mut r: Vec<char> = Vec::new();
    let mut i: usize = lo;
    while i < hi
        invariant
            lo <= i <= hi <= v.len(),
            r@ =~= v@.subrange(lo as int, i as int),
        decreases hi - i,
    {
        r.push(v[i]);
        proof {
            assert(r@ =~= v@.subrange(lo as int, i + 1 as int));
        }
        i += 1;
    }
    r
}

/// Digit value of `c` in the chosen base, if `c` is such a digit.
pub fn digit_of(c: char, hex: bool) -> (r: Option<u64>)
    ensures
        (r is Some) == (if hex {
            is_hex_digit(c)
        } else {
            is_dec_digit(c)
        }),
        r matches Some(d) ==> d == digit_value(c),
{
    let u = c as u32;
    if u >= '0' as u32 && u <= '9' as u32 {
        Some((u - '0' as u32) as u64)
    } else if hex && u >= 'a' as u32 && u <= 'f' as u32 {
        Some((u - 'a' as u32 + 10) as u64)
    } else if hex && u >= 'A' as u32 && u <= 'F' as u32 {
        Some((u - 'A' as u32 + 10) as u64)
    } else {
        None
    }
}

fn scan_num(v: &Vec<char>, lo: usize, hi: usize, hex: bool) -> (r: Option<u64>)
    requires
        lo <= hi <= v.len(),
    ensures
        r == num_of(v@.subrange(lo as int, hi as int), hex),
{
    let ghost s = v@.subrange(lo as int, hi as int);
    let ghost base_s: nat = if hex { 16 } else { 10 };
    if lo == hi {
        return None;
    }
    let base: u64 = if hex {
        16
    } else {
        10
    };
    let mut acc: u64 = 0;
    let mut i: usize = lo;
    while i < hi
        invariant
            lo <= i <= hi <= v.len(),
            s == v@.subrange(lo as int, hi as int),
            base == (if hex { 16u64 } else { 10u64 }),
            base_s == base,
            forall|k: int|
                0 <= k < i - lo ==> (if hex {
                    is_hex_digit(s[k])
                } else {
                    is_dec_digit(s[k])
                }),
            acc == digits_val(s.take(i - lo), base_s),
        decreases hi - i,
    {
        proof {
            assert(s[i - lo] == v@[i as int]);
        }
        match digit_of(v[i], hex) {
            None => {
                return None;
            },
            Some(d) => {
                proof {
                    assert(s.take(i - lo + 1).drop_last() =~= s.take(i - lo));
                    assert(s.take(i - lo + 1).last() == s[i - lo]);
                    assert(digits_val(s.take(i - lo + 1), base_s) == acc * base_s + digit_value(
                        s[i - lo],
                    ));
                }
                match acc.checked_mul(base) {
                    None => {
                        proof {
                            assert(acc * base_s + digit_value(s[i - lo]) >= acc * base_s);
                            lemma_digits_val_prefix(s, i - lo + 1, base_s);
                        }
                        return None;
                    },
                    Some(m) => {
                        match m.checked_add(d) {
                            None => {
                                proof {
                                    lemma_digits_val_prefix(s, i - lo + 1, base_s);
                                }
                                return None;
                            },
                            Some(a2) => {
                                acc = a2;
                            },
                        }
                    },
                }
            },
        }
        i += 1;
    }
    proof {
        assert(s.take(hi - lo) =~= s);
        assert(all_digits(s, hex));
    }
    Some(acc)
}

/// Reads `v[lo..hi]` as an unsigned 64-bit numeral, decimal (with one
/// leading `+` allowed) or `0x`-prefixed hexadecimal.
pub fn parse_u64_range(v: &Vec<char>, lo: usize, hi: usize) -> (r: Option<u64>)
    requires
        lo <= hi <= v.len(),
    ensures
        r == parse_u64_spec(v@.subrange(lo as int, hi as int)),
{
    let ghost s = v@.subrange(lo as int, hi as int);
    if hi - lo >= 2 && v[lo] == '0' && (v[lo + 1] == 'x' || v[lo + 1] == 'X') {
        proof {
            assert(s[0] == v@[lo as int]);
            assert(s[1] == v@[lo + 1 as int]);
            assert(s.subrange(2, s.len() as int) =~= v@.subrange(lo + 2 as int, hi as int));
        }
        scan_num(v, lo + 2, hi, true)
    } else if hi - lo >= 1 && v[lo] == '+' {
        proof {
            assert(s[0] == v@[lo as int]);
            assert(s.subrange(1, s.len() as int) =~= v@.subrange(lo + 1 as int, hi as int));
        }
        scan_num(v, lo + 1, hi, false)
    } else {
        proof {
            if s.len() >= 2 {
                assert(s[0] == v@[lo as int]);
                assert(s[1] == v@[lo + 1 as int]);
            }
        }
        scan_num(v, lo, hi, false)
    }
}

} // verus!
