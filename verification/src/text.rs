//! Text handling on sequences of characters: splitting, trimming, and the
//! reading and writing of unsigned numbers in decimal and hexadecimal.
//!
//! Every function is stated over `Seq<char>`, the view of a string.

use vstd::prelude::*;

verus! {

/// `String::push` appends one character to the end of the string.
pub assume_specification[ String::push ](s: &mut String, c: char)
    ensures
        final(s)@ == old(s)@.push(c),
;

/// The characters of `s`, in order.
pub fn chars_of(s: &str) -> (v: Vec<char>)
    ensures
        v@ == s@,
{
    let mut v: Vec<char> = Vec::new();
    let n = s.unicode_len();
    let mut i: usize = 0;
    while i < n
        invariant
            n == s@.len(),
            i <= n,
            v@ == s@.subrange(0, i as int),
        decreases n - i,
    {
        v.push(s.get_char(i));
        i += 1;
        assert(v@ =~= s@.subrange(0, i as int));
    }
    assert(s@.subrange(0, n as int) =~= s@);
    v
}

/// The string made of the characters `v[lo..hi]`.
pub fn string_of_range(v: &Vec<char>, lo: usize, hi: usize) -> (s: String)
    requires
        lo <= hi <= v.len(),
    ensures
        s@ == v@.subrange(lo as int, hi as int),
{
    let mut s = String::new();
    let mut i: usize = lo;
    while i < hi
        invariant
            lo <= i <= hi <= v.len(),
            s@ == v@.subrange(lo as int, i as int),
        decreases hi - i,
    {
        s.push(v[i]);
        i += 1;
        assert(s@ =~= v@.subrange(lo as int, i as int));
    }
    s
}

/// The string made of the characters of `v`.
pub fn string_of(v: &Vec<char>) -> (s: String)
    ensures
        s@ == v@,
{
    let s = string_of_range(v, 0, v.len());
    assert(v@.subrange(0, v.len() as int) =~= v@);
    s
}

/// Appends the characters of `s` to `v`.
pub fn push_str(v: &mut Vec<char>, s: &str)
    ensures
        final(v)@ == old(v)@ + s@,
{
    let n = s.unicode_len();
    let mut i: usize = 0;
    while i < n
        invariant
            n == s@.len(),
            i <= n,
            v@ == old(v)@ + s@.subrange(0, i as int),
        decreases n - i,
    {
        v.push(s.get_char(i));
        i += 1;
        assert(v@ =~= old(v)@ + s@.subrange(0, i as int));
    }
    assert(s@.subrange(0, n as int) =~= s@);
}

/// Appends the characters `src[lo..hi]` to `v`.
pub fn push_range(v: &mut Vec<char>, src: &Vec<char>, lo: usize, hi: usize)
    requires
        lo <= hi <= src.len(),
    ensures
        final(v)@ == old(v)@ + src@.subrange(lo as int, hi as int),
{
    let mut i: usize = lo;
    while i < hi
        invariant
            lo <= i <= hi <= src.len(),
            v@ == old(v)@ + src@.subrange(lo as int, i as int),
        decreases hi - i,
    {
        v.push(src[i]);
        i += 1;
        assert(v@ =~= old(v)@ + src@.subrange(lo as int, i as int));
    }
}

/// Whether two character sequences are equal.
pub fn chars_eq(a: &Vec<char>, lo: usize, hi: usize, lit: &str) -> (r: bool)
    requires
        lo <= hi <= a.len(),
    ensures
        r == (a@.subrange(lo as int, hi as int) == lit@),
{
    let n = lit.unicode_len();
    if hi - lo != n {
        return false;
    }
    let mut i: usize = 0;
    while i < n
        invariant
            n == lit@.len(),
            lo <= hi <= a.len(),
            hi - lo == n,
            i <= n,
            forall|k: int| 0 <= k < i ==> a@[lo + k] == lit@[k],
        decreases n - i,
    {
        if a[lo + i] != lit.get_char(i) {
            assert(a@.subrange(lo as int, hi as int)[i as int] != lit@[i as int]);
            return false;
        }
        i += 1;
    }
    assert(a@.subrange(lo as int, hi as int) =~= lit@);
    true
}

/// A character with the Unicode property `White_Space`.
pub open spec fn is_space(c: char) -> bool {
    let n = c as u32;
    (0x09 <= n <= 0x0d) || n == 0x20 || n == 0x85 || n == 0xa0 || n == 0x1680 || (0x2000 <= n
        <= 0x200a) || n == 0x2028 || n == 0x2029 || n == 0x202f || n == 0x205f || n == 0x3000
}

pub fn char_is_space(c: char) -> (r: bool)
    ensures
        r == is_space(c),
{
    let n = c as u32;
    (0x09 <= n && n <= 0x0d) || n == 0x20 || n == 0x85 || n == 0xa0 || n == 0x1680 || (0x2000 <= n
        && n <= 0x200a) || n == 0x2028 || n == 0x2029 || n == 0x202f || n == 0x205f || n == 0x3000
}

/// The first index of `s` at or after `lo` that holds no white space, or
/// `hi` if there is none before `hi`.
pub open spec fn skip_spaces(s: Seq<char>, lo: int, hi: int) -> int
    decreases hi - lo,
{
    if lo < hi && 0 <= lo < s.len() && is_space(s[lo]) {
        skip_spaces(s, lo + 1, hi)
    } else {
        lo
    }
}

/// The end of `s[lo..hi]` once trailing white space is dropped.
pub open spec fn skip_spaces_back(s: Seq<char>, lo: int, hi: int) -> int
    decreases hi - lo,
{
    if lo < hi && 0 < hi <= s.len() && is_space(s[hi - 1]) {
        skip_spaces_back(s, lo, hi - 1)
    } else {
        hi
    }
}

/// The bounds of `s[lo..hi]` without leading and trailing white space.
pub open spec fn trim_bounds(s: Seq<char>, lo: int, hi: int) -> (int, int) {
    let a = skip_spaces(s, lo, hi);
    (a, skip_spaces_back(s, a, hi))
}

pub proof fn lemma_skip_spaces_bounds(s: Seq<char>, lo: int, hi: int)
    requires
        0 <= lo <= hi <= s.len(),
    ensures
        lo <= skip_spaces(s, lo, hi) <= hi,
        lo <= skip_spaces_back(s, lo, hi) <= hi,
    decreases hi - lo,
{
    if lo < hi && is_space(s[lo]) {
        lemma_skip_spaces_bounds(s, lo + 1, hi);
    }
    if lo < hi && is_space(s[hi - 1]) {
        lemma_skip_spaces_bounds(s, lo, hi - 1);
    }
}

/// Trims `v[lo..hi]`: the bounds of what is left.
pub fn trim_range(v: &Vec<char>, lo: usize, hi: usize) -> (r: (usize, usize))
    requires
        lo <= hi <= v.len(),
    ensures
        (r.0 as int, r.1 as int) == trim_bounds(v@, lo as int, hi as int),
        lo <= r.0 <= r.1 <= hi,
{
    let mut a = lo;
    while a < hi && char_is_space(v[a])
        invariant
            lo <= a <= hi <= v.len(),
            skip_spaces(v@, lo as int, hi as int) == skip_spaces(v@, a as int, hi as int),
        decreases hi - a,
    {
        a += 1;
    }
    let mut b = hi;
    while a < b && char_is_space(v[b - 1])
        invariant
            a <= b <= hi <= v.len(),
            skip_spaces_back(v@, a as int, hi as int) == skip_spaces_back(v@, a as int, b as int),
        decreases b - a,
    {
        b -= 1;
    }
    (a, b)
}

/// The first index in `lo..hi` at which `s` holds `c`, or `hi`.
pub open spec fn find_from(s: Seq<char>, c: char, lo: int, hi: int) -> int
    decreases hi - lo,
{
    if lo < hi && 0 <= lo < s.len() && s[lo] != c {
        find_from(s, c, lo + 1, hi)
    } else {
        lo
    }
}

/// Finds the first `c` in `v[lo..hi]`; `hi` when there is none.
pub fn find_char(v: &Vec<char>, c: char, lo: usize, hi: usize) -> (r: usize)
    requires
        lo <= hi <= v.len(),
    ensures
        r as int == find_from(v@, c, lo as int, hi as int),
        lo <= r <= hi,
        r < hi ==> v@[r as int] == c,
        forall|k: int| lo <= k < r ==> v@[k] != c,
{
    let mut i = lo;
    while i < hi && v[i] != c
        invariant
            lo <= i <= hi <= v.len(),
            find_from(v@, c, lo as int, hi as int) == find_from(v@, c, i as int, hi as int),
            forall|k: int| lo <= k < i ==> v@[k] != c,
        decreases hi - i,
    {
        i += 1;
    }
    i
}

/// The value of `c` as a digit in base `radix`, for a base of at most 16.
pub open spec fn digit_value(c: char, radix: nat) -> Option<nat> {
    let n = c as u32;
    let d: int = if '0' as u32 <= n <= '9' as u32 {
        n - '0' as u32
    } else if 'a' as u32 <= n <= 'f' as u32 {
        n - 'a' as u32 + 10
    } else if 'A' as u32 <= n <= 'F' as u32 {
        n - 'A' as u32 + 10
    } else {
        16
    };
    if d < radix {
        Some(d as nat)
    } else {
        None
    }
}

/// Whether every character of `s` is a digit in base `radix`.
pub open spec fn all_digits(s: Seq<char>, radix: nat) -> bool {
    forall|i: int| 0 <= i < s.len() ==> (#[trigger] digit_value(s[i], radix)) is Some
}

/// The number that the digits `s` write in base `radix`.
pub open spec fn digits_value(s: Seq<char>, radix: nat) -> nat
    decreases s.len(),
{
    if s.len() == 0 {
        0
    } else {
        digits_value(s.drop_last(), radix) * radix + match digit_value(s.last(), radix) {
            Some(d) => d,
            None => 0,
        }
    }
}

/// What reading `s` as an unsigned number in base `radix` gives, where the
/// result must not exceed `max`: an optional `+`, then at least one digit.
pub open spec fn parse_unsigned(s: Seq<char>, radix: nat, max: nat) -> Option<nat> {
    let body = if s.len() > 0 && s[0] == '+' {
        s.subrange(1, s.len() as int)
    } else {
        s
    };
    if body.len() > 0 && all_digits(body, radix) && digits_value(body, radix) <= max {
        Some(digits_value(body, radix))
    } else {
        None
    }
}

pub proof fn lemma_digits_value_prefix(s: Seq<char>, radix: nat, j: int)
    requires
        0 <= j <= s.len(),
        radix >= 1,
    ensures
        digits_value(s.subrange(0, j), radix) <= digits_value(s, radix),
    decreases s.len() - j,
{
    if j == s.len() {
        assert(s.subrange(0, j) =~= s);
    } else {
        lemma_digits_value_prefix(s, radix, j + 1);
        let t = s.subrange(0, j + 1);
        assert(t.drop_last() =~= s.subrange(0, j));
        assert(digits_value(t, radix) >= digits_value(s.subrange(0, j), radix) * radix) ;
        assert(digits_value(s.subrange(0, j), radix) * radix >= digits_value(
            s.subrange(0, j),
            radix,
        )) by (nonlinear_arith)
            requires
                radix >= 1,
        ;
    }
}

fn digit_of(c: char, radix: u32) -> (r: Option<u32>)
    requires
        1 <= radix <= 16,
    ensures
        match digit_value(c, radix as nat) {
            Some(d) => r == Some(d as u32),
            None => r is None,
        },
        r is Some ==> r->0 < radix,
{
    let n = c as u32;
    let d: u32 = if '0' as u32 <= n && n <= '9' as u32 {
        n - '0' as u32
    } else if 'a' as u32 <= n && n <= 'f' as u32 {
        n - 'a' as u32 + 10
    } else if 'A' as u32 <= n && n <= 'F' as u32 {
        n - 'A' as u32 + 10
    } else {
        16
    };
    if d < radix {
        Some(d)
    } else {
        None
    }
}

/// Reads `v[lo..hi]` as an unsigned number in base `radix`, of at most `max`.
pub fn parse_number(v: &Vec<char>, lo: usize, hi: usize, radix: u32, max: u32) -> (r: Option<u32>)
    requires
        lo <= hi <= v.len(),
        1 <= radix <= 16,
    ensures
        match parse_unsigned(v@.subrange(lo as int, hi as int), radix as nat, max as nat) {
            Some(n) => r == Some(n as u32),
            None => r is None,
        },
{
    let ghost s = v@.subrange(lo as int, hi as int);
    let start = if lo < hi && v[lo] == '+' {
        lo + 1
    } else {
        lo
    };
    let ghost body = v@.subrange(start as int, hi as int);
    assert(body =~= if s.len() > 0 && s[0] == '+' {
        s.subrange(1, s.len() as int)
    } else {
        s
    });
    if start == hi {
        return None;
    }
    let mut acc: u64 = 0;
    let mut i = start;
    while i < hi
        invariant
            start <= i <= hi <= v.len(),
            1 <= radix <= 16,
            lo <= start,
            s == v@.subrange(lo as int, hi as int),
            body == v@.subrange(start as int, hi as int),
            body == (if s.len() > 0 && s[0] == '+' {
                s.subrange(1, s.len() as int)
            } else {
                s
            }),
            all_digits(body.subrange(0, i - start), radix as nat),
            acc == digits_value(body.subrange(0, i - start), radix as nat),
            acc <= max,
        decreases hi - i,
    {
        let ghost pre = body.subrange(0, i - start);
        let ghost cur = body.subrange(0, i - start + 1);
        proof {
            assert(cur.drop_last() =~= pre);
            assert(cur.last() == v@[i as int]);
        }
        match digit_of(v[i], radix) {
            None => {
                assert(body[i - start] == v@[i as int]);
                assert(digit_value(body[i - start], radix as nat) is None);
                assert(!all_digits(body, radix as nat));
                return None;
            },
            Some(d) => {
                assert(acc * (radix as u64) <= 0xffff_ffff * 16) by (nonlinear_arith)
                    requires
                        acc <= 0xffff_ffff,
                        radix <= 16,
                ;
                let next = acc * (radix as u64) + (d as u64);
                assert(next == digits_value(cur, radix as nat)) by {
                    assert(acc * (radix as u64) == digits_value(pre, radix as nat) * (
                    radix as nat)) by (nonlinear_arith)
                        requires
                            acc == digits_value(pre, radix as nat),
                    ;
                }
                if next > max as u64 {
                    proof {
                        lemma_digits_value_prefix(body, radix as nat, i - start + 1);
                    }
                    return None;
                }
                assert forall|k: int| 0 <= k < cur.len() implies (#[trigger] digit_value(
                    cur[k],
                    radix as nat,
                )) is Some by {
                    if k < pre.len() {
                        assert(cur[k] == pre[k]);
                    }
                }
                acc = next;
            },
        }
        i += 1;
    }
    assert(body.subrange(0, hi - start) =~= body);
    Some(acc as u32)
}

/// The character that writes the digit `d`, in lower or upper case.
pub open spec fn digit_char(d: nat, upper: bool) -> char {
    if d < 10 {
        (('0' as u32 + d) as u32) as char
    } else if upper {
        (('A' as u32 + d - 10) as u32) as char
    } else {
        (('a' as u32 + d - 10) as u32) as char
    }
}

fn digit_to_char(d: u8, upper: bool) -> (c: char)
    requires
        d < 16,
    ensures
        c == digit_char(d as nat, upper),
{
    if d < 10 {
        (48u8 + d) as char
    } else if upper {
        (65u8 + (d - 10)) as char
    } else {
        (97u8 + (d - 10)) as char
    }
}

/// `x` written with two upper-case hexadecimal digits.
pub open spec fn hex2_upper(x: u8) -> Seq<char> {
    seq![digit_char((x / 16) as nat, true), digit_char((x % 16) as nat, true)]
}

/// `x` written with two lower-case hexadecimal digits.
pub open spec fn hex2_lower(x: u8) -> Seq<char> {
    seq![digit_char((x / 16) as nat, false), digit_char((x % 16) as nat, false)]
}

/// `x` written with four lower-case hexadecimal digits.
pub open spec fn hex4_lower(x: u16) -> Seq<char> {
    hex2_lower((x / 256) as u8) + hex2_lower((x % 256) as u8)
}

/// `n` written in decimal, without leading zeros.
pub open spec fn decimal(n: nat) -> Seq<char>
    decreases n,
{
    if n < 10 {
        seq![digit_char(n, false)]
    } else {
        decimal(n / 10).push(digit_char(n % 10, false))
    }
}

/// Appends `x` as two hexadecimal digits.
pub fn push_hex2(v: &mut Vec<char>, x: u8, upper: bool)
    ensures
        final(v)@ == old(v)@ + (if upper {
            hex2_upper(x)
        } else {
            hex2_lower(x)
        }),
{
    v.push(digit_to_char(x / 16, upper));
    v.push(digit_to_char(x % 16, upper));
    assert(v@ =~= old(v)@ + (if upper {
        hex2_upper(x)
    } else {
        hex2_lower(x)
    }));
}

/// Appends `x` as four lower-case hexadecimal digits.
pub fn push_hex4(v: &mut Vec<char>, x: u16)
    ensures
        final(v)@ == old(v)@ + hex4_lower(x),
{
    push_hex2(v, (x / 256) as u8, false);
    push_hex2(v, (x % 256) as u8, false);
    assert(v@ =~= old(v)@ + hex4_lower(x));
}

/// Appends `n` in decimal.
pub fn push_decimal(v: &mut Vec<char>, n: u64)
    ensures
        final(v)@ == old(v)@ + decimal(n as nat),
    decreases n,
{
    if n < 10 {
        v.push(digit_to_char(n as u8, false));
        assert(v@ =~= old(v)@ + decimal(n as nat));
    } else {
        push_decimal(v, n / 10);
        v.push(digit_to_char((n % 10) as u8, false));
        assert(v@ =~= old(v)@ + decimal(n as nat));
    }
}

/// The lower-case form of an ASCII letter; any other character unchanged.
pub open spec fn ascii_lower(c: char) -> char {
    if 'A' as u32 <= c as u32 <= 'Z' as u32 {
        ((c as u32 + 32) as u32) as char
    } else {
        c
    }
}

/// `s` with its ASCII letters in lower case.
pub open spec fn ascii_lowered(s: Seq<char>) -> Seq<char> {
    Seq::new(s.len(), |i: int| ascii_lower(s[i]))
}

pub fn to_ascii_lower(c: char) -> (r: char)
    ensures
        r == ascii_lower(c),
{
    let n = c as u32;
    if 'A' as u32 <= n && n <= 'Z' as u32 {
        ((n + 32) as u8) as char
    } else {
        c
    }
}

/// Whether `a` and `lit` are equal once ASCII letters are put in lower case.
pub fn eq_ignore_ascii_case(a: &Vec<char>, lit: &str) -> (r: bool)
    ensures
        r == (ascii_lowered(a@) == ascii_lowered(lit@)),
{
    let n = lit.unicode_len();
    if a.len() != n {
        assert(ascii_lowered(a@).len() != ascii_lowered(lit@).len());
        return false;
    }
    let mut i: usize = 0;
    while i < n
        invariant
            n == lit@.len(),
            a.len() == n,
            i <= n,
            forall|k: int| 0 <= k < i ==> ascii_lower(a@[k]) == ascii_lower(lit@[k]),
        decreases n - i,
    {
        if to_ascii_lower(a[i]) != to_ascii_lower(lit.get_char(i)) {
            assert(ascii_lowered(a@)[i as int] != ascii_lowered(lit@)[i as int]);
            return false;
        }
        i += 1;
    }
    assert(ascii_lowered(a@) =~= ascii_lowered(lit@));
    true
}

} // verus!
