//! Decimal integers and booleans: reading them from text the way `str::parse`
//! does, and writing them the way `to_string` does.

use vstd::prelude::*;
use vstd::string::*;

verus! {

/// Why reading an integer failed (the kinds `std::num::IntErrorKind` reports).
#[derive(Debug, Clone, Copy, PartialEq, Eq, Structural)]
pub enum IntErrorKind {
    /// The text is empty.
    Empty,
    /// A character is not a decimal digit, or a sign stands alone.
    InvalidDigit,
    /// The value is above the largest value of the type.
    PosOverflow,
    /// The value is below the smallest value of the type.
    NegOverflow,
}

/// `c` is one of `0` to `9`.
pub open spec fn is_digit(c: char) -> bool {
    '0' <= c && c <= '9'
}

/// The value of the decimal digit `c`.
pub open spec fn digit_value(c: char) -> int {
    (c as u32) - ('0' as u32)
}

/// The character of the decimal digit `d`.
pub open spec fn digit_char(d: int) -> char {
    (d + ('0' as u32)) as char
}

/// Reads the digits of `s` from index `i` on, `acc` being the magnitude read so
/// far; `neg` tells whether a `-` sign was read. Stops at the first failure, as
/// `str::parse` does.
pub open spec fn parse_digits(
    s: Seq<char>,
    i: int,
    acc: int,
    neg: bool,
    lo: int,
    hi: int,
) -> Result<int, IntErrorKind>
    decreases s.len() - i,
{
    if i < 0 || i >= s.len() {
        Ok(if neg { -acc } else { acc })
    } else if !is_digit(s[i]) {
        Err(IntErrorKind::InvalidDigit)
    } else {
        let a = acc * 10 + digit_value(s[i]);
        if neg && -a < lo {
            Err(IntErrorKind::NegOverflow)
        } else if !neg && a > hi {
            Err(IntErrorKind::PosOverflow)
        } else {
            parse_digits(s, i + 1, a, neg, lo, hi)
        }
    }
}

/// `str::parse` for an integer type whose values are `lo..=hi`: an optional
/// sign (`-` only when the type has negative values), then decimal digits.
pub open spec fn spec_parse_int(s: Seq<char>, lo: int, hi: int) -> Result<int, IntErrorKind> {
    if s.len() == 0 {
        Err(IntErrorKind::Empty)
    } else if s[0] == '+' || (s[0] == '-' && lo < 0) {
        if s.len() == 1 {
            Err(IntErrorKind::InvalidDigit)
        } else {
            parse_digits(s, 1, 0, s[0] == '-', lo, hi)
        }
    } else {
        parse_digits(s, 0, 0, false, lo, hi)
    }
}

/// The decimal digits of `n`, without leading zeros.
pub open spec fn spec_dec(n: nat) -> Seq<char>
    decreases n,
{
    if n < 10 {
        seq![digit_char(n as int)]
    } else {
        spec_dec(n / 10).push(digit_char((n % 10) as int))
    }
}

/// The decimal text of the integer `v`, with a `-` when it is negative.
#[verifier::opaque]
pub open spec fn spec_int_text(v: int) -> Seq<char> {
    if v < 0 {
        seq!['-'] + spec_dec((-v) as nat)
    } else {
        spec_dec(v as nat)
    }
}

/// `str::parse::<bool>`.
pub open spec fn spec_parse_bool(s: Seq<char>) -> Option<bool> {
    if s == seq!['t', 'r', 'u', 'e'] {
        Some(true)
    } else if s == seq!['f', 'a', 'l', 's', 'e'] {
        Some(false)
    } else {
        None
    }
}

/// Why reading a decimal number failed (the kinds `std::num::ParseFloatError` reports).
#[derive(Debug, Clone, Copy, PartialEq, Eq, Structural)]
pub enum FloatErrorKind {
    /// The text is empty.
    Empty,
    /// The text is not a decimal number.
    Invalid,
}

/// `c` is the lowercase ASCII letter `l`, in either case.
pub open spec fn ci_char(c: char, l: char) -> bool {
    c == l || (c as u32) + 32 == (l as u32)
}

/// The characters of `s` from index `i` on are the lowercase word `w`, each in either
/// case.
pub open spec fn ci_rest(s: Seq<char>, i: int, w: Seq<char>) -> bool {
    &&& s.len() - i == w.len()
    &&& forall|k: int| 0 <= k < w.len() ==> ci_char(#[trigger] s[i + k], w[k])
}

/// The index of the first character of `s`, at or after `i`, that is not a digit.
pub open spec fn digits_end(s: Seq<char>, i: int) -> int
    decreases s.len() - i,
{
    if i < 0 || i >= s.len() || !is_digit(s[i]) {
        i
    } else {
        digits_end(s, i + 1)
    }
}

/// The characters of `s` from index `j` on are an exponent's digits, with an optional
/// sign before them.
pub open spec fn exponent_from(s: Seq<char>, j: int) -> bool {
    let k = if j < s.len() && (s[j] == '+' || s[j] == '-') {
        j + 1
    } else {
        j
    };
    k < s.len() && digits_end(s, k) == s.len()
}

/// The characters of `s` from index `i` on are a decimal number: digits, a `.` and
/// digits (with at least one digit on either side), then an optional exponent.
pub open spec fn number_from(s: Seq<char>, i: int) -> bool {
    let a = digits_end(s, i);
    let dot = a < s.len() && s[a] == '.';
    let b = if dot {
        digits_end(s, a + 1)
    } else {
        a
    };
    let frac = if dot {
        b - (a + 1)
    } else {
        0
    };
    &&& a - i + frac > 0
    &&& b == s.len() || (ci_char(s[b], 'e') && exponent_from(s, b + 1))
}

/// `str::parse::<f32>` accepts `s`: an optional sign, then `inf`, `infinity`, `nan`
/// (in either case) or a decimal number.
pub open spec fn spec_float_ok(s: Seq<char>) -> bool {
    let i = if s.len() > 0 && (s[0] == '+' || s[0] == '-') {
        1int
    } else {
        0int
    };
    ci_rest(s, i, "inf"@) || ci_rest(s, i, "infinity"@) || ci_rest(s, i, "nan"@) || number_from(s, i)
}

/// What `str::parse::<f32>` reports of `s`.
pub open spec fn spec_parse_float(s: Seq<char>) -> Result<(), FloatErrorKind> {
    if s.len() == 0 {
        Err(FloatErrorKind::Empty)
    } else if spec_float_ok(s) {
        Ok(())
    } else {
        Err(FloatErrorKind::Invalid)
    }
}

/// A decimal number is not empty.
pub proof fn lemma_float_ok_nonempty(s: Seq<char>)
    requires
        spec_float_ok(s),
    ensures
        s.len() > 0,
        spec_parse_float(s) == Ok::<(), FloatErrorKind>(()),
{
    reveal_strlit("inf");
    reveal_strlit("infinity");
    reveal_strlit("nan");
    assert("inf"@.len() == 3);
    assert("infinity"@.len() == 8);
    assert("nan"@.len() == 3);
}

/// The index of the first character of `s`, at or after `i`, that is not a digit.
fn skip_digits(s: &str, i: usize) -> (r: usize)
    requires
        i <= s@.len(),
    ensures
        r == digits_end(s@, i as int),
        i <= r <= s@.len(),
    decreases s@.len() - i,
{
    if i < s.unicode_len() {
        let c = s.get_char(i);
        if '0' <= c && c <= '9' {
            return skip_digits(s, i + 1);
        }
    }
    i
}

/// The characters of `s` from index `i` on are the lowercase word `w`, each in either
/// case.
fn ci_rest_exec(s: &str, i: usize, w: &str) -> (r: bool)
    requires
        i <= s@.len(),
    ensures
        r == ci_rest(s@, i as int, w@),
{
    let n = s.unicode_len();
    let m = w.unicode_len();
    if n - i != m {
        return false;
    }
    let mut k: usize = 0;
    while k < m
        invariant
            n == s@.len(),
            m == w@.len(),
            n - i == m,
            k <= m,
            forall|j: int| 0 <= j < k ==> ci_char(#[trigger] s@[i + j], w@[j]),
        decreases m - k,
    {
        let c = s.get_char(i + k);
        let l = w.get_char(k);
        if !(c == l || (c as u32) + 32 == (l as u32)) {
            assert(!ci_char(s@[i + k], w@[k as int]));
            return false;
        }
        k = k + 1;
    }
    true
}

/// `s.parse::<f32>()`, for whether it succeeds.
pub fn parse_float(s: &str) -> (r: Result<(), FloatErrorKind>)
    ensures
        r == spec_parse_float(s@),
{
    let n = s.unicode_len();
    if n == 0 {
        return Err(FloatErrorKind::Empty);
    }
    let first = s.get_char(0);
    let i: usize = if first == '+' || first == '-' {
        1
    } else {
        0
    };
    if ci_rest_exec(s, i, "inf") || ci_rest_exec(s, i, "infinity") || ci_rest_exec(s, i, "nan") {
        return Ok(());
    }
    let a = skip_digits(s, i);
    let dot = a < n && s.get_char(a) == '.';
    let b = if dot {
        skip_digits(s, a + 1)
    } else {
        a
    };
    let frac = if dot {
        b - (a + 1)
    } else {
        0
    };
    if a - i + frac == 0 {
        return Err(FloatErrorKind::Invalid);
    }
    if b == n {
        return Ok(());
    }
    let e = s.get_char(b);
    if !(e == 'e' || e == 'E') {
        assert(!ci_char(s@[b as int], 'e'));
        return Err(FloatErrorKind::Invalid);
    }
    let j = b + 1;
    let k = if j < n && (s.get_char(j) == '+' || s.get_char(j) == '-') {
        j + 1
    } else {
        j
    };
    if k < n && skip_digits(s, k) == n {
        Ok(())
    } else {
        Err(FloatErrorKind::Invalid)
    }
}

/// Appends `c` to `s`.
///
/// Calls `String::push`, whose documentation says that it appends the given
/// `char` to the end of the `String`; that is what the contract claims.
#[verifier::external_body]
fn string_push(s: &mut String, c: char)
    ensures
        final(s)@ == old(s)@.push(c),
{
    s.push(c);
}

/// Reads an integer in `lo..=hi` from `s` the way `str::parse` does.
pub fn parse_int(s: &str, lo: i128, hi: i128) -> (r: Result<i128, IntErrorKind>)
    requires
        lo <= 0 <= hi,
        hi <= u64::MAX,
        lo >= i64::MIN,
    ensures
        r matches Ok(v) ==> spec_parse_int(s@, lo as int, hi as int) == Ok::<int, IntErrorKind>(
            v as int,
        ) && lo <= v <= hi,
        r matches Err(e) ==> spec_parse_int(s@, lo as int, hi as int) == Err::<int, IntErrorKind>(
            e,
        ),
{
    let n = s.unicode_len();
    if n == 0 {
        return Err(IntErrorKind::Empty);
    }
    let first = s.get_char(0);
    let mut i: usize = 0;
    let mut neg = false;
    if first == '+' || (first == '-' && lo < 0) {
        if n == 1 {
            return Err(IntErrorKind::InvalidDigit);
        }
        i = 1;
        neg = first == '-';
    }
    let mut acc: i128 = 0;
    while i < n
        invariant
            n == s@.len(),
            n > 0,
            i <= n,
            lo <= 0 <= hi,
            hi <= u64::MAX,
            lo >= i64::MIN,
            0 <= acc,
            neg ==> -acc >= lo,
            !neg ==> acc <= hi,
            neg ==> lo < 0,
            spec_parse_int(s@, lo as int, hi as int) == parse_digits(
                s@,
                i as int,
                acc as int,
                neg,
                lo as int,
                hi as int,
            ),
        decreases n - i,
    {
        let c = s.get_char(i);
        if !('0' <= c && c <= '9') {
            return Err(IntErrorKind::InvalidDigit);
        }
        let d = ((c as u32) - ('0' as u32)) as i128;
        let a = acc * 10 + d;
        if neg && -a < lo {
            return Err(IntErrorKind::NegOverflow);
        }
        if !neg && a > hi {
            return Err(IntErrorKind::PosOverflow);
        }
        acc = a;
        i = i + 1;
    }
    if neg {
        Ok(-acc)
    } else {
        Ok(acc)
    }
}

/// `s.parse::<u8>()`.
pub fn parse_u8(s: &str) -> (r: Result<u8, IntErrorKind>)
    ensures
        r matches Ok(v) ==> spec_parse_int(s@, 0, 255) == Ok::<int, IntErrorKind>(v as int),
        r matches Err(e) ==> spec_parse_int(s@, 0, 255) == Err::<int, IntErrorKind>(e),
{
    match parse_int(s, 0, 255) {
        Ok(v) => Ok(v as u8),
        Err(e) => Err(e),
    }
}

/// `s.parse::<i8>()`.
pub fn parse_i8(s: &str) -> (r: Result<i8, IntErrorKind>)
    ensures
        r matches Ok(v) ==> spec_parse_int(s@, -128, 127) == Ok::<int, IntErrorKind>(v as int),
        r matches Err(e) ==> spec_parse_int(s@, -128, 127) == Err::<int, IntErrorKind>(e),
{
    match parse_int(s, -128, 127) {
        Ok(v) => Ok(v as i8),
        Err(e) => Err(e),
    }
}

/// `s.parse::<u16>()`.
pub fn parse_u16(s: &str) -> (r: Result<u16, IntErrorKind>)
    ensures
        r matches Ok(v) ==> spec_parse_int(s@, 0, 65535) == Ok::<int, IntErrorKind>(v as int),
        r matches Err(e) ==> spec_parse_int(s@, 0, 65535) == Err::<int, IntErrorKind>(e),
{
    match parse_int(s, 0, 65535) {
        Ok(v) => Ok(v as u16),
        Err(e) => Err(e),
    }
}

/// `s.parse::<i16>()`.
pub fn parse_i16(s: &str) -> (r: Result<i16, IntErrorKind>)
    ensures
        r matches Ok(v) ==> spec_parse_int(s@, -32768, 32767) == Ok::<int, IntErrorKind>(
            v as int,
        ),
        r matches Err(e) ==> spec_parse_int(s@, -32768, 32767) == Err::<int, IntErrorKind>(e),
{
    match parse_int(s, -32768, 32767) {
        Ok(v) => Ok(v as i16),
        Err(e) => Err(e),
    }
}

/// `s.parse::<i32>()`.
pub fn parse_i32(s: &str) -> (r: Result<i32, IntErrorKind>)
    ensures
        r matches Ok(v) ==> spec_parse_int(s@, -0x8000_0000, 0x7fff_ffff) == Ok::<int, IntErrorKind>(
            v as int,
        ),
        r matches Err(e) ==> spec_parse_int(s@, -0x8000_0000, 0x7fff_ffff) == Err::<int, IntErrorKind>(e),
{
    match parse_int(s, -0x8000_0000, 0x7fff_ffff) {
        Ok(v) => Ok(v as i32),
        Err(e) => Err(e),
    }
}

/// `s.parse::<u32>()`.
pub fn parse_u32(s: &str) -> (r: Result<u32, IntErrorKind>)
    ensures
        r matches Ok(v) ==> spec_parse_int(s@, 0, 0xffff_ffff) == Ok::<int, IntErrorKind>(
            v as int,
        ),
        r matches Err(e) ==> spec_parse_int(s@, 0, 0xffff_ffff) == Err::<int, IntErrorKind>(e),
{
    match parse_int(s, 0, 0xffff_ffff) {
        Ok(v) => Ok(v as u32),
        Err(e) => Err(e),
    }
}

/// `s.parse::<u64>()`.
pub fn parse_u64(s: &str) -> (r: Result<u64, IntErrorKind>)
    ensures
        r matches Ok(v) ==> spec_parse_int(s@, 0, u64::MAX as int) == Ok::<int, IntErrorKind>(
            v as int,
        ),
        r matches Err(e) ==> spec_parse_int(s@, 0, u64::MAX as int) == Err::<int, IntErrorKind>(
            e,
        ),
{
    match parse_int(s, 0, 0xffff_ffff_ffff_ffff) {
        Ok(v) => Ok(v as u64),
        Err(e) => Err(e),
    }
}

/// `s.parse::<bool>()`.
pub fn parse_bool(s: &str) -> (r: Option<bool>)
    ensures
        r == spec_parse_bool(s@),
{
    let n = s.unicode_len();
    if n == 4 && s.get_char(0) == 't' && s.get_char(1) == 'r' && s.get_char(2) == 'u'
        && s.get_char(3) == 'e' {
        assert(s@ =~= seq!['t', 'r', 'u', 'e']);
        Some(true)
    } else if n == 5 && s.get_char(0) == 'f' && s.get_char(1) == 'a' && s.get_char(2) == 'l'
        && s.get_char(3) == 's' && s.get_char(4) == 'e' {
        assert(s@ =~= seq!['f', 'a', 'l', 's', 'e']);
        Some(false)
    } else {
        proof {
            if s@ == seq!['t', 'r', 'u', 'e'] {
                assert(s@[0] == 't' && s@[1] == 'r' && s@[2] == 'u' && s@[3] == 'e');
            }
            if s@ == seq!['f', 'a', 'l', 's', 'e'] {
                assert(s@[0] == 'f' && s@[1] == 'a' && s@[2] == 'l' && s@[3] == 's' && s@[4]
                    == 'e');
            }
        }
        None
    }
}

/// Appends the decimal digits of `n` to `s`.
fn push_dec(s: &mut String, n: u64)
    ensures
        final(s)@ == old(s)@ + spec_dec(n as nat),
    decreases n,
{
    if n >= 10 {
        push_dec(s, n / 10);
    }
    let d = (n % 10) as u8;
    let c = (48u8 + d) as char;
    string_push(s, c);
    assert(digit_char((n % 10) as int) == c);
}

/// `n.to_string()` for an unsigned integer.
pub fn unsigned_to_string(n: u64) -> (r: String)
    ensures
        r@ == spec_dec(n as nat),
{
    let mut s = String::new();
    push_dec(&mut s, n);
    assert(s@ =~= spec_dec(n as nat));
    s
}

/// `v.to_string()` for a signed integer.
pub fn signed_to_string(v: i64) -> (r: String)
    ensures
        r@ == spec_int_text(v as int),
{
    proof {
        reveal(spec_int_text);
    }
    let mut s = String::new();
    if v < 0 {
        string_push(&mut s, '-');
        let m: u64 = if v == i64::MIN {
            0x8000_0000_0000_0000
        } else {
            (-v) as u64
        };
        push_dec(&mut s, m);
        assert(s@ =~= seq!['-'] + spec_dec((-v) as nat));
    } else {
        push_dec(&mut s, v as u64);
        assert(s@ =~= spec_dec(v as nat));
    }
    s
}


/// Reading the digits of `s` pushed with one more digit `c` reads the digits of
/// `s`, then `c`.
proof fn lemma_parse_digits_push(s: Seq<char>, c: char, i: int, acc: int, hi: int)
    requires
        0 <= i <= s.len(),
        0 <= acc,
        forall|k: int| i <= k < s.len() ==> is_digit(#[trigger] s[k]),
        is_digit(c),
    ensures
        parse_digits(s.push(c), i, acc, false, 0, hi) == match parse_digits(s, i, acc, false, 0, hi) {
            Ok(v) => if v * 10 + digit_value(c) > hi {
                Err(IntErrorKind::PosOverflow)
            } else {
                Ok(v * 10 + digit_value(c))
            },
            Err(e) => Err(e),
        },
    decreases s.len() - i,
{
    let t = s.push(c);
    if i == s.len() {
        assert(t[i] == c);
        let a = acc * 10 + digit_value(c);
        assert(parse_digits(t, i + 1, a, false, 0, hi) == Ok::<int, IntErrorKind>(a));
    } else {
        assert(t[i] == s[i]);
        let a = acc * 10 + digit_value(s[i]);
        if a <= hi {
            lemma_parse_digits_push(s, c, i + 1, a, hi);
        }
    }
}

/// The digits of a number are digits.
pub proof fn lemma_dec_digits(n: nat)
    ensures
        spec_dec(n).len() > 0,
        forall|k: int| 0 <= k < spec_dec(n).len() ==> is_digit(#[trigger] spec_dec(n)[k]),
    decreases n,
{
    if n >= 10 {
        lemma_dec_digits(n / 10);
        assert(is_digit(digit_char((n % 10) as int)));
        assert forall|k: int| 0 <= k < spec_dec(n).len() implies is_digit(#[trigger] spec_dec(n)[k]) by {
            if k < spec_dec(n / 10).len() {
                assert(spec_dec(n)[k] == spec_dec(n / 10)[k]);
            }
        }
    } else {
        assert(is_digit(digit_char(n as int)));
    }
}

/// Reading back the decimal text of a number gives the number.
pub proof fn lemma_parse_dec(n: nat, hi: int)
    requires
        n <= hi,
    ensures
        spec_parse_int(spec_dec(n), 0, hi) == Ok::<int, IntErrorKind>(n as int),
    decreases n,
{
    lemma_dec_digits(n);
    let s = spec_dec(n);
    assert(is_digit(s[0]));
    if n < 10 {
        assert(digit_value(digit_char(n as int)) == n);
        assert(parse_digits(s, 1, n as int, false, 0, hi) == Ok::<int, IntErrorKind>(n as int));
    } else {
        let m = n / 10;
        lemma_parse_dec(m, hi);
        lemma_dec_digits(m);
        lemma_dec_digits(n);
        let d = digit_char((n % 10) as int);
        assert(digit_value(d) == n % 10);
        assert(is_digit(spec_dec(m)[0]));
        lemma_parse_digits_push(spec_dec(m), d, 0, 0, hi);
        assert(spec_dec(n) == spec_dec(m).push(d));
        assert(parse_digits(spec_dec(m), 0, 0, false, 0, hi) == Ok::<int, IntErrorKind>(m as int));
        assert(m * 10 + n % 10 == n);
    }
}


/// Without a `-` read, reading digits does not depend on the lower bound.
proof fn lemma_parse_digits_lo(s: Seq<char>, i: int, acc: int, lo: int, hi: int)
    ensures
        parse_digits(s, i, acc, false, lo, hi) == parse_digits(s, i, acc, false, 0, hi),
    decreases s.len() - i,
{
    if 0 <= i < s.len() && is_digit(s[i]) {
        let a = acc * 10 + digit_value(s[i]);
        if a <= hi {
            lemma_parse_digits_lo(s, i + 1, a, lo, hi);
        }
    }
}

/// After a `-`, reading digits reads them as without it, negated, the lower bound
/// standing as the upper one.
proof fn lemma_parse_digits_neg(s: Seq<char>, i: int, acc: int, lo: int, hi: int)
    ensures
        parse_digits(s, i, acc, true, lo, hi) == match parse_digits(s, i, acc, false, 0, -lo) {
            Ok(v) => Ok(-v),
            Err(IntErrorKind::PosOverflow) => Err(IntErrorKind::NegOverflow),
            Err(e) => Err(e),
        },
    decreases s.len() - i,
{
    if 0 <= i < s.len() && is_digit(s[i]) {
        let a = acc * 10 + digit_value(s[i]);
        if a <= -lo {
            lemma_parse_digits_neg(s, i + 1, a, lo, hi);
        }
    }
}

/// Reading digits after one more leading character reads the same digits.
proof fn lemma_parse_digits_shift(c: char, s: Seq<char>, i: int, acc: int, neg: bool, lo: int, hi: int)
    requires
        0 <= i <= s.len(),
    ensures
        parse_digits(seq![c] + s, i + 1, acc, neg, lo, hi) == parse_digits(s, i, acc, neg, lo, hi),
    decreases s.len() - i,
{
    let t = seq![c] + s;
    if i < s.len() {
        assert(t[i + 1] == s[i]);
        if is_digit(s[i]) {
            let a = acc * 10 + digit_value(s[i]);
            lemma_parse_digits_shift(c, s, i + 1, a, neg, lo, hi);
        }
    }
}

/// Reading back the decimal text of an integer of a type gives the integer.
pub proof fn lemma_parse_int_text(v: int, lo: int, hi: int)
    requires
        lo <= v <= hi,
        lo <= 0 <= hi,
    ensures
        spec_parse_int(spec_int_text(v), lo, hi) == Ok::<int, IntErrorKind>(v),
{
    reveal(spec_int_text);
    if v >= 0 {
        let d = spec_dec(v as nat);
        lemma_parse_dec(v as nat, hi);
        lemma_dec_digits(v as nat);
        assert(is_digit(d[0]));
        lemma_parse_digits_lo(d, 0, 0, lo, hi);
    } else {
        let n = (-v) as nat;
        let d = spec_dec(n);
        let s = seq!['-'] + d;
        lemma_parse_dec(n, -lo);
        lemma_dec_digits(n);
        assert(is_digit(d[0]));
        assert(s =~= spec_int_text(v));
        assert(s[0] == '-');
        lemma_parse_digits_shift('-', d, 0, 0, true, lo, hi);
        lemma_parse_digits_neg(d, 0, 0, lo, hi);
    }
}

/// The decimal text of a number is not empty.
pub proof fn lemma_dec_nonempty(n: nat)
    ensures
        spec_dec(n).len() > 0,
{
    lemma_dec_digits(n);
}

} // verus!
