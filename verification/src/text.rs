//! Text primitives over the character view of strings.
//!
//! A `&str` or a `String` is seen through its sequence of `char`s (`s@`). The
//! functions here are the string operations the rest of the library needs
//! (equality, prefixes, searching a character, trimming), each stated over that
//! view.

use vstd::prelude::*;
use vstd::string::*;
use vstd::utf8::*;
use vstd::multiset::Multiset;

verus! {

broadcast use vstd::utf8::encode_utf8_decode_utf8;

/// Unicode `White_Space`, as `char::is_whitespace` and `str::trim` use it.
pub open spec fn is_whitespace(c: char) -> bool {
    let u = c as u32;
    ||| (0x09 <= u && u <= 0x0d)
    ||| u == 0x20
    ||| u == 0x85
    ||| u == 0xa0
    ||| u == 0x1680
    ||| (0x2000 <= u && u <= 0x200a)
    ||| u == 0x2028
    ||| u == 0x2029
    ||| u == 0x202f
    ||| u == 0x205f
    ||| u == 0x3000
}

/// `s` begins with `p`.
pub open spec fn seq_starts_with(s: Seq<char>, p: Seq<char>) -> bool {
    p.len() <= s.len() && s.subrange(0, p.len() as int) == p
}

/// `s` ends with `p`.
pub open spec fn seq_ends_with(s: Seq<char>, p: Seq<char>) -> bool {
    p.len() <= s.len() && s.subrange(s.len() - p.len(), s.len() as int) == p
}

/// Index of the first `c` in `s` at or after `i`.
pub open spec fn find_char_from(s: Seq<char>, c: char, i: int) -> Option<int>
    decreases s.len() - i,
{
    if i < 0 || i >= s.len() {
        None
    } else if s[i] == c {
        Some(i)
    } else {
        find_char_from(s, c, i + 1)
    }
}

/// A search for `c` from `i` finds the first `c` at or after `i`.
pub proof fn lemma_find_char_first(s: Seq<char>, c: char, i: int, k: int)
    requires
        0 <= i <= k < s.len(),
        s[k] == c,
        forall|j: int| i <= j < k ==> s[j] != c,
    ensures
        find_char_from(s, c, i) == Some(k),
    decreases k - i,
{
    if i < k {
        lemma_find_char_first(s, c, i + 1, k);
    }
}

/// Index of the first `c` in `s`.
pub open spec fn find_char(s: Seq<char>, c: char) -> Option<int> {
    find_char_from(s, c, 0)
}

/// `s` without its leading characters that satisfy `p`.
pub open spec fn drop_while(s: Seq<char>, p: spec_fn(char) -> bool) -> Seq<char>
    decreases s.len(),
{
    if s.len() > 0 && p(s[0]) {
        drop_while(s.drop_first(), p)
    } else {
        s
    }
}

/// `s` without its trailing characters that satisfy `p`.
pub open spec fn drop_last_while(s: Seq<char>, p: spec_fn(char) -> bool) -> Seq<char>
    decreases s.len(),
{
    if s.len() > 0 && p(s.last()) {
        drop_last_while(s.drop_last(), p)
    } else {
        s
    }
}

/// `str::trim`: leading and trailing whitespace removed.
pub open spec fn spec_trim(s: Seq<char>) -> Seq<char> {
    drop_last_while(drop_while(s, |c: char| is_whitespace(c)), |c: char| is_whitespace(c))
}

/// The test "is the character `c`".
pub open spec fn is_char(c: char) -> spec_fn(char) -> bool {
    |x: char| x == c
}

/// `str::trim_start_matches` with a single character.
pub open spec fn spec_trim_start_char(s: Seq<char>, c: char) -> Seq<char> {
    drop_while(s, is_char(c))
}

/// `str::trim_end_matches` with a single character.
pub open spec fn spec_trim_end_char(s: Seq<char>, c: char) -> Seq<char> {
    drop_last_while(s, is_char(c))
}

/// The characters of each string of `v`.
pub open spec fn string_views(v: Seq<String>) -> Seq<Seq<char>> {
    v.map_values(|s: String| s@)
}

/// Characters encoded on one byte.
pub open spec fn is_ascii_char(c: char) -> bool {
    (c as u32) < 128
}

proof fn lemma_drop_while_step(s: Seq<char>, i: int, p: spec_fn(char) -> bool)
    requires
        0 <= i < s.len(),
        p(s[i]),
    ensures
        drop_while(s.subrange(i, s.len() as int), p) == drop_while(
            s.subrange(i + 1, s.len() as int),
            p,
        ),
{
    let t = s.subrange(i, s.len() as int);
    assert(t.drop_first() =~= s.subrange(i + 1, s.len() as int));
}

proof fn lemma_drop_last_while_step(s: Seq<char>, j: int, p: spec_fn(char) -> bool)
    requires
        0 < j <= s.len(),
        p(s[j - 1]),
    ensures
        drop_last_while(s.subrange(0, j), p) == drop_last_while(s.subrange(0, j - 1), p),
{
    let t = s.subrange(0, j);
    assert(t.drop_last() =~= s.subrange(0, j - 1));
}

/// Whether two strings hold the same characters.
pub fn str_eq(a: &str, b: &str) -> (r: bool)
    ensures
        r == (a@ == b@),
{
    let x = a.as_bytes();
    let y = b.as_bytes();
    assert(x@ == encode_utf8(a@));
    assert(y@ == encode_utf8(b@));
    proof {
        encode_utf8_decode_utf8(a@);
        encode_utf8_decode_utf8(b@);
    }
    assert(x@.len() == x.len() && y@.len() == y.len());
    if x.len() != y.len() {
        return false;
    }
    let mut i: usize = 0;
    while i < x.len()
        invariant
            x.len() == y.len(),
            x@.len() == x.len(),
            x@ == encode_utf8(a@),
            y@ == encode_utf8(b@),
            i <= x.len(),
            forall|j: int| 0 <= j < i ==> x@[j] == y@[j],
        decreases x.len() - i,
    {
        if x[i] != y[i] {
            assert(x@[i as int] != y@[i as int]);
            assert(x@ != y@);
            return false;
        }
        i = i + 1;
    }
    assert(x@ =~= y@);
    true
}

/// `s.starts_with(p)`.
pub fn starts_with(s: &str, p: &str) -> (r: bool)
    ensures
        r == seq_starts_with(s@, p@),
{
    let n = s.unicode_len();
    let m = p.unicode_len();
    if m > n {
        return false;
    }
    let mut i: usize = 0;
    while i < m
        invariant
            n == s@.len(),
            m == p@.len(),
            m <= n,
            i <= m,
            forall|j: int| 0 <= j < i ==> s@[j] == p@[j],
        decreases m - i,
    {
        if s.get_char(i) != p.get_char(i) {
            assert(s@.subrange(0, m as int)[i as int] != p@[i as int]);
            return false;
        }
        i = i + 1;
    }
    assert(s@.subrange(0, m as int) =~= p@);
    true
}

/// `s.ends_with(p)`.
pub fn ends_with(s: &str, p: &str) -> (r: bool)
    ensures
        r == seq_ends_with(s@, p@),
{
    let n = s.unicode_len();
    let m = p.unicode_len();
    if m > n {
        return false;
    }
    let off = n - m;
    let mut i: usize = 0;
    while i < m
        invariant
            n == s@.len(),
            m == p@.len(),
            m <= n,
            off == n - m,
            i <= m,
            forall|j: int| 0 <= j < i ==> s@[off + j] == p@[j],
        decreases m - i,
    {
        if s.get_char(off + i) != p.get_char(i) {
            assert(s@.subrange(off as int, n as int)[i as int] != p@[i as int]);
            return false;
        }
        i = i + 1;
    }
    assert(s@.subrange(off as int, n as int) =~= p@);
    true
}

/// The index of the first `c` in `s` (counted in characters).
pub fn find_char_index(s: &str, c: char) -> (r: Option<usize>)
    ensures
        r matches Some(i) ==> find_char(s@, c) == Some(i as int) && i < s@.len() && s@[i as int]
            == c,
        r is None ==> find_char(s@, c) is None,
{
    let n = s.unicode_len();
    let mut i: usize = 0;
    while i < n
        invariant
            n == s@.len(),
            i <= n,
            find_char(s@, c) == find_char_from(s@, c, i as int),
        decreases n - i,
    {
        if s.get_char(i) == c {
            return Some(i);
        }
        i = i + 1;
    }
    None
}

/// `s.trim()`.
pub fn trim<'a>(s: &'a str) -> (r: &'a str)
    ensures
        r@ == spec_trim(s@),
{
    let n = s.unicode_len();
    let mut i: usize = 0;
    let ghost ws = |c: char| is_whitespace(c);
    assert(s@.subrange(0, n as int) =~= s@);
    while i < n
        invariant
            n == s@.len(),
            i <= n,
            ws == (|c: char| is_whitespace(c)),
            drop_while(s@, ws) == drop_while(s@.subrange(i as int, n as int), ws),
        ensures
            i <= n,
            drop_while(s@, ws) == drop_while(s@.subrange(i as int, n as int), ws),
            i < n ==> !is_whitespace(s@[i as int]),
        decreases n - i,
    {
        if !is_whitespace_char(s.get_char(i)) {
            break;
        }
        proof {
            lemma_drop_while_step(s@, i as int, ws);
        }
        i = i + 1;
    }
    let head = s.substring_char(i, n);
    assert(drop_while(s@, ws) == head@) by {
        if i < n {
            assert(!ws(head@[0]));
        } else {
            assert(head@.len() == 0);
        }
    }
    let m = head.unicode_len();
    let mut j: usize = m;
    assert(head@.subrange(0, m as int) =~= head@);
    while j > 0
        invariant
            m == head@.len(),
            j <= m,
            ws == (|c: char| is_whitespace(c)),
            drop_last_while(head@, ws) == drop_last_while(head@.subrange(0, j as int), ws),
        ensures
            j <= m,
            drop_last_while(head@, ws) == drop_last_while(head@.subrange(0, j as int), ws),
            j > 0 ==> !is_whitespace(head@[j - 1]),
        decreases j,
    {
        if !is_whitespace_char(head.get_char(j - 1)) {
            break;
        }
        proof {
            lemma_drop_last_while_step(head@, j as int, ws);
        }
        j = j - 1;
    }
    let r = head.substring_char(0, j);
    assert(drop_last_while(head@, ws) == r@) by {
        if j > 0 {
            assert(r@.last() == head@[j - 1]);
        }
    }
    r
}

/// `s.trim_start_matches(c)`.
pub fn trim_start_matches<'a>(s: &'a str, c: char) -> (r: &'a str)
    ensures
        r@ == spec_trim_start_char(s@, c),
{
    let n = s.unicode_len();
    let mut i: usize = 0;
    let ghost p = is_char(c);
    assert(s@.subrange(0, n as int) =~= s@);
    while i < n
        invariant
            n == s@.len(),
            i <= n,
            p == is_char(c),
            drop_while(s@, p) == drop_while(s@.subrange(i as int, n as int), p),
        ensures
            i <= n,
            drop_while(s@, p) == drop_while(s@.subrange(i as int, n as int), p),
            i < n ==> s@[i as int] != c,
        decreases n - i,
    {
        if s.get_char(i) != c {
            break;
        }
        proof {
            lemma_drop_while_step(s@, i as int, p);
        }
        i = i + 1;
    }
    let r = s.substring_char(i, n);
    assert(drop_while(s@, p) == r@) by {
        if i < n {
            assert(!p(r@[0]));
        }
    }
    r
}

/// `s.trim_end_matches(c)`.
pub fn trim_end_matches<'a>(s: &'a str, c: char) -> (r: &'a str)
    ensures
        r@ == spec_trim_end_char(s@, c),
{
    let n = s.unicode_len();
    let mut j: usize = n;
    let ghost p = is_char(c);
    assert(s@.subrange(0, n as int) =~= s@);
    while j > 0
        invariant
            n == s@.len(),
            j <= n,
            p == is_char(c),
            drop_last_while(s@, p) == drop_last_while(s@.subrange(0, j as int), p),
        ensures
            j <= n,
            drop_last_while(s@, p) == drop_last_while(s@.subrange(0, j as int), p),
            j > 0 ==> s@[j - 1] != c,
        decreases j,
    {
        if s.get_char(j - 1) != c {
            break;
        }
        proof {
            lemma_drop_last_while_step(s@, j as int, p);
        }
        j = j - 1;
    }
    let r = s.substring_char(0, j);
    assert(drop_last_while(s@, p) == r@) by {
        if j > 0 {
            assert(r@.last() == s@[j - 1]);
        }
    }
    r
}

/// `s.strip_prefix(p)`.
pub fn strip_prefix<'a>(s: &'a str, p: &str) -> (r: Option<&'a str>)
    ensures
        r is Some <==> seq_starts_with(s@, p@),
        r matches Some(t) ==> t@ == s@.subrange(p@.len() as int, s@.len() as int),
{
    if starts_with(s, p) {
        let n = s.unicode_len();
        let m = p.unicode_len();
        Some(s.substring_char(m, n))
    } else {
        None
    }
}

/// `s.strip_suffix(p)`.
pub fn strip_suffix<'a>(s: &'a str, p: &str) -> (r: Option<&'a str>)
    ensures
        r is Some <==> seq_ends_with(s@, p@),
        r matches Some(t) ==> t@ == s@.subrange(0, s@.len() - p@.len()),
{
    if ends_with(s, p) {
        let n = s.unicode_len();
        let m = p.unicode_len();
        Some(s.substring_char(0, n - m))
    } else {
        None
    }
}

/// `char::is_whitespace`.
pub fn is_whitespace_char(c: char) -> (r: bool)
    ensures
        r == is_whitespace(c),
{
    let u = c as u32;
    (0x09 <= u && u <= 0x0d) || u == 0x20 || u == 0x85 || u == 0xa0 || u == 0x1680 || (0x2000
        <= u && u <= 0x200a) || u == 0x2028 || u == 0x2029 || u == 0x202f || u == 0x205f || u
        == 0x3000
}

/// A new `String` holding the characters of `s`.
pub fn to_owned(s: &str) -> (r: String)
    ensures
        r@ == s@,
{
    s.to_owned()
}

/// A new `String` holding `a` followed by `b`.
pub fn concat2(a: &str, b: &str) -> (r: String)
    ensures
        r@ == a@ + b@,
{
    let mut r = a.to_owned();
    r.append(b);
    r
}

/// The strings `v` with `sep` between each two of them.
pub open spec fn spec_join(v: Seq<Seq<char>>, sep: Seq<char>) -> Seq<char>
    decreases v.len(),
{
    if v.len() == 0 {
        Seq::empty()
    } else if v.len() == 1 {
        v[0]
    } else {
        spec_join(v.drop_last(), sep) + sep + v.last()
    }
}

/// The strings `v` with `sep` between each two of them, as `[String]::join` gives
/// them.
pub fn join(v: &Vec<String>, sep: &str) -> (r: String)
    ensures
        r@ == spec_join(string_views(v@), sep@),
{
    let mut r = String::new();
    let mut i: usize = 0;
    while i < v.len()
        invariant
            i <= v@.len(),
            r@ == spec_join(string_views(v@.take(i as int)), sep@),
        decreases v.len() - i,
    {
        proof {
            assert(string_views(v@.take(i + 1)).drop_last() =~= string_views(v@.take(i as int)));
            assert(string_views(v@.take(i + 1)).last() == v@[i as int]@);
        }
        if i == 0 {
            r = to_owned(v[0].as_str());
        } else {
            r = concat3(r.as_str(), sep, v[i].as_str());
        }
        i = i + 1;
    }
    assert(v@.take(v@.len() as int) =~= v@);
    r
}

/// A new `String` holding `a`, `b` and `c` one after the other.
pub fn concat3(a: &str, b: &str, c: &str) -> (r: String)
    ensures
        r@ == a@ + b@ + c@,
{
    let mut r = a.to_owned();
    r.append(b);
    r.append(c);
    r
}


/// `sep` occurs in `s` at index `i`.
pub open spec fn occurs_at(s: Seq<char>, sep: Seq<char>, i: int) -> bool {
    0 <= i && i + sep.len() <= s.len() && s.subrange(i, i + sep.len()) == sep
}

/// The first index at or after `i` where `sep` occurs in `s`.
pub open spec fn find_sub_from(s: Seq<char>, sep: Seq<char>, i: int) -> Option<int>
    decreases s.len() - i,
{
    if i < 0 || i >= s.len() || i + sep.len() > s.len() {
        None
    } else if occurs_at(s, sep, i) {
        Some(i)
    } else {
        find_sub_from(s, sep, i + 1)
    }
}

/// Where `sep` is found, it lies within `s`, at or after `i`.
pub proof fn lemma_find_sub_bounds(s: Seq<char>, sep: Seq<char>, i: int)
    ensures
        find_sub_from(s, sep, i) matches Some(k) ==> i <= k && k + sep.len() <= s.len(),
    decreases s.len() - i,
{
    if !(i < 0 || i >= s.len() || i + sep.len() > s.len()) && !occurs_at(s, sep, i) {
        lemma_find_sub_bounds(s, sep, i + 1);
    }
}

/// `str::split` by a non-empty separator, from index `start` on.
pub open spec fn spec_split_from(s: Seq<char>, sep: Seq<char>, start: int) -> Seq<Seq<char>>
    decreases s.len() - start,
{
    if sep.len() == 0 || start < 0 || start > s.len() {
        seq![s.subrange(start, s.len() as int)]
    } else {
        match find_sub_from(s, sep, start) {
            Some(k) => if k >= start {
                proof {
                    lemma_find_sub_bounds(s, sep, start);
                }
                seq![s.subrange(start, k)] + spec_split_from(s, sep, k + sep.len())
            } else {
                seq![s.subrange(start, s.len() as int)]
            },
            None => seq![s.subrange(start, s.len() as int)],
        }
    }
}

/// `str::split` by a non-empty separator.
pub open spec fn spec_split(s: Seq<char>, sep: Seq<char>) -> Seq<Seq<char>> {
    spec_split_from(s, sep, 0)
}

/// The characters of each string of `v`.
pub open spec fn strs_view(v: Seq<&str>) -> Seq<Seq<char>> {
    v.map_values(|x: &str| x@)
}

/// Whether `sep` occurs in `s` at index `i`.
fn occurs_at_exec(s: &str, sep: &str, i: usize) -> (r: bool)
    requires
        i + sep@.len() <= s@.len(),
    ensures
        r == occurs_at(s@, sep@, i as int),
{
    let n = s.unicode_len();
    let m = sep.unicode_len();
    let mut k: usize = 0;
    while k < m
        invariant
            n == s@.len(),
            m == sep@.len(),
            i + m <= s@.len(),
            k <= m,
            forall|j: int| 0 <= j < k ==> s@[i + j] == sep@[j],
        decreases m - k,
    {
        if s.get_char(i + k) != sep.get_char(k) {
            assert(s@.subrange(i as int, i + m)[k as int] != sep@[k as int]);
            return false;
        }
        k = k + 1;
    }
    assert(s@.subrange(i as int, i + m) =~= sep@);
    true
}

/// Whether `sub` occurs somewhere in `s`.
pub fn contains_sub(s: &str, sub: &str) -> (r: bool)
    ensures
        r == exists|i: int| occurs_at(s@, sub@, i),
{
    let n = s.unicode_len();
    let m = sub.unicode_len();
    let mut i: usize = 0;
    while i < n && m <= n - i
        invariant
            n == s@.len(),
            m == sub@.len(),
            i <= n,
            forall|j: int| 0 <= j < i ==> !#[trigger] occurs_at(s@, sub@, j),
        decreases n - i,
    {
        if occurs_at_exec(s, sub, i) {
            return true;
        }
        i = i + 1;
    }
    if m == 0 && i == n {
        assert(s@.subrange(n as int, n as int) =~= sub@);
        assert(occurs_at(s@, sub@, n as int));
        return true;
    }
    assert forall|j: int| !occurs_at(s@, sub@, j) by {
        if 0 <= j < i {
        } else if j >= i {
            assert(j + m > n);
        }
    }
    false
}

proof fn lemma_find_sub_skip(s: Seq<char>, sep: Seq<char>, i: int)
    requires
        0 <= i < s.len(),
        i + sep.len() <= s.len(),
        !occurs_at(s, sep, i),
    ensures
        find_sub_from(s, sep, i) == find_sub_from(s, sep, i + 1),
{
}

/// `s.split(sep)` for a non-empty separator.
pub fn split_str<'a>(s: &'a str, sep: &str) -> (r: Vec<&'a str>)
    requires
        sep@.len() > 0,
    ensures
        strs_view(r@) == spec_split(s@, sep@),
{
    let n = s.unicode_len();
    let m = sep.unicode_len();
    let mut r: Vec<&'a str> = Vec::new();
    let mut start: usize = 0;
    let mut i: usize = 0;
    while i < n && m <= n - i
        invariant
            n == s@.len(),
            m == sep@.len(),
            m > 0,
            start <= i <= n,
            find_sub_from(s@, sep@, start as int) == find_sub_from(s@, sep@, i as int),
            spec_split(s@, sep@) == strs_view(r@) + spec_split_from(s@, sep@, start as int),
        decreases n - i,
    {
        if occurs_at_exec(s, sep, i) {
            let ghost before = r@;
            r.push(s.substring_char(start, i));
            proof {
                assert(strs_view(r@) =~= strs_view(before).push(s@.subrange(start as int, i as int)));
                assert(spec_split_from(s@, sep@, start as int) == seq![
                    s@.subrange(start as int, i as int),
                ] + spec_split_from(s@, sep@, i + m));
                assert(strs_view(before) + (seq![s@.subrange(start as int, i as int)]
                    + spec_split_from(s@, sep@, i + m)) =~= strs_view(before).push(
                    s@.subrange(start as int, i as int),
                ) + spec_split_from(s@, sep@, i + m));
            }
            start = i + m;
            i = start;
        } else {
            proof {
                lemma_find_sub_skip(s@, sep@, i as int);
            }
            i = i + 1;
        }
    }
    proof {
        assert(find_sub_from(s@, sep@, i as int) is None);
        assert(spec_split_from(s@, sep@, start as int) == seq![s@.subrange(start as int, n as int)]);
    }
    let ghost before = r@;
    r.push(s.substring_char(start, n));
    proof {
        assert(strs_view(r@) =~= strs_view(before) + seq![s@.subrange(start as int, n as int)]);
    }
    r
}

/// `a` comes before `b` in the order of `str`: the first character where they
/// differ is smaller in `a` (by code point), or `a` is a proper prefix of `b`.
pub open spec fn text_lt(a: Seq<char>, b: Seq<char>) -> bool
    decreases a.len(),
{
    if a.len() == 0 {
        b.len() > 0
    } else if b.len() == 0 {
        false
    } else if a[0] != b[0] {
        (a[0] as int) < (b[0] as int)
    } else {
        text_lt(a.skip(1), b.skip(1))
    }
}

/// `a` comes before `b` or is `b`.
pub open spec fn text_le(a: Seq<char>, b: Seq<char>) -> bool {
    a == b || text_lt(a, b)
}

/// The texts are in the order of `str`.
pub open spec fn texts_sorted(s: Seq<Seq<char>>) -> bool {
    forall|i: int, j: int| 0 <= i < j < s.len() ==> text_le(#[trigger] s[i], #[trigger] s[j])
}

/// Two texts with the same first character compare as what follows it.
proof fn lemma_text_lt_tail(a: Seq<char>, b: Seq<char>)
    requires
        a.len() > 0,
        b.len() > 0,
        a[0] == b[0],
    ensures
        text_lt(a, b) == text_lt(a.skip(1), b.skip(1)),
        (a == b) == (a.skip(1) == b.skip(1)),
{
    if a.skip(1) == b.skip(1) {
        assert(a =~= seq![a[0]] + a.skip(1));
        assert(b =~= seq![b[0]] + b.skip(1));
    }
}

/// No text comes before itself.
proof fn lemma_text_irreflexive(a: Seq<char>)
    ensures
        !text_lt(a, a),
    decreases a.len(),
{
    if a.len() > 0 {
        lemma_text_irreflexive(a.skip(1));
    }
}

/// Of two different texts, one comes before the other.
proof fn lemma_text_total(a: Seq<char>, b: Seq<char>)
    ensures
        text_lt(a, b) || a == b || text_lt(b, a),
    decreases a.len(),
{
    if a.len() == 0 && b.len() == 0 {
        assert(a =~= b);
    } else if a.len() > 0 && b.len() > 0 && a[0] == b[0] {
        lemma_text_total(a.skip(1), b.skip(1));
        lemma_text_lt_tail(a, b);
        lemma_text_lt_tail(b, a);
    } else if a.len() > 0 && b.len() > 0 {
        assert((a[0] as int) != (b[0] as int));
    }
}

/// Two texts do not come before each other.
proof fn lemma_text_asymmetric(a: Seq<char>, b: Seq<char>)
    ensures
        text_lt(a, b) ==> !text_lt(b, a),
    decreases a.len(),
{
    if a.len() > 0 && b.len() > 0 && a[0] == b[0] {
        lemma_text_asymmetric(a.skip(1), b.skip(1));
        lemma_text_lt_tail(a, b);
        lemma_text_lt_tail(b, a);
    }
}

/// Coming before is transitive.
proof fn lemma_text_transitive(a: Seq<char>, b: Seq<char>, c: Seq<char>)
    ensures
        text_lt(a, b) && text_lt(b, c) ==> text_lt(a, c),
    decreases a.len(),
{
    if a.len() > 0 && b.len() > 0 && c.len() > 0 && a[0] == b[0] && b[0] == c[0] {
        lemma_text_transitive(a.skip(1), b.skip(1), c.skip(1));
        lemma_text_lt_tail(a, b);
        lemma_text_lt_tail(b, c);
        lemma_text_lt_tail(a, c);
    }
}

/// The order of `str` is a strict total order.
pub proof fn lemma_text_order(a: Seq<char>, b: Seq<char>, c: Seq<char>)
    ensures
        !text_lt(a, a),
        text_lt(a, b) || a == b || text_lt(b, a),
        text_lt(a, b) ==> !text_lt(b, a),
        text_lt(a, b) && text_lt(b, c) ==> text_lt(a, c),
{
    lemma_text_irreflexive(a);
    lemma_text_total(a, b);
    lemma_text_asymmetric(a, b);
    lemma_text_transitive(a, b, c);
}

/// Whether `a` comes before `b` in the order of `str`.
pub fn str_lt(a: &str, b: &str) -> (r: bool)
    ensures
        r == text_lt(a@, b@),
{
    let n = a.unicode_len();
    let m = b.unicode_len();
    let mut i: usize = 0;
    assert(a@.skip(0) =~= a@);
    assert(b@.skip(0) =~= b@);
    while i < n && i < m
        invariant
            n == a@.len(),
            m == b@.len(),
            i <= n,
            i <= m,
            text_lt(a@, b@) == text_lt(a@.skip(i as int), b@.skip(i as int)),
        decreases n - i,
    {
        let x = a.get_char(i);
        let y = b.get_char(i);
        if x != y {
            return (x as u32) < (y as u32);
        }
        proof {
            lemma_text_lt_tail(a@.skip(i as int), b@.skip(i as int));
            assert(a@.skip(i as int).skip(1) =~= a@.skip(i + 1));
            assert(b@.skip(i as int).skip(1) =~= b@.skip(i + 1));
        }
        i = i + 1;
    }
    i == n && i < m
}

/// A value that holds a text: a `String` or a `&str`.
pub trait Text: View<V = Seq<char>> {
    /// The text.
    fn as_text(&self) -> (r: &str)
        ensures
            r@ == self@,
    ;
}

impl Text for String {
    fn as_text(&self) -> (r: &str) {
        self.as_str()
    }
}

impl<'a> Text for &'a str {
    fn as_text(&self) -> (r: &str) {
        *self
    }
}

/// The texts of `v`, in order.
pub open spec fn text_views<T: View<V = Seq<char>>>(v: Seq<T>) -> Seq<Seq<char>> {
    v.map_values(|x: T| x@)
}

/// `v.sort_unstable()`: the same texts, in the order of `str`.
fn sort_texts<T: Text>(v: Vec<T>) -> (r: Vec<T>)
    ensures
        texts_sorted(text_views(r@)),
        text_views(r@).to_multiset() == text_views(v@).to_multiset(),
{
    broadcast use vstd::seq_lib::to_multiset_insert, vstd::seq_lib::to_multiset_build;
    broadcast use vstd::multiset::group_multiset_axioms;
    broadcast use vstd::seq_lib::to_multiset_len, vstd::multiset::lemma_multiset_empty_len;

    let ghost all = text_views(v@).to_multiset();
    let mut r: Vec<T> = Vec::new();
    let mut rest = v;
    proof {
        assert(text_views(r@) =~= Seq::<Seq<char>>::empty());
        assert(text_views(r@).to_multiset().len() == 0);
        assert(text_views(r@).to_multiset() =~= Multiset::empty());
        assert(text_views(r@).to_multiset().add(text_views(rest@).to_multiset()) =~= all);
    }
    while rest.len() > 0
        invariant
            texts_sorted(text_views(r@)),
            text_views(r@).to_multiset().add(text_views(rest@).to_multiset()) == all,
        decreases rest.len(),
    {
        let ghost before_rest = text_views(rest@);
        let x = rest.pop().unwrap();
        let ghost xv = x@;
        proof {
            assert(before_rest =~= text_views(rest@).push(xv));
            vstd::seq_lib::to_multiset_build(text_views(rest@), xv);
        }
        let mut p: usize = 0;
        while p < r.len() && !str_lt(x.as_text(), r[p].as_text())
            invariant
                p <= r@.len(),
                xv == x@,
                forall|k: int| 0 <= k < p ==> #[trigger] text_le(r@[k]@, xv),
            decreases r.len() - p,
        {
            proof {
                lemma_text_order(xv, r@[p as int]@, xv);
            }
            p = p + 1;
        }
        let ghost old_r = text_views(r@);
        proof {
            assert forall|k: int| 0 <= k < p implies #[trigger] text_le(old_r[k], xv) by {
                assert(old_r[k] == r@[k]@);
            }
        }
        r.insert(p, x);
        proof {
            let rv = text_views(r@);
            assert(rv =~= old_r.insert(p as int, xv));
            vstd::seq_lib::to_multiset_insert(old_r, p as int, xv);
            assert(rv.to_multiset().add(text_views(rest@).to_multiset()) =~= all);
            assert forall|a: int, b: int| 0 <= a < b < rv.len() implies text_le(
                #[trigger] rv[a],
                #[trigger] rv[b],
            ) by {
                if b < p {
                    assert(text_le(old_r[a], old_r[b]));
                } else if a < p && b == p {
                } else if a < p && b > p {
                    assert(text_lt(xv, old_r[p as int]));
                    assert(text_le(old_r[p as int], old_r[b - 1]));
                    lemma_text_order(old_r[a], xv, old_r[b - 1]);
                    lemma_text_order(xv, old_r[p as int], old_r[b - 1]);
                    lemma_text_order(old_r[a], old_r[p as int], old_r[b - 1]);
                } else if a == p {
                    assert(text_lt(xv, old_r[p as int]));
                    assert(text_le(old_r[p as int], old_r[b - 1]));
                    lemma_text_order(xv, old_r[p as int], old_r[b - 1]);
                } else {
                    assert(text_le(old_r[a - 1], old_r[b - 1]));
                }
            }
        }
    }
    proof {
        assert(text_views(rest@) =~= Seq::<Seq<char>>::empty());
        assert(text_views(rest@).to_multiset().len() == 0);
        assert(text_views(rest@).to_multiset() =~= Multiset::empty());
        assert(text_views(r@).to_multiset() =~= all);
    }
    r
}

/// `v.sort_unstable()` on strings: the same strings, in the order of `str`.
pub fn sort_strings(v: Vec<String>) -> (r: Vec<String>)
    ensures
        texts_sorted(string_views(r@)),
        string_views(r@).to_multiset() == string_views(v@).to_multiset(),
{
    let r = sort_texts(v);
    assert(string_views(r@) =~= text_views(r@));
    assert(string_views(v@) =~= text_views(v@));
    r
}

/// `v.sort_unstable()` on string slices: the same texts, in the order of `str`.
pub fn sort_strs<'a>(v: Vec<&'a str>) -> (r: Vec<&'a str>)
    ensures
        texts_sorted(strs_view(r@)),
        strs_view(r@).to_multiset() == strs_view(v@).to_multiset(),
{
    let r = sort_texts(v);
    assert(strs_view(r@) =~= text_views(r@));
    assert(strs_view(v@) =~= text_views(v@));
    r
}

} // verus!
