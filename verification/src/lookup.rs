//! Finding an entity by its slug or its uri in a collection.
//!
//! A collection is searched front to back and the first entity whose key equals
//! the needle is the one found. Codex uris have the shape `{prefix}{slug}/`.

use vstd::prelude::*;

use vstd::string::*;
use vstd::utf8::*;

use crate::text::{
    drop_last_while, is_ascii_char, is_char, seq_starts_with, spec_trim_end_char, starts_with, trim_end_matches,
};

verus! {

/// The index of the first key equal to `needle`, looking from index `i` on.
pub open spec fn first_match_from(keys: Seq<Seq<char>>, needle: Seq<char>, i: int) -> Option<int>
    decreases keys.len() - i,
{
    if i < 0 || i >= keys.len() {
        None
    } else if keys[i] == needle {
        Some(i)
    } else {
        first_match_from(keys, needle, i + 1)
    }
}

/// The index of the first key equal to `needle`.
pub open spec fn first_match(keys: Seq<Seq<char>>, needle: Seq<char>) -> Option<int> {
    first_match_from(keys, needle, 0)
}

/// What a search by key finds from index `i` on: the first index with the key, with
/// no key equal to the needle before it, or nothing when no key from `i` on equals it.
pub proof fn lemma_first_match_from(keys: Seq<Seq<char>>, needle: Seq<char>, i: int)
    requires
        0 <= i,
    ensures
        match first_match_from(keys, needle, i) {
            Some(k) => i <= k < keys.len() && keys[k] == needle && forall|j: int| i <= j < k ==> keys[j] != needle,
            None => forall|j: int| i <= j < keys.len() ==> keys[j] != needle,
        },
    decreases keys.len() - i,
{
    if i < keys.len() && keys[i] != needle {
        lemma_first_match_from(keys, needle, i + 1);
    }
}

/// The index of the first integer key equal to `needle`, looking from index `i` on.
pub open spec fn first_id_from(keys: Seq<u32>, needle: u32, i: int) -> Option<int>
    decreases keys.len() - i,
{
    if i < 0 || i >= keys.len() {
        None
    } else if keys[i] == needle {
        Some(i)
    } else {
        first_id_from(keys, needle, i + 1)
    }
}

/// The index of the first integer key equal to `needle`.
pub open spec fn first_id(keys: Seq<u32>, needle: u32) -> Option<int> {
    first_id_from(keys, needle, 0)
}

/// Cutting the slug out of `uri` does not panic: when `uri` starts with
/// `prefix`, something follows the prefix and the last character is one byte.
pub open spec fn uri_ok(uri: Seq<char>, prefix: Seq<char>) -> bool {
    seq_starts_with(uri, prefix) ==> uri.len() > prefix.len() && is_ascii_char(uri.last())
}

/// The slug of `uri`: what lies between `prefix` and the last character, when
/// `uri` starts with `prefix`.
pub open spec fn uri_slug(uri: Seq<char>, prefix: Seq<char>) -> Option<Seq<char>> {
    if seq_starts_with(uri, prefix) {
        Some(uri.subrange(prefix.len() as int, uri.len() - 1))
    } else {
        None
    }
}

/// The uri `{prefix}{slug}/`.
pub open spec fn slug_uri(prefix: Seq<char>, slug: Seq<char>) -> Seq<char> {
    prefix + slug + seq!['/']
}

/// The slug of a codex uri: `needle` without `prefix` and its last character.
pub fn slug_of_uri<'a>(needle: &'a str, prefix: &str) -> (r: Option<&'a str>)
    requires
        uri_ok(needle@, prefix@),
    ensures
        r is Some <==> uri_slug(needle@, prefix@) is Some,
        r matches Some(s) ==> uri_slug(needle@, prefix@) == Some(s@),
{
    if !starts_with(needle, prefix) {
        return None;
    }
    let n = needle.unicode_len();
    let m = prefix.unicode_len();
    Some(needle.substring_char(m, n - 1))
}

/// A uri built from a slug gives that slug back, and cutting it does not panic.
pub proof fn lemma_slug_uri_roundtrip(prefix: Seq<char>, slug: Seq<char>)
    ensures
        uri_ok(slug_uri(prefix, slug), prefix),
        uri_slug(slug_uri(prefix, slug), prefix) == Some(slug),
{
    let u = slug_uri(prefix, slug);
    assert(u.subrange(0, prefix.len() as int) =~= prefix);
    assert(u.subrange(prefix.len() as int, u.len() - 1) =~= slug);
    assert(u.last() == '/');
}

/// Cutting the first `n` bytes out of `uri` does not panic: that many bytes start
/// it and end on a character.
pub open spec fn bytes_cut_ok(uri: Seq<char>, n: int) -> bool {
    encode_utf8(uri).len() >= n && is_char_boundary(encode_utf8(uri), n)
}

/// What follows the first `n` bytes of `uri`, trailing `/` removed.
pub open spec fn after_bytes_trimmed(uri: Seq<char>, n: int) -> Seq<char> {
    spec_trim_end_char(decode_utf8(encode_utf8(uri).subrange(n, encode_utf8(uri).len() as int)), '/')
}

/// What follows the first `n` bytes of `uri`, trailing `/` removed.
pub fn cut_after_bytes(uri: &str, n: usize) -> (r: &str)
    requires
        bytes_cut_ok(uri@, n as int),
    ensures
        r@ == after_bytes_trimmed(uri@, n as int),
{
    broadcast use vstd::utf8::encode_utf8_decode_utf8;

    let (_, rest) = uri.split_at(n);
    proof {
        assert(rest.spec_bytes() =~= encode_utf8(uri@).subrange(n as int, encode_utf8(uri@).len() as int));
        encode_utf8_decode_utf8(rest@);
    }
    trim_end_matches(rest, '/')
}

/// The encoding of two texts one after the other is their encodings one after the
/// other.
pub proof fn lemma_encode_utf8_concat(a: Seq<char>, b: Seq<char>)
    ensures
        encode_utf8(a + b) == encode_utf8(a) + encode_utf8(b),
    decreases a.len(),
{
    if a.len() == 0 {
        assert(a + b =~= b);
        assert(encode_utf8(a) + encode_utf8(b) =~= encode_utf8(b));
    } else {
        lemma_encode_utf8_concat(a.drop_first(), b);
        assert((a + b).drop_first() =~= a.drop_first() + b);
        assert((a + b)[0] == a[0]);
        assert(encode_utf8(a) + encode_utf8(b) =~= encode_scalar(a[0] as u32) + (encode_utf8(
            a.drop_first(),
        ) + encode_utf8(b)));
    }
}

/// The end of the encoding of `a` in that of `a + b` is a character boundary.
pub proof fn lemma_concat_boundary(a: Seq<char>, b: Seq<char>)
    ensures
        is_char_boundary(encode_utf8(a + b), encode_utf8(a).len() as int),
    decreases a.len(),
{
    broadcast use vstd::utf8::encode_utf8_valid_utf8;

    if a.len() > 0 {
        lemma_concat_boundary(a.drop_first(), b);
        lemma_encode_utf8_concat(a.drop_first(), b);
        encode_utf8_first_scalar(a + b);
        encode_utf8_first_scalar(a);
        assert((a + b).drop_first() =~= a.drop_first() + b);
        assert((a + b)[0] == a[0]);
        let bytes = encode_utf8(a + b);
        assert(pop_first_scalar(bytes) =~= encode_utf8(a.drop_first() + b));
    }
}

/// Cutting the bytes of an ASCII prefix out of `{prefix}{slug}/`, and trimming its
/// trailing `/`, gives the slug back when the slug does not end with `/`.
pub proof fn lemma_slug_uri_bytes(prefix: Seq<char>, slug: Seq<char>)
    requires
        is_ascii_chars(prefix),
        slug.len() == 0 || slug.last() != '/',
    ensures
        bytes_cut_ok(slug_uri(prefix, slug), prefix.len() as int),
        after_bytes_trimmed(slug_uri(prefix, slug), prefix.len() as int) == slug,
{
    broadcast use vstd::utf8::encode_utf8_valid_utf8, vstd::utf8::encode_utf8_decode_utf8;

    let rest = slug + seq!['/'];
    let uri = slug_uri(prefix, slug);
    assert(uri =~= prefix + rest);
    lemma_encode_utf8_concat(prefix, rest);
    lemma_concat_boundary(prefix, rest);
    is_ascii_chars_encode_utf8(prefix);
    let bytes = encode_utf8(uri);
    let n = prefix.len() as int;
    assert(bytes.subrange(n, bytes.len() as int) =~= encode_utf8(rest));
    assert(decode_utf8(encode_utf8(rest)) == rest);
    assert(rest.last() == '/');
    assert(rest.drop_last() =~= slug);
    assert(is_char('/')(rest.last()));
    assert(slug.len() > 0 ==> !is_char('/')(slug.last()));
    assert(drop_last_while(slug, is_char('/')) == slug);
    assert(drop_last_while(rest, is_char('/')) == drop_last_while(slug, is_char('/')));
}

} // verus!
