//! Text primitives shared by the safety rules, the feature extractor and the
//! command parser.
//!
//! Text is modelled as a sequence of characters (`Seq<char>`). Searching,
//! prefix tests, counting and word splitting are verified here; the Unicode
//! tables behind case mapping and character classes are taken from the
//! standard library through the trusted items at the top of this file.

use vstd::prelude::*;
use vstd::std_specs::iter::IteratorSpec;
use vstd::string::{StringExecFns, StringSliceAdditionalSpecFns};

verus! {

/// The lowercase form of a text, as `str::to_lowercase` computes it.
pub uninterp spec fn lowercase(s: Seq<char>) -> Seq<char>;

/// Whether a character has the Unicode `White_Space` property, as
/// `char::is_whitespace` reports it.
pub uninterp spec fn whitespace(c: char) -> bool;

/// Whether a character has the Unicode `Uppercase` property, as
/// `char::is_uppercase` reports it.
pub uninterp spec fn uppercase(c: char) -> bool;

/// Trusted: calls `str::to_lowercase`. The result is named `lowercase` of the
/// input; nothing else is claimed about it.
#[verifier::external_body]
pub(crate) fn to_lowercase(s: &str) -> (r: String)
    ensures
        r@ == lowercase(s@),
{
    s.to_lowercase()
}

/// Trusted: calls `char::is_whitespace`. The result is named `whitespace` of
/// the character.
#[verifier::external_body]
pub(crate) fn is_whitespace(c: char) -> (b: bool)
    ensures
        b == whitespace(c),
{
    c.is_whitespace()
}

/// Trusted: calls `char::is_uppercase`. The result is named `uppercase` of
/// the character.
#[verifier::external_body]
pub(crate) fn is_uppercase(c: char) -> (b: bool)
    ensures
        b == uppercase(c),
{
    c.is_uppercase()
}

/// Trusted: builds a `String` from characters with `String::from_iter`. The
/// new string holds exactly the given characters, in order.
#[verifier::external_body]
pub(crate) fn string_of(chars: &Vec<char>) -> (s: String)
    ensures
        s@ == chars@,
{
    String::from_iter(chars.iter())
}

/// Number of bytes that the UTF-8 encoding of `s` occupies.
pub open spec fn byte_len(s: Seq<char>) -> nat {
    vstd::utf8::encode_utf8(s).len()
}

/// `needle` occurs in `hay` starting at position `i`.
pub open spec fn occurs_at(hay: Seq<char>, needle: Seq<char>, i: int) -> bool {
    &&& 0 <= i
    &&& i + needle.len() <= hay.len()
    &&& hay.subrange(i, i + needle.len()) == needle
}

/// `needle` occurs somewhere in `hay`. The empty text occurs in every text.
pub open spec fn is_substring(hay: Seq<char>, needle: Seq<char>) -> bool {
    exists|i: int| occurs_at(hay, needle, i)
}

/// `needle` occurs in `hay` after being lowercased, i.e. the
/// case-insensitive containment test used by every keyword rule.
pub open spec fn mentions(text: Seq<char>, keyword: Seq<char>) -> bool {
    is_substring(lowercase(text), keyword)
}

/// The ASCII punctuation characters: `! " # $ % & ' ( ) * + , - . /`,
/// `: ; < = > ? @`, `[ \ ] ^ _ `` ` and `{ | } ~`.
pub open spec fn ascii_punctuation(c: char) -> bool {
    let n = c as u32;
    (33 <= n <= 47) || (58 <= n <= 64) || (91 <= n <= 96) || (123 <= n <= 126)
}

/// Number of uppercase characters in `s`.
pub open spec fn uppercase_count(s: Seq<char>) -> nat
    decreases s.len(),
{
    if s.len() == 0 {
        0
    } else {
        uppercase_count(s.drop_last()) + if uppercase(s.last()) {
            1nat
        } else {
            0nat
        }
    }
}

/// Number of ASCII punctuation characters in `s`.
pub open spec fn punctuation_count(s: Seq<char>) -> nat
    decreases s.len(),
{
    if s.len() == 0 {
        0
    } else {
        punctuation_count(s.drop_last()) + if ascii_punctuation(s.last()) {
            1nat
        } else {
            0nat
        }
    }
}

/// The word that is being read, as a list of zero or one finished words.
pub open spec fn flush(cur: Seq<char>) -> Seq<Seq<char>> {
    if cur.len() > 0 {
        seq![cur]
    } else {
        Seq::empty()
    }
}

/// Words of `s` from position `i` on, where `cur` holds the characters of the
/// word that position `i` continues.
pub open spec fn words_from(s: Seq<char>, i: int, cur: Seq<char>) -> Seq<Seq<char>>
    decreases s.len() - i,
{
    if i < 0 || i >= s.len() {
        flush(cur)
    } else if whitespace(s[i]) {
        flush(cur) + words_from(s, i + 1, Seq::empty())
    } else {
        words_from(s, i + 1, cur.push(s[i]))
    }
}

/// The whitespace-separated words of `s`, in order: the maximal runs of
/// characters without whitespace.
pub open spec fn words(s: Seq<char>) -> Seq<Seq<char>> {
    words_from(s, 0, Seq::empty())
}

/// The views of a vector of character vectors.
pub open spec fn views(v: Seq<Vec<char>>) -> Seq<Seq<char>> {
    v.map_values(|w: Vec<char>| w@)
}

/// Collects the characters of a string slice into a vector.
pub fn chars_of(s: &str) -> (v: Vec<char>)
    ensures
        v@ == s@,
{
    let mut v: Vec<char> = Vec::new();
    for c in it: s.chars()
        invariant
            it.seq() == s@,
            v@ == it.seq().take(it.index() as int),
    {
        v.push(c);
    }
    v
}

/// The length of `s` in bytes.
pub fn byte_length(s: &str) -> (n: usize)
    ensures
        n == byte_len(s@),
{
    s.as_bytes().len()
}

/// The characters of the lowercase form of `s`.
pub fn lowercase_chars(s: &str) -> (v: Vec<char>)
    ensures
        v@ == lowercase(s@),
{
    let lowered = to_lowercase(s);
    chars_of(lowered.as_str())
}

/// The code point of a character.
pub fn code_point(c: char) -> (n: u32)
    ensures
        n as nat == c as nat,
        n <= 0x10FFFF,
{
    c as u32
}

/// Tests whether `c` is an ASCII punctuation character.
pub fn is_ascii_punctuation(c: char) -> (b: bool)
    ensures
        b == ascii_punctuation(c),
{
    let n: u32 = c as u32;
    (33 <= n && n <= 47) || (58 <= n && n <= 64) || (91 <= n && n <= 96) || (123 <= n && n <= 126)
}

/// Tests whether `needle` occurs in `hay` at position `i`.
fn matches_at(hay: &Vec<char>, needle: &Vec<char>, i: usize) -> (b: bool)
    requires
        i + needle.len() <= hay.len(),
    ensures
        b == occurs_at(hay@, needle@, i as int),
{
    let mut k: usize = 0;
    while k < needle.len()
        invariant
            k <= needle.len(),
            i + needle.len() <= hay.len(),
            forall|j: int| 0 <= j < k ==> hay@[i + j] == needle@[j],
        decreases needle.len() - k,
    {
        if hay[i + k] != needle[k] {
            proof {
                let window = hay@.subrange(i as int, i + needle.len());
                assert(window[k as int] == hay@[i + k]);
            }
            return false;
        }
        k += 1;
    }
    proof {
        let window = hay@.subrange(i as int, i + needle.len());
        assert(window =~= needle@);
    }
    true
}

/// Tests whether `needle` occurs anywhere in `hay`.
pub fn contains(hay: &Vec<char>, needle: &Vec<char>) -> (b: bool)
    ensures
        b == is_substring(hay@, needle@),
{
    if needle.len() > hay.len() {
        return false;
    }
    if needle.len() == 0 {
        proof {
            assert(hay@.subrange(0, 0) =~= needle@);
            assert(occurs_at(hay@, needle@, 0));
        }
        return true;
    }
    let last: usize = hay.len() - needle.len();
    let mut i: usize = 0;
    while i <= last
        invariant
            last == hay.len() - needle.len(),
            0 < needle.len() <= hay.len(),
            i <= last + 1,
            forall|j: int| 0 <= j < i ==> !occurs_at(hay@, needle@, j),
        decreases last + 1 - i,
    {
        if matches_at(hay, needle, i) {
            return true;
        }
        i += 1;
    }
    false
}

/// Tests whether `hay` begins with `prefix`.
pub fn starts_with(hay: &Vec<char>, prefix: &Vec<char>) -> (b: bool)
    ensures
        b == occurs_at(hay@, prefix@, 0),
{
    if prefix.len() > hay.len() {
        return false;
    }
    matches_at(hay, prefix, 0)
}

/// Tests whether the character `c` occurs in `hay`.
pub fn contains_char(hay: &Vec<char>, c: char) -> (b: bool)
    ensures
        b == hay@.contains(c),
{
    let mut i: usize = 0;
    while i < hay.len()
        invariant
            i <= hay.len(),
            forall|j: int| 0 <= j < i ==> hay@[j] != c,
        decreases hay.len() - i,
    {
        if hay[i] == c {
            return true;
        }
        i += 1;
    }
    false
}

/// Tests whether the lowercase form of `text` contains `keyword`.
pub fn lowercase_contains(text: &str, keyword: &str) -> (b: bool)
    ensures
        b == mentions(text@, keyword@),
{
    let lowered = lowercase_chars(text);
    let needle = chars_of(keyword);
    contains(&lowered, &needle)
}

/// Counts the uppercase characters of `s`.
pub fn count_uppercase(s: &Vec<char>) -> (n: usize)
    ensures
        n == uppercase_count(s@),
        n <= s.len(),
{
    let mut n: usize = 0;
    let mut i: usize = 0;
    while i < s.len()
        invariant
            i <= s.len(),
            n <= i,
            n == uppercase_count(s@.take(i as int)),
        decreases s.len() - i,
    {
        proof {
            assert(s@.take(i + 1).drop_last() =~= s@.take(i as int));
        }
        if is_uppercase(s[i]) {
            n += 1;
        }
        i += 1;
    }
    proof {
        assert(s@.take(s.len() as int) =~= s@);
    }
    n
}

/// Counts the ASCII punctuation characters of `s`.
pub fn count_punctuation(s: &Vec<char>) -> (n: usize)
    ensures
        n == punctuation_count(s@),
        n <= s.len(),
{
    let mut n: usize = 0;
    let mut i: usize = 0;
    while i < s.len()
        invariant
            i <= s.len(),
            n <= i,
            n == punctuation_count(s@.take(i as int)),
        decreases s.len() - i,
    {
        proof {
            assert(s@.take(i + 1).drop_last() =~= s@.take(i as int));
        }
        if is_ascii_punctuation(s[i]) {
            n += 1;
        }
        i += 1;
    }
    proof {
        assert(s@.take(s.len() as int) =~= s@);
    }
    n
}

/// Splits `s` into its whitespace-separated words.
pub fn split_words(s: &Vec<char>) -> (out: Vec<Vec<char>>)
    ensures
        views(out@) == words(s@),
{
    let mut out: Vec<Vec<char>> = Vec::new();
    let mut cur: Vec<char> = Vec::new();
    let mut i: usize = 0;
    proof {
        assert(views(out@) + words_from(s@, 0, cur@) =~= words(s@));
    }
    while i < s.len()
        invariant
            i <= s.len(),
            words(s@) == views(out@) + words_from(s@, i as int, cur@),
        decreases s.len() - i,
    {
        let c = s[i];
        let ghost before = views(out@);
        let ghost cur0 = cur@;
        if is_whitespace(c) {
            if cur.len() > 0 {
                out.push(cur);
                cur = Vec::new();
            }
            proof {
                assert(cur@ =~= Seq::<char>::empty());
                assert(views(out@) =~= before + flush(cur0));
                assert(views(out@) + words_from(s@, i + 1, cur@) =~= before + (flush(cur0)
                    + words_from(s@, i + 1, Seq::empty())));
            }
        } else {
            cur.push(c);
        }
        i += 1;
    }
    let ghost before = views(out@);
    let ghost cur0 = cur@;
    if cur.len() > 0 {
        out.push(cur);
    }
    proof {
        assert(views(out@) =~= before + flush(cur0));
    }
    out
}

/// The largest character boundary of `bytes` that is at most `max`.
pub open spec fn cut_point(bytes: Seq<u8>, max: int) -> int
    decreases max,
{
    if max <= 0 {
        0
    } else if vstd::utf8::is_char_boundary(bytes, max) {
        max
    } else {
        cut_point(bytes, max - 1)
    }
}

/// A text cut down to at most `max` bytes: a text that fits is kept; a longer
/// one is cut at the largest character boundary within `max` bytes and
/// `...` is appended.
pub open spec fn truncated(s: Seq<char>, max: nat) -> Seq<char> {
    let bytes = vstd::utf8::encode_utf8(s);
    if bytes.len() <= max {
        s
    } else {
        vstd::utf8::decode_utf8(bytes.subrange(0, cut_point(bytes, max as int))) + "..."@
    }
}

/// Truncates a string to at most `max` bytes, with an ellipsis.
pub fn truncate(s: &str, max: usize) -> (r: String)
    ensures
        r@ == truncated(s@, max as nat),
{
    broadcast use vstd::utf8::group_utf8_lib;

    if byte_length(s) <= max {
        return s.to_owned();
    }
    let ghost bytes = vstd::utf8::encode_utf8(s@);
    let mut k: usize = max;
    while k > 0 && !s.is_char_boundary(k)
        invariant
            bytes == vstd::utf8::encode_utf8(s@),
            k <= max < bytes.len(),
            cut_point(bytes, max as int) == cut_point(bytes, k as int),
        decreases k,
    {
        k -= 1;
    }
    proof {
        assert(vstd::utf8::valid_utf8(bytes));
        assert(vstd::utf8::is_char_boundary(bytes, k as int));
        assert(cut_point(bytes, k as int) == k);
    }
    let (prefix, _rest) = s.split_at(k);
    proof {
        assert(vstd::utf8::encode_utf8(prefix@) == bytes.subrange(0, k as int));
        assert(vstd::utf8::decode_utf8(vstd::utf8::encode_utf8(prefix@)) == prefix@);
    }
    let mut r = String::from_str(prefix);
    r.append("...");
    r
}

/// Tests whether two character vectors hold the same text.
pub fn chars_eq(x: &Vec<char>, y: &Vec<char>) -> (r: bool)
    ensures
        r == (x@ == y@),
{
    if x.len() != y.len() {
        return false;
    }
    let mut i: usize = 0;
    while i < x.len()
        invariant
            x@.len() == y@.len(),
            i <= x@.len(),
            forall|j: int| 0 <= j < i ==> x@[j] == y@[j],
        decreases x.len() - i,
    {
        if x[i] != y[i] {
            proof {
                assert(x@[i as int] != y@[i as int]);
            }
            return false;
        }
        i += 1;
    }
    proof {
        assert(x@ =~= y@);
    }
    true
}

/// Tests whether two string slices hold the same text.
pub fn str_eq(a: &str, b: &str) -> (r: bool)
    ensures
        r == (a@ == b@),
{
    chars_eq(&chars_of(a), &chars_of(b))
}

/// Position of the first character at or after `i` that is no whitespace,
/// or the length of `s` if there is none.
pub open spec fn skip_whitespace(s: Seq<char>, i: int) -> int
    decreases s.len() - i,
{
    if 0 <= i < s.len() && whitespace(s[i]) {
        skip_whitespace(s, i + 1)
    } else {
        i
    }
}

/// Position just after the last character before `j` that is no
/// whitespace, or 0 if there is none.
pub open spec fn drop_whitespace(s: Seq<char>, j: int) -> int
    decreases j,
{
    if 0 < j <= s.len() && whitespace(s[j - 1]) {
        drop_whitespace(s, j - 1)
    } else {
        j
    }
}

/// A text without its leading and trailing whitespace.
pub open spec fn trimmed(s: Seq<char>) -> Seq<char> {
    let start = skip_whitespace(s, 0);
    if start >= s.len() {
        Seq::empty()
    } else {
        s.subrange(start, drop_whitespace(s, s.len() as int))
    }
}

/// Removes leading and trailing whitespace.
pub fn trim(s: &Vec<char>) -> (t: Vec<char>)
    ensures
        t@ == trimmed(s@),
{
    let mut start: usize = 0;
    while start < s.len() && is_whitespace(s[start])
        invariant
            start <= s@.len(),
            skip_whitespace(s@, 0) == skip_whitespace(s@, start as int),
        decreases s.len() - start,
    {
        start += 1;
    }
    let mut t: Vec<char> = Vec::new();
    if start >= s.len() {
        return t;
    }
    let mut end: usize = s.len();
    while end > start + 1 && is_whitespace(s[end - 1])
        invariant
            start < end <= s@.len(),
            !whitespace(s@[start as int]),
            drop_whitespace(s@, s@.len() as int) == drop_whitespace(s@, end as int),
        decreases end,
    {
        end -= 1;
    }
    proof {
        if end == start + 1 {
            assert(!whitespace(s@[end - 1]));
        }
        assert(drop_whitespace(s@, end as int) == end);
    }
    let mut i: usize = start;
    while i < end
        invariant
            start <= i <= end <= s@.len(),
            t@ == s@.subrange(start as int, i as int),
        decreases end - i,
    {
        t.push(s[i]);
        proof {
            assert(s@.subrange(start as int, i + 1) =~= s@.subrange(start as int, i as int).push(
                s@[i as int],
            ));
        }
        i += 1;
    }
    t
}

} // verus!
