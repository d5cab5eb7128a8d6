//! Feature extraction: maps a query to a fixed-length vector of exact
//! fractions.
//!
//! Every slot is a ratio of two counts taken from the query, so the vector is
//! stated and computed over integers. A numeric backend turns each fraction
//! into a floating-point value by one division.
//!
//! | slots     | meaning                                                     |
//! |-----------|-------------------------------------------------------------|
//! | 0         | byte length, capped at 1000, over 1000                      |
//! | 1         | word count, capped at 100, over 100                         |
//! | 2         | the text holds `?`                                          |
//! | 3         | priority over 10                                            |
//! | 4         | a project context is set                                    |
//! | 5 - 9     | the first five configured keywords occur (case-insensitive) |
//! | 10        | uppercase characters over byte length                       |
//! | 11        | ASCII punctuation characters over byte length               |
//! | 12 - 19   | the lowercase text starts with a question word              |
//! | 20 - 379  | hashed bag of words: words per bucket over word count       |
//! | 380       | time of day: seconds since midnight over 86400              |
//! | 381       | the priority is high                                        |
//! | 382       | the text is longer than 200 bytes                           |
//! | 383       | the text mentions `error` or `bug`                          |

use crate::text::{
    byte_len, byte_length, chars_of, code_point, contains, contains_char, count_punctuation, count_uppercase,
    is_substring, lowercase, lowercase_chars, occurs_at, punctuation_count, split_words,
    starts_with, uppercase_count, views, words,
};
use crate::types::{indicator_of, string_views, Fraction, Query, HIGH_PRIORITY_ABOVE};
use vstd::prelude::*;

verus! {

/// Length of every feature vector.
pub const FEATURE_COUNT: usize = 384;

/// Byte length at which slot 0 saturates.
pub const LENGTH_CAP: usize = 1000;

/// Word count at which slot 1 saturates.
pub const WORD_CAP: usize = 100;

/// Denominator of the priority slot.
pub const PRIORITY_SCALE: u64 = 10;

/// First slot of the keyword flags.
pub const KEYWORD_START: usize = 5;

/// Number of keyword flags.
pub const KEYWORD_SLOTS: usize = 5;

/// First slot of the question-word flags.
pub const LEADING_START: usize = 12;

/// Number of question-word flags.
pub const LEADING_SLOTS: usize = 8;

/// First slot of the hashed bag of words.
pub const BAG_START: usize = 20;

/// Number of buckets of the hashed bag of words, and the number of leading
/// words that are counted.
pub const BAG_SIZE: usize = 360;

/// Seconds in a day.
pub const SECONDS_PER_DAY: u64 = 86400;

/// Byte length above which a query counts as long.
pub const LONG_QUERY_ABOVE: usize = 200;

/// Largest value of a `char`.
pub const MAX_CHAR: u128 = 0x10FFFF;

/// The question words tested by slots 12 to 19, in slot order.
pub open spec fn leading_words() -> Seq<Seq<char>> {
    seq!["how"@, "what"@, "why"@, "when"@, "where"@, "who"@, "can"@, "should"@]
}

/// Sum of the code points of a word.
pub open spec fn char_sum(w: Seq<char>) -> nat
    decreases w.len(),
{
    if w.len() == 0 {
        0
    } else {
        char_sum(w.drop_last()) + (w.last() as nat)
    }
}

/// The bucket of a word: the sum of its code points modulo [`BAG_SIZE`].
pub open spec fn word_bucket(w: Seq<char>) -> int {
    (char_sum(w) % (BAG_SIZE as nat)) as int
}

/// Number of words of `ws` that fall into bucket `b`.
pub open spec fn bucket_count(ws: Seq<Seq<char>>, b: int) -> nat
    decreases ws.len(),
{
    if ws.len() == 0 {
        0
    } else {
        bucket_count(ws.drop_last(), b) + if word_bucket(ws.last()) == b {
            1nat
        } else {
            0nat
        }
    }
}

/// The words that the bag of words counts: the first [`BAG_SIZE`] words.
pub open spec fn counted_words(ws: Seq<Seq<char>>) -> Seq<Seq<char>> {
    if ws.len() <= BAG_SIZE {
        ws
    } else {
        ws.take(BAG_SIZE as int)
    }
}

/// The fraction `num / den` of two counts.
pub open spec fn ratio(num: nat, den: nat) -> Fraction {
    Fraction { num: num as u64, den: den as u64 }
}

/// The smaller of two counts.
pub open spec fn at_most(n: nat, cap: nat) -> nat {
    if n <= cap {
        n
    } else {
        cap
    }
}

/// The value of slot `i` of the feature vector of `q`, given the configured
/// keywords.
pub open spec fn feature_value(keywords: Seq<Seq<char>>, q: Query, i: int) -> Fraction {
    let text = q.text@;
    let low = lowercase(text);
    let ws = words(text);
    if i == 0 {
        ratio(at_most(byte_len(text), LENGTH_CAP as nat), LENGTH_CAP as nat)
    } else if i == 1 {
        ratio(at_most(ws.len(), WORD_CAP as nat), WORD_CAP as nat)
    } else if i == 2 {
        indicator_of(text.contains('?'))
    } else if i == 3 {
        ratio(q.priority as nat, PRIORITY_SCALE as nat)
    } else if i == 4 {
        indicator_of(q.project_context is Some)
    } else if KEYWORD_START <= i < KEYWORD_START + KEYWORD_SLOTS {
        indicator_of(keyword_present(keywords, low, i - KEYWORD_START))
    } else if i == 10 {
        if byte_len(text) == 0 {
            indicator_of(false)
        } else {
            ratio(uppercase_count(text), byte_len(text))
        }
    } else if i == 11 {
        if byte_len(text) == 0 {
            indicator_of(false)
        } else {
            ratio(punctuation_count(text), byte_len(text))
        }
    } else if LEADING_START <= i < LEADING_START + LEADING_SLOTS {
        indicator_of(occurs_at(low, leading_words()[i - LEADING_START], 0))
    } else if BAG_START <= i < BAG_START + BAG_SIZE {
        if ws.len() == 0 {
            indicator_of(false)
        } else {
            ratio(bucket_count(counted_words(ws), i - BAG_START), ws.len())
        }
    } else if i == 380 {
        ratio((q.timestamp % SECONDS_PER_DAY) as nat, SECONDS_PER_DAY as nat)
    } else if i == 381 {
        indicator_of(q.priority > HIGH_PRIORITY_ABOVE)
    } else if i == 382 {
        indicator_of(byte_len(text) > LONG_QUERY_ABOVE)
    } else {
        indicator_of(is_substring(text, "error"@) || is_substring(text, "bug"@))
    }
}

/// Keyword `k` is configured and its lowercase form occurs in the lowercase
/// text `low`.
pub open spec fn keyword_present(keywords: Seq<Seq<char>>, low: Seq<char>, k: int) -> bool {
    0 <= k < keywords.len() && is_substring(low, lowercase(keywords[k]))
}

/// `features` is the feature vector of `q` under the given keywords.
pub open spec fn is_feature_vector(
    features: Seq<Fraction>,
    keywords: Seq<Seq<char>>,
    q: Query,
) -> bool {
    &&& features.len() == FEATURE_COUNT
    &&& forall|i: int|
        0 <= i < FEATURE_COUNT ==> #[trigger] features[i] == feature_value(keywords, q, i)
}

/// A text never has more characters than bytes.
pub proof fn lemma_chars_fit_in_bytes(s: Seq<char>)
    ensures
        s.len() <= byte_len(s),
    decreases s.len(),
{
    if s.len() > 0 {
        lemma_chars_fit_in_bytes(s.drop_first());
    }
}

/// No more characters are uppercase than there are characters.
pub proof fn lemma_uppercase_count_bound(s: Seq<char>)
    ensures
        uppercase_count(s) <= s.len(),
    decreases s.len(),
{
    if s.len() > 0 {
        lemma_uppercase_count_bound(s.drop_last());
    }
}

/// No more characters are punctuation than there are characters.
pub proof fn lemma_punctuation_count_bound(s: Seq<char>)
    ensures
        punctuation_count(s) <= s.len(),
    decreases s.len(),
{
    if s.len() > 0 {
        lemma_punctuation_count_bound(s.drop_last());
    }
}

/// No bucket holds more words than there are words.
pub proof fn lemma_bucket_count_bound(ws: Seq<Seq<char>>, b: int)
    ensures
        bucket_count(ws, b) <= ws.len(),
    decreases ws.len(),
{
    if ws.len() > 0 {
        lemma_bucket_count_bound(ws.drop_last(), b);
    }
}

/// Every slot except the priority slot is a proportion in `[0, 1]`, and the
/// priority slot is one too when the priority is at most 10.
pub proof fn lemma_features_are_proportions(keywords: Seq<Seq<char>>, q: Query, i: int)
    requires
        0 <= i < FEATURE_COUNT,
        byte_len(q.text@) <= usize::MAX,
        i == 3 ==> q.priority <= PRIORITY_SCALE,
    ensures
        feature_value(keywords, q, i).is_proportion(),
{
    let text = q.text@;
    let ws = words(text);
    lemma_chars_fit_in_bytes(text);
    lemma_uppercase_count_bound(text);
    lemma_punctuation_count_bound(text);
    lemma_word_count_bound(text, 0, Seq::empty());
    if BAG_START <= i < BAG_START + BAG_SIZE {
        lemma_bucket_count_bound(counted_words(ws), i - BAG_START);
    }
}

/// Splitting never yields more words than the characters that are read or
/// held: the words from position `i` on, with `cur` pending, number at most
/// the characters left plus one for a non-empty `cur`.
pub proof fn lemma_word_count_bound(s: Seq<char>, i: int, cur: Seq<char>)
    requires
        0 <= i <= s.len(),
    ensures
        crate::text::words_from(s, i, cur).len() <= s.len() - i + if cur.len() > 0 {
            1int
        } else {
            0int
        },
    decreases s.len() - i,
{
    if i < s.len() {
        if crate::text::whitespace(s[i]) {
            lemma_word_count_bound(s, i + 1, Seq::empty());
        } else {
            lemma_word_count_bound(s, i + 1, cur.push(s[i]));
        }
    }
}

/// Computes the bucket of a word.
pub fn bucket_of(word: &Vec<char>) -> (b: usize)
    ensures
        b == word_bucket(word@),
        b < BAG_SIZE,
{
    let mut sum: u128 = 0;
    let mut i: usize = 0;
    while i < word.len()
        invariant
            i <= word.len(),
            sum == char_sum(word@.take(i as int)),
            sum <= i * MAX_CHAR,
        decreases word.len() - i,
    {
        let c: char = word[i];
        let code: u32 = code_point(c);
        proof {
            assert(word@.take(i + 1).drop_last() =~= word@.take(i as int));
            assert(word@.take(i + 1).last() == c);
            assert(code <= MAX_CHAR);
            assert((i + 1) * MAX_CHAR == i * MAX_CHAR + MAX_CHAR) by (nonlinear_arith);
            assert((i + 1) * MAX_CHAR <= usize::MAX * MAX_CHAR) by (nonlinear_arith)
                requires
                    i + 1 <= usize::MAX,
            ;
        }
        sum = sum + code as u128;
        i += 1;
    }
    proof {
        assert(word@.take(word.len() as int) =~= word@);
    }
    (sum % (BAG_SIZE as u128)) as usize
}

/// Counts, for every bucket, the words among the first [`BAG_SIZE`] words
/// that fall into it.
pub fn bucket_counts(ws: &Vec<Vec<char>>) -> (counts: Vec<usize>)
    ensures
        counts@.len() == BAG_SIZE,
        forall|b: int|
            0 <= b < BAG_SIZE ==> #[trigger] counts@[b] == bucket_count(
                counted_words(views(ws@)),
                b,
            ),
{
    let mut counts: Vec<usize> = Vec::new();
    let mut b: usize = 0;
    while b < BAG_SIZE
        invariant
            b <= BAG_SIZE,
            counts@.len() == b,
            forall|j: int| 0 <= j < b ==> #[trigger] counts@[j] == 0,
        decreases BAG_SIZE - b,
    {
        counts.push(0);
        b += 1;
    }
    let limit: usize = if ws.len() <= BAG_SIZE {
        ws.len()
    } else {
        BAG_SIZE
    };
    let ghost all = views(ws@);
    proof {
        assert(counted_words(all) =~= all.take(limit as int));
    }
    let mut k: usize = 0;
    while k < limit
        invariant
            k <= limit <= ws.len(),
            all == views(ws@),
            counts@.len() == BAG_SIZE,
            forall|j: int|
                0 <= j < BAG_SIZE ==> #[trigger] counts@[j] == bucket_count(all.take(k as int), j),
            forall|j: int| 0 <= j < BAG_SIZE ==> #[trigger] counts@[j] <= k,
        decreases limit - k,
    {
        let h = bucket_of(&ws[k]);
        proof {
            assert(all.take(k + 1).drop_last() =~= all.take(k as int));
            assert(all.take(k + 1).last() == ws@[k as int]@);
        }
        let bumped: usize = counts[h] + 1;
        counts.set(h, bumped);
        k += 1;
    }
    counts
}

/// Tests, for each of the first [`KEYWORD_SLOTS`] keywords, whether its
/// lowercase form occurs in the lowercase text `low`.
pub fn keyword_flags(low: &Vec<char>, keywords: &Vec<String>) -> (flags: Vec<bool>)
    ensures
        flags@.len() == KEYWORD_SLOTS,
        forall|k: int|
            0 <= k < KEYWORD_SLOTS ==> #[trigger] flags@[k] == keyword_present(
                string_views(keywords@),
                low@,
                k,
            ),
{
    let mut flags: Vec<bool> = Vec::new();
    let mut k: usize = 0;
    while k < KEYWORD_SLOTS
        invariant
            k <= KEYWORD_SLOTS,
            flags@.len() == k,
            forall|j: int|
                0 <= j < k ==> #[trigger] flags@[j] == keyword_present(
                    string_views(keywords@),
                    low@,
                    j,
                ),
        decreases KEYWORD_SLOTS - k,
    {
        let present = if k < keywords.len() {
            let needle = lowercase_chars(keywords[k].as_str());
            contains(low, &needle)
        } else {
            false
        };
        flags.push(present);
        k += 1;
    }
    flags
}

/// Tests, for each question word, whether the lowercase text `low` starts
/// with it.
pub fn leading_flags(low: &Vec<char>) -> (flags: Vec<bool>)
    ensures
        flags@.len() == LEADING_SLOTS,
        forall|k: int|
            0 <= k < LEADING_SLOTS ==> #[trigger] flags@[k] == occurs_at(
                low@,
                leading_words()[k],
                0,
            ),
{
    let mut flags: Vec<bool> = Vec::new();
    flags.push(starts_with(low, &chars_of("how")));
    flags.push(starts_with(low, &chars_of("what")));
    flags.push(starts_with(low, &chars_of("why")));
    flags.push(starts_with(low, &chars_of("when")));
    flags.push(starts_with(low, &chars_of("where")));
    flags.push(starts_with(low, &chars_of("who")));
    flags.push(starts_with(low, &chars_of("can")));
    flags.push(starts_with(low, &chars_of("should")));
    flags
}

/// Extracts the feature vector of a query.
///
/// The function is total: every query, including one with empty text, maps
/// to a vector of exactly [`FEATURE_COUNT`] well-formed fractions.
pub fn extract_features(keywords: &Vec<String>, query: &Query) -> (features: Vec<Fraction>)
    ensures
        is_feature_vector(features@, string_views(keywords@), *query),
        forall|i: int| 0 <= i < FEATURE_COUNT ==> (#[trigger] features@[i]).wf(),
        forall|i: int| 0 <= i < FEATURE_COUNT && i != 3 ==> (#[trigger] features@[i]).is_proportion(),
{
    let text = chars_of(query.text.as_str());
    let low = lowercase_chars(query.text.as_str());
    let ws = split_words(&text);
    let len: usize = byte_length(query.text.as_str());
    let n_words: usize = ws.len();
    let has_question = contains_char(&text, '?');
    let key_flags = keyword_flags(&low, keywords);
    let upper: usize = count_uppercase(&text);
    let punct: usize = count_punctuation(&text);
    let lead_flags = leading_flags(&low);
    let counts = bucket_counts(&ws);
    let debugging = contains(&text, &chars_of("error")) || contains(&text, &chars_of("bug"));
    let ghost kw = string_views(keywords@);

    let mut features: Vec<Fraction> = Vec::new();
    let mut i: usize = 0;
    while i < FEATURE_COUNT
        invariant
            i <= FEATURE_COUNT,
            features@.len() == i,
            text@ == query.text@,
            low@ == lowercase(query.text@),
            views(ws@) == words(query.text@),
            len == byte_len(query.text@),
            n_words == ws@.len(),
            has_question == text@.contains('?'),
            upper == uppercase_count(text@),
            punct == punctuation_count(text@),
            debugging == (is_substring(text@, "error"@) || is_substring(text@, "bug"@)),
            kw == string_views(keywords@),
            key_flags@.len() == KEYWORD_SLOTS,
            forall|k: int|
                0 <= k < KEYWORD_SLOTS ==> #[trigger] key_flags@[k] == keyword_present(
                    kw,
                    low@,
                    k,
                ),
            lead_flags@.len() == LEADING_SLOTS,
            forall|k: int|
                0 <= k < LEADING_SLOTS ==> #[trigger] lead_flags@[k] == occurs_at(
                    low@,
                    leading_words()[k],
                    0,
                ),
            counts@.len() == BAG_SIZE,
            forall|b: int|
                0 <= b < BAG_SIZE ==> #[trigger] counts@[b] == bucket_count(
                    counted_words(views(ws@)),
                    b,
                ),
            forall|j: int| 0 <= j < i ==> #[trigger] features@[j] == feature_value(kw, *query, j),
            forall|j: int| 0 <= j < i ==> (#[trigger] features@[j]).wf(),
            forall|j: int| 0 <= j < i && j != 3 ==> (#[trigger] features@[j]).is_proportion(),
        decreases FEATURE_COUNT - i,
    {
        proof {
            if i != 3 {
                lemma_features_are_proportions(kw, *query, i as int);
            }
        }
        let value = if i == 0 {
            let capped: usize = if len <= LENGTH_CAP {
                len
            } else {
                LENGTH_CAP
            };
            Fraction { num: capped as u64, den: LENGTH_CAP as u64 }
        } else if i == 1 {
            let capped: usize = if n_words <= WORD_CAP {
                n_words
            } else {
                WORD_CAP
            };
            Fraction { num: capped as u64, den: WORD_CAP as u64 }
        } else if i == 2 {
            Fraction::indicator(has_question)
        } else if i == 3 {
            Fraction { num: query.priority as u64, den: PRIORITY_SCALE }
        } else if i == 4 {
            Fraction::indicator(query.project_context.is_some())
        } else if i < KEYWORD_START + KEYWORD_SLOTS {
            Fraction::indicator(key_flags[i - KEYWORD_START])
        } else if i == 10 {
            if len == 0 {
                Fraction::indicator(false)
            } else {
                Fraction { num: upper as u64, den: len as u64 }
            }
        } else if i == 11 {
            if len == 0 {
                Fraction::indicator(false)
            } else {
                Fraction { num: punct as u64, den: len as u64 }
            }
        } else if i < LEADING_START + LEADING_SLOTS {
            Fraction::indicator(lead_flags[i - LEADING_START])
        } else if i < BAG_START + BAG_SIZE {
            if n_words == 0 {
                Fraction::indicator(false)
            } else {
                Fraction { num: counts[i - BAG_START] as u64, den: n_words as u64 }
            }
        } else if i == 380 {
            Fraction { num: query.timestamp % SECONDS_PER_DAY, den: SECONDS_PER_DAY }
        } else if i == 381 {
            Fraction::indicator(query.is_high_priority())
        } else if i == 382 {
            Fraction::indicator(len > LONG_QUERY_ABOVE)
        } else {
            Fraction::indicator(debugging)
        };
        features.push(value);
        i += 1;
    }
    features
}

} // verus!
