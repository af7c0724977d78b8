use vstd::prelude::*;

use crate::text::{begins_with, chars_of, first_index, matches_at};

verus! {

/// Whether a character is white space.
pub open spec fn is_space(c: char) -> bool {
    let n = c as int;
    ||| 9 <= n <= 13
    ||| n == 32
    ||| n == 133
    ||| n == 160
    ||| n == 5760
    ||| 8192 <= n <= 8202
    ||| n == 8232
    ||| n == 8233
    ||| n == 8239
    ||| n == 8287
    ||| n == 12288
}

pub(crate) fn check_space(c: char) -> (r: bool)
    ensures
        r == is_space(c),
{
    let n: u32 = c as u32;
    (9 <= n && n <= 13) || n == 32 || n == 133 || n == 160 || n == 5760 || (8192 <= n && n <= 8202)
        || n == 8232 || n == 8233 || n == 8239 || n == 8287 || n == 12288
}

/// The first position at or behind `from` that holds no white space.
pub open spec fn skip_space(s: Seq<char>, from: int) -> int
    decreases s.len() - from,
{
    if 0 <= from < s.len() && is_space(s[from]) {
        skip_space(s, from + 1)
    } else {
        from
    }
}

/// The last position down from `to`, but not below `from`, behind which no white space stands.
pub open spec fn drop_space(s: Seq<char>, from: int, to: int) -> int
    decreases to - from,
{
    if from < to <= s.len() && is_space(s[to - 1]) {
        drop_space(s, from, to - 1)
    } else {
        to
    }
}

proof fn lemma_skip_space(s: Seq<char>, from: int)
    requires
        0 <= from <= s.len(),
    ensures
        from <= skip_space(s, from) <= s.len(),
    decreases s.len() - from,
{
    if from < s.len() && is_space(s[from]) {
        lemma_skip_space(s, from + 1);
    }
}

pub proof fn lemma_drop_space(s: Seq<char>, from: int, to: int)
    requires
        0 <= from <= to <= s.len(),
    ensures
        from <= drop_space(s, from, to) <= to,
    decreases to - from,
{
    if from < to && is_space(s[to - 1]) {
        lemma_drop_space(s, from, to - 1);
    }
}

/// Where a text without the white space around it begins and ends.
pub open spec fn trim_bounds(s: Seq<char>) -> (int, int) {
    let from = skip_space(s, 0);
    (from, drop_space(s, from, s.len() as int))
}

/// A text without the white space around it.
pub open spec fn trimmed(s: Seq<char>) -> Seq<char> {
    s.subrange(trim_bounds(s).0, trim_bounds(s).1)
}

/// Where the part `from..to` of a text without the white space around it begins and ends.
pub fn trim_range(chars: &Vec<char>, from: usize, to: usize) -> (r: (usize, usize))
    requires
        from <= to <= chars@.len(),
    ensures
        from <= r.0 <= r.1 <= to,
        chars@.subrange(r.0 as int, r.1 as int) == trimmed(
            chars@.subrange(from as int, to as int),
        ),
        (r.0 - from, r.1 - from) == trim_bounds(chars@.subrange(from as int, to as int)),
{
    let ghost s = chars@.subrange(from as int, to as int);
    let mut a: usize = from;
    while a < to && check_space(chars[a])
        invariant
            from <= a <= to <= chars@.len(),
            s == chars@.subrange(from as int, to as int),
            skip_space(s, 0) == skip_space(s, a - from),
        decreases to - a,
    {
        assert(s[a - from] == chars@[a as int]);
        a = a + 1;
    }
    proof {
        if a < to {
            assert(s[a - from] == chars@[a as int]);
        }
        lemma_skip_space(s, 0);
    }
    let mut b: usize = to;
    while b > a && check_space(chars[b - 1])
        invariant
            from <= a <= b <= to <= chars@.len(),
            s == chars@.subrange(from as int, to as int),
            drop_space(s, a - from, s.len() as int) == drop_space(s, a - from, b - from),
        decreases b - a,
    {
        assert(s[b - 1 - from] == chars@[b - 1]);
        b = b - 1;
    }
    proof {
        if b > a {
            assert(s[b - 1 - from] == chars@[b - 1]);
        }
        assert(trimmed(s) =~= chars@.subrange(a as int, b as int));
    }
    (a, b)
}

/// How many bytes a character takes in UTF-8.
pub open spec fn char_bytes(c: char) -> nat {
    let n = c as int;
    if n < 0x80 {
        1
    } else if n < 0x800 {
        2
    } else if n < 0x10000 {
        3
    } else {
        4
    }
}

pub(crate) fn get_char_bytes(c: char) -> (r: u64)
    ensures
        r == char_bytes(c),
{
    let n: u32 = c as u32;
    if n < 0x80 {
        1
    } else if n < 0x800 {
        2
    } else if n < 0x10000 {
        3
    } else {
        4
    }
}

/// How many bytes a text takes in UTF-8.
pub open spec fn byte_len(s: Seq<char>) -> nat
    decreases s.len(),
{
    if s.len() == 0 {
        0
    } else {
        byte_len(s.drop_last()) + char_bytes(s.last())
    }
}

pub proof fn lemma_byte_len_bound(s: Seq<char>)
    ensures
        byte_len(s) <= 4 * s.len(),
    decreases s.len(),
{
    if s.len() > 0 {
        lemma_byte_len_bound(s.drop_last());
    }
}

/// How many bytes the part `from..to` of a text takes in UTF-8.
pub fn count_bytes(chars: &Vec<char>, from: usize, to: usize) -> (r: u64)
    requires
        from <= to <= chars@.len(),
        4 * chars@.len() <= u64::MAX,
    ensures
        r == byte_len(chars@.subrange(from as int, to as int)),
{
    let mut n: u64 = 0;
    let mut i: usize = from;
    assert(chars@.subrange(from as int, from as int) =~= Seq::empty());
    while i < to
        invariant
            from <= i <= to <= chars@.len(),
            4 * chars@.len() <= u64::MAX,
            n == byte_len(chars@.subrange(from as int, i as int)),
        decreases to - i,
    {
        let ghost before = chars@.subrange(from as int, i as int);
        let ghost after = chars@.subrange(from as int, i + 1);
        proof {
            assert(after.drop_last() =~= before);
            lemma_byte_len_bound(after);
        }
        n = n + get_char_bytes(chars[i]);
        i = i + 1;
    }
    n
}

/// Whether the first `k` characters of a text take exactly `n` bytes.
pub open spec fn cuts_at(s: Seq<char>, n: nat, k: int) -> bool {
    0 <= k <= s.len() && byte_len(s.take(k)) == n
}

pub proof fn lemma_cut_unique(s: Seq<char>, a: int, b: int)
    requires
        0 <= a < b <= s.len(),
    ensures
        byte_len(s.take(a)) < byte_len(s.take(b)),
    decreases b - a,
{
    assert(s.take(b).drop_last() =~= s.take(b - 1));
    if a < b - 1 {
        lemma_cut_unique(s, a, b - 1);
    }
}

/// The beginning of a text that takes `n` bytes.
pub open spec fn byte_prefix(s: Seq<char>, n: nat) -> Seq<char> {
    s.take(choose|k: int| cuts_at(s, n, k))
}

/// How many characters the beginning of a text that takes `n` bytes has.
pub fn find_cut(chars: &Vec<char>, n: u64) -> (r: usize)
    requires
        4 * chars@.len() <= u64::MAX,
        exists|k: int| cuts_at(chars@, n as nat, k),
    ensures
        r <= chars@.len(),
        chars@.take(r as int) == byte_prefix(chars@, n as nat),
{
    let ghost k = choose|k: int| cuts_at(chars@, n as nat, k);
    let mut seen: u64 = 0;
    let mut i: usize = 0;
    assert(chars@.take(0) =~= Seq::empty());
    while i < chars.len() && seen < n
        invariant
            i <= k <= chars@.len(),
            4 * chars@.len() <= u64::MAX,
            byte_len(chars@.take(k)) == n,
            seen == byte_len(chars@.take(i as int)),
        decreases chars@.len() - i,
    {
        proof {
            assert(chars@.take(i + 1).drop_last() =~= chars@.take(i as int));
            lemma_byte_len_bound(chars@.take(i + 1));
            if i == k {
                assert(false);
            }
        }
        seen = seen + get_char_bytes(chars[i]);
        i = i + 1;
    }
    proof {
        if i < k {
            lemma_cut_unique(chars@, i as int, k);
        }
    }
    i
}

/// The parts of a text between separators.
pub open spec fn pieces(s: Seq<char>, sep: char) -> Seq<Seq<char>>
    decreases s.len(),
    via pieces_decreases
{
    match first_index(s, sep) {
        None => seq![s],
        Some(i) => seq![s.take(i)] + pieces(s.skip(i + 1), sep),
    }
}

#[via_fn]
proof fn pieces_decreases(s: Seq<char>, sep: char) {
    crate::words::lemma_first_index(s, sep);
}

pub proof fn lemma_first_index(s: Seq<char>, c: char)
    ensures
        first_index(s, c) matches Some(i) ==> 0 <= i < s.len() && s[i] == c && (forall|k: int|
            0 <= k < i ==> s[k] != c),
        first_index(s, c) is None ==> forall|k: int| 0 <= k < s.len() ==> s[k] != c,
    decreases s.len(),
{
    if s.len() > 0 {
        let rest = s.drop_first();
        lemma_first_index(rest, c);
        assert(forall|k: int| 0 < k < s.len() ==> #[trigger] s[k] == rest[k - 1]);
    }
}

/// Whether a character can be part of a name, as far as ASCII goes.
pub open spec fn is_word_char(c: char) -> bool {
    ('a' <= c && c <= 'z') || ('A' <= c && c <= 'Z') || ('0' <= c && c <= '9') || c == '_'
}

fn check_word_char(c: char) -> (r: bool)
    ensures
        r == is_word_char(c),
{
    ('a' <= c && c <= 'z') || ('A' <= c && c <= 'Z') || ('0' <= c && c <= '9') || c == '_'
}

/// Whether `word` stands at position `i` with no part of a name on either side.
pub open spec fn word_at(text: Seq<char>, word: Seq<char>, i: int) -> bool {
    &&& 0 <= i <= text.len()
    &&& begins_with(text.skip(i), word)
    &&& (i == 0 || !is_word_char(text[i - 1]))
    &&& (i + word.len() >= text.len() || !is_word_char(text[i + word.len()]))
}

/// Whether one of the occurrences of `word` from a position on is a whole word. Occurrences do not
/// overlap: behind one the next is looked for. The empty word occurs at each position.
pub open spec fn word_from(text: Seq<char>, word: Seq<char>, from: int) -> bool
    decreases text.len() + 1 - from,
{
    if from < 0 || from > text.len() {
        false
    } else if begins_with(text.skip(from), word) {
        word_at(text, word, from) || word_from(
            text,
            word,
            if word.len() == 0 {
                from + 1
            } else {
                from + word.len()
            },
        )
    } else {
        word_from(text, word, from + 1)
    }
}

/// Whether `word` occurs as a whole word.
pub open spec fn has_word(text: Seq<char>, word: Seq<char>) -> bool {
    word_from(text, word, 0)
}

/// Whether a text is a word by itself: it has characters, and all can be part of a name.
pub open spec fn is_plain_word(word: Seq<char>) -> bool {
    word.len() > 0 && forall|k: int| 0 <= k < word.len() ==> is_word_char(#[trigger] word[k])
}

proof fn lemma_word_is_found(text: Seq<char>, word: Seq<char>, from: int, i: int)
    requires
        is_plain_word(word),
        0 <= from <= i,
        word_at(text, word, i),
    ensures
        word_from(text, word, from),
    decreases i - from,
{
    if from < i {
        if begins_with(text.skip(from), word) {
            let n = word.len() as int;
            if i < from + n {
                assert(text.skip(from).take(n)[i - 1 - from] == text[i - 1]);
                assert(is_word_char(word[i - 1 - from]));
            } else {
                lemma_word_is_found(text, word, from + n, i);
            }
        } else {
            lemma_word_is_found(text, word, from + 1, i);
        }
    }
}

proof fn lemma_found_is_word(text: Seq<char>, word: Seq<char>, from: int)
    requires
        word_from(text, word, from),
    ensures
        exists|i: int| word_at(text, word, i),
    decreases text.len() + 1 - from,
{
    if begins_with(text.skip(from), word) {
        if !word_at(text, word, from) {
            lemma_found_is_word(
                text,
                word,
                if word.len() == 0 {
                    from + 1
                } else {
                    from + word.len()
                },
            );
        }
    } else {
        lemma_found_is_word(text, word, from + 1);
    }
}

/// A word that is made of the characters of names is found exactly where it stands somewhere with
/// no part of a name on either side.
pub proof fn law_plain_words_are_found(text: Seq<char>, word: Seq<char>)
    requires
        is_plain_word(word),
    ensures
        has_word(text, word) <==> exists|i: int| word_at(text, word, i),
{
    if has_word(text, word) {
        lemma_found_is_word(text, word, 0);
    }
    if exists|i: int| word_at(text, word, i) {
        let i = choose|i: int| word_at(text, word, i);
        lemma_word_is_found(text, word, 0, i);
    }
}

/// Whether `word` occurs as a whole word.
pub fn contains_whole_word(haystack: &str, word: &str) -> (r: bool)
    ensures
        r == has_word(haystack@, word@),
{
    let text = chars_of(haystack);
    let w = chars_of(word);
    let n: usize = text.len();
    let mut i: usize = 0;
    while i < n
        invariant
            i <= n == text@.len(),
            text@ == haystack@,
            w@ == word@,
            has_word(text@, w@) == word_from(text@, w@, i as int),
        decreases n - i,
    {
        if matches_at(&text, i, &w) {
            assert(i + w@.len() <= text@.len());
            let after: usize = i + w.len();
            if (i == 0 || !check_word_char(text[i - 1])) && (after >= n || !check_word_char(
                text[after],
            )) {
                assert(word_at(text@, w@, i as int));
                return true;
            }
            i = if after == i {
                i + 1
            } else {
                after
            };
        } else {
            i = i + 1;
        }
    }
    assert(!word_from(text@, w@, n + 1));
    if matches_at(&text, n, &w) {
        assert(w@.len() == 0);
        let found = n == 0 || !check_word_char(text[n - 1]);
        assert(found == word_at(text@, w@, n as int));
        found
    } else {
        false
    }
}

} // verus!
