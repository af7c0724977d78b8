use vstd::prelude::*;

use crate::quick_fixes::{byte_range, offset_of};
use crate::report::TextRange;
use crate::text::{begins_with, chars_of, matches_at};
use crate::words::byte_len;

verus! {

/// Where a text first occurs at or behind `from`.
pub open spec fn first_text(s: Seq<char>, needle: Seq<char>, from: int) -> Option<int>
    decreases s.len() + 1 - from,
{
    if from < 0 || from > s.len() {
        None
    } else if begins_with(s.skip(from), needle) {
        Some(from)
    } else {
        first_text(s, needle, from + 1)
    }
}

/// Where a text occurs for the `n`th time at or behind `from`, counted from 1. Occurrences do not
/// overlap.
pub open spec fn nth_text(s: Seq<char>, needle: Seq<char>, from: int, n: nat) -> Option<int>
    decreases n,
{
    match first_text(s, needle, from) {
        None => None,
        Some(i) => if n <= 1 {
            Some(i)
        } else {
            nth_text(s, needle, i + needle.len(), (n - 1) as nat)
        },
    }
}

/// Where the line that holds position `from` ends, with its line feed.
pub open spec fn feed_behind(s: Seq<char>, from: int) -> int
    decreases s.len() - from,
{
    if from < 0 || from >= s.len() {
        s.len() as int
    } else if s[from] == '\n' {
        from + 1
    } else {
        feed_behind(s, from + 1)
    }
}

/// Where the line that holds position `at` begins; on the first line, `start`.
pub open spec fn feed_before(s: Seq<char>, at: int, start: int) -> int
    decreases at,
{
    if at <= 0 || at > s.len() {
        start
    } else if s[at - 1] == '\n' {
        at
    } else {
        feed_before(s, at - 1, start)
    }
}

fn find_first(chars: &Vec<char>, needle: &Vec<char>, from: usize) -> (r: Option<usize>)
    requires
        from <= chars@.len(),
    ensures
        match r {
            Some(i) => first_text(chars@, needle@, from as int) == Some(i as int) && from <= i
                && i + needle@.len() <= chars@.len(),
            None => first_text(chars@, needle@, from as int) is None,
        },
{
    let n: usize = chars.len();
    let mut i: usize = from;
    loop
        invariant
            from <= i <= n,
            n == chars@.len(),
            first_text(chars@, needle@, from as int) == first_text(chars@, needle@, i as int),
        decreases n - i,
    {
        if matches_at(chars, i, needle) {
            return Some(i);
        }
        if i == n {
            assert(first_text(chars@, needle@, n + 1) is None);
            return None;
        }
        i = i + 1;
    }
}

fn find_feed_behind(chars: &Vec<char>, from: usize) -> (r: usize)
    requires
        from <= chars@.len(),
    ensures
        r == feed_behind(chars@, from as int),
        r <= chars@.len(),
{
    let n: usize = chars.len();
    let mut i: usize = from;
    while i < n
        invariant
            i <= n,
            n == chars@.len(),
            feed_behind(chars@, from as int) == feed_behind(chars@, i as int),
        decreases n - i,
    {
        if chars[i] == '\n' {
            return i + 1;
        }
        i = i + 1;
    }
    n
}

fn find_feed_before(chars: &Vec<char>, at: usize) -> (r: usize)
    requires
        at <= chars@.len(),
    ensures
        r == feed_before(chars@, at as int, at as int),
        r <= at,
{
    let mut i: usize = at;
    while i > 0
        invariant
            i <= at <= chars@.len(),
            feed_before(chars@, at as int, at as int) == feed_before(chars@, i as int, at as int),
        decreases i,
    {
        if chars[i - 1] == '\n' {
            return i;
        }
        i = i - 1;
    }
    at
}

/// The lines between two marks: from behind the line of the first to the line of the second.
pub open spec fn marked(s: Seq<char>, start: Seq<char>, end: Seq<char>) -> (int, int) {
    let i = first_text(s, start, 0)->0;
    let j = first_text(s, end, 0)->0;
    (feed_behind(s, i), feed_before(s, j, j))
}

/// Finds the lines between two marks.
pub fn find_marked_range_with(source: &str, start_marker: &str, end_marker: &str) -> (r: TextRange)
    requires
        first_text(source@, start_marker@, 0) is Some,
        first_text(source@, end_marker@, 0) is Some,
        marked(source@, start_marker@, end_marker@).0 <= marked(
            source@,
            start_marker@,
            end_marker@,
        ).1,
        4 * source@.len() <= u64::MAX,
        byte_len(source@) <= u32::MAX,
    ensures
        byte_range(
            source@,
            marked(source@, start_marker@, end_marker@).0,
            marked(source@, start_marker@, end_marker@).1,
            r,
        ),
{
    let chars = chars_of(source);
    let first = chars_of(start_marker);
    let second = chars_of(end_marker);
    let a: usize = match find_first(&chars, &first, 0) {
        Some(i) => find_feed_behind(&chars, i),
        None => 0,
    };
    let b: usize = match find_first(&chars, &second, 0) {
        Some(j) => find_feed_before(&chars, j),
        None => 0,
    };
    TextRange { start: offset_of(&chars, a), end: offset_of(&chars, b) }
}

/// Finds the lines between `# EXTRACT-START` and `# EXTRACT-END`.
pub fn find_marked_range(source: &str) -> (r: TextRange)
    requires
        first_text(source@, "# EXTRACT-START"@, 0) is Some,
        first_text(source@, "# EXTRACT-END"@, 0) is Some,
        marked(source@, "# EXTRACT-START"@, "# EXTRACT-END"@).0 <= marked(
            source@,
            "# EXTRACT-START"@,
            "# EXTRACT-END"@,
        ).1,
        4 * source@.len() <= u64::MAX,
        byte_len(source@) <= u32::MAX,
    ensures
        byte_range(
            source@,
            marked(source@, "# EXTRACT-START"@, "# EXTRACT-END"@).0,
            marked(source@, "# EXTRACT-START"@, "# EXTRACT-END"@).1,
            r,
        ),
{
    find_marked_range_with(source, "# EXTRACT-START", "# EXTRACT-END")
}

/// Finds an occurrence of a text, counted from 1.
pub fn find_nth_range(source: &str, needle: &str, occurrence: usize) -> (r: TextRange)
    requires
        occurrence > 0,
        nth_text(source@, needle@, 0, occurrence as nat) is Some,
        4 * source@.len() <= u64::MAX,
        byte_len(source@) <= u32::MAX,
    ensures
        ({
            let i = nth_text(source@, needle@, 0, occurrence as nat)->0;
            byte_range(source@, i, i + needle@.len(), r)
        }),
{
    let chars = chars_of(source);
    let wanted = chars_of(needle);
    let m: usize = wanted.len();
    let mut start: usize = 0;
    let mut left: usize = occurrence;
    loop
        invariant
            start <= chars@.len(),
            chars@ == source@,
            wanted@ == needle@,
            m == wanted@.len(),
            left > 0,
            4 * source@.len() <= u64::MAX,
            byte_len(source@) <= u32::MAX,
            nth_text(source@, needle@, 0, occurrence as nat) is Some,
            nth_text(source@, needle@, 0, occurrence as nat) == nth_text(
                source@,
                needle@,
                start as int,
                left as nat,
            ),
        decreases left,
    {
        let n: usize = chars.len();
        let found = find_first(&chars, &wanted, start);
        assert(found is Some);
        let i: usize = match found {
            Some(i) => i,
            None => 0,
        };
        assert(i + m <= n);
        if left == 1 {
            return TextRange { start: offset_of(&chars, i), end: offset_of(&chars, i + m) };
        }
        start = i + m;
        left = left - 1;
    }
}

} // verus!
