use vstd::prelude::*;

use crate::paths::{FilePath, PathView};
use crate::report::TextRange;
use crate::words::{byte_len, count_bytes, cuts_at, lemma_byte_len_bound, lemma_cut_unique};

verus! {

/// A module with its text.
pub struct ModuleInfo {
    /// The name that the module is imported by.
    pub name: String,
    /// Where the module is found.
    pub path: FilePath,
    pub contents: String,
    pub is_notebook: bool,
    /// Whether a tool wrote the module.
    pub is_generated: bool,
    /// For a notebook, the line of the text that each cell begins with, counted from 0.
    pub cells: Vec<u32>,
}

/// A module as plain text.
pub struct ModuleView {
    pub name: Seq<char>,
    pub path: PathView,
    pub contents: Seq<char>,
    pub is_notebook: bool,
    pub is_generated: bool,
    pub cells: Seq<u32>,
}

impl View for ModuleInfo {
    type V = ModuleView;

    open spec fn view(&self) -> ModuleView {
        ModuleView {
            name: self.name@,
            path: self.path@,
            contents: self.contents@,
            is_notebook: self.is_notebook,
            is_generated: self.is_generated,
            cells: self.cells@,
        }
    }
}

impl ModuleInfo {
    /// The same module once more.
    pub fn dupe(&self) -> (r: ModuleInfo)
        ensures
            r@ == self@,
    {
        let cells = self.cells.clone();
        assert(cells@ =~= self.cells@);
        ModuleInfo {
            name: self.name.clone(),
            path: self.path.dupe(),
            contents: self.contents.clone(),
            is_notebook: self.is_notebook,
            is_generated: self.is_generated,
            cells,
        }
    }
}

/// Whether a character begins or the text ends after `n` bytes.
pub open spec fn at_boundary(s: Seq<char>, n: nat) -> bool {
    exists|k: int| cuts_at(s, n, k)
}

/// How many characters take the first `n` bytes.
pub open spec fn cut(s: Seq<char>, n: nat) -> int {
    choose|k: int| cuts_at(s, n, k)
}

/// The number of characters at a boundary is unique.
pub proof fn lemma_cut(s: Seq<char>, n: nat, k: int)
    requires
        cuts_at(s, n, k),
    ensures
        at_boundary(s, n),
        cut(s, n) == k,
{
    let c = cut(s, n);
    if c < k {
        lemma_cut_unique(s, c, k);
    }
    if k < c {
        lemma_cut_unique(s, k, c);
    }
}

/// Boundaries come in the order of their characters.
pub proof fn lemma_cut_order(s: Seq<char>, a: nat, b: nat)
    requires
        at_boundary(s, a),
        at_boundary(s, b),
        a <= b,
    ensures
        0 <= cut(s, a) <= cut(s, b) <= s.len(),
{
    if cut(s, b) < cut(s, a) {
        lemma_cut_unique(s, cut(s, b), cut(s, a));
    }
}

/// A boundary within the beginning of a text is one of the text.
pub proof fn lemma_cut_of_prefix(s: Seq<char>, t: Seq<char>, n: nat, k: int)
    requires
        cuts_at(s, n, k),
        k <= t.len(),
        s.take(k) == t.take(k),
    ensures
        at_boundary(t, n),
        cut(t, n) == k,
{
    lemma_cut(t, n, k);
}

/// How many characters take the first `n` bytes, where a boundary is there.
pub fn find_boundary(chars: &Vec<char>, n: u64) -> (r: Option<usize>)
    requires
        4 * chars@.len() <= u64::MAX,
    ensures
        r is Some == at_boundary(chars@, n as nat),
        r matches Some(k) ==> k == cut(chars@, n as nat) && k <= chars@.len(),
{
    let mut seen: u64 = 0;
    let mut i: usize = 0;
    assert(chars@.take(0) =~= Seq::empty());
    while i < chars.len() && seen < n
        invariant
            i <= chars@.len(),
            4 * chars@.len() <= u64::MAX,
            seen == byte_len(chars@.take(i as int)),
            forall|k: int| 0 <= k < i ==> byte_len(#[trigger] chars@.take(k)) < n,
        decreases chars@.len() - i,
    {
        proof {
            assert(chars@.take(i + 1).drop_last() =~= chars@.take(i as int));
            lemma_byte_len_bound(chars@.take(i + 1));
            assert(chars@.subrange(i as int, i + 1) =~= seq![chars@[i as int]]);
            reveal_with_fuel(byte_len, 2);
            assert(seq![chars@[i as int]].drop_last() =~= Seq::empty());
        }
        seen = seen + count_bytes(chars, i, i + 1);
        i = i + 1;
    }
    if seen == n {
        proof {
            lemma_cut(chars@, n as nat, i as int);
        }
        Some(i)
    } else {
        proof {
            if at_boundary(chars@, n as nat) {
                let k = cut(chars@, n as nat);
                if k > i {
                    lemma_cut_unique(chars@, i as int, k);
                }
            }
        }
        None
    }
}

/// Whether a range covers whole characters of a text.
pub open spec fn fits(s: Seq<char>, range: TextRange) -> bool {
    range.start <= range.end && at_boundary(s, range.start as nat) && at_boundary(
        s,
        range.end as nat,
    )
}

/// The text in a range.
pub open spec fn code_in(s: Seq<char>, range: TextRange) -> Seq<char> {
    s.subrange(cut(s, range.start as nat), cut(s, range.end as nat))
}

/// The text in a range.
pub fn code_at(chars: &Vec<char>, range: TextRange) -> (r: (usize, usize))
    requires
        4 * chars@.len() <= u64::MAX,
        fits(chars@, range),
    ensures
        r.0 <= r.1 <= chars@.len(),
        r.0 == cut(chars@, range.start as nat),
        r.1 == cut(chars@, range.end as nat),
        chars@.subrange(r.0 as int, r.1 as int) == code_in(chars@, range),
{
    proof {
        lemma_cut_order(chars@, range.start as nat, range.end as nat);
    }
    let a = find_boundary(chars, range.start as u64);
    let b = find_boundary(chars, range.end as u64);
    match (a, b) {
        (Some(a), Some(b)) => (a, b),
        _ => (0, 0),
    }
}

/// Whether a line ends with the character at a position.
pub open spec fn ends_line(s: Seq<char>, i: int) -> bool {
    0 <= i < s.len() && (s[i] == '\n' || (s[i] == '\r' && !(i + 1 < s.len() && s[i + 1] == '\n')))
}

/// Where the line that holds position `from` ends, with its line break.
pub open spec fn line_end(s: Seq<char>, from: int) -> int
    decreases s.len() - from,
{
    if from < 0 || from >= s.len() {
        s.len() as int
    } else if ends_line(s, from) {
        from + 1
    } else {
        line_end(s, from + 1)
    }
}

/// Whether another line begins behind the line that holds position `from`.
pub open spec fn has_next_line(s: Seq<char>, from: int) -> bool
    decreases s.len() - from,
{
    0 <= from < s.len() && (ends_line(s, from) || has_next_line(s, from + 1))
}

/// Where a line begins, counted from 0.
pub open spec fn line_start(s: Seq<char>, line: nat) -> Option<int>
    decreases line,
{
    if line == 0 {
        Some(0)
    } else {
        match line_start(s, (line - 1) as nat) {
            None => None,
            Some(p) => if has_next_line(s, p) {
                Some(line_end(s, p))
            } else {
                None
            },
        }
    }
}

/// The bounds of lines are positions in the text.
pub proof fn lemma_line_end(s: Seq<char>, from: int)
    requires
        0 <= from <= s.len(),
    ensures
        from <= line_end(s, from) <= s.len(),
        has_next_line(s, from) ==> from < line_end(s, from),
    decreases s.len() - from,
{
    if from < s.len() && !ends_line(s, from) {
        lemma_line_end(s, from + 1);
    }
}

/// Lines begin within the text.
pub proof fn lemma_line_start(s: Seq<char>, line: nat)
    ensures
        line_start(s, line) matches Some(p) ==> 0 <= p <= s.len(),
    decreases line,
{
    if line > 0 {
        lemma_line_start(s, (line - 1) as nat);
        if let Some(p) = line_start(s, (line - 1) as nat) {
            lemma_line_end(s, p);
        }
    }
}

fn find_line_end(chars: &Vec<char>, from: usize) -> (r: (usize, bool))
    requires
        from <= chars@.len(),
    ensures
        r.0 == line_end(chars@, from as int),
        r.1 == has_next_line(chars@, from as int),
        from <= r.0 <= chars@.len(),
{
    let n: usize = chars.len();
    let mut i: usize = from;
    while i < n
        invariant
            from <= i <= n,
            n == chars@.len(),
            line_end(chars@, from as int) == line_end(chars@, i as int),
            has_next_line(chars@, from as int) == has_next_line(chars@, i as int),
        decreases n - i,
    {
        if chars[i] == '\n' || (chars[i] == '\r' && !(i + 1 < n && chars[i + 1] == '\n')) {
            return (i + 1, true);
        }
        i = i + 1;
    }
    (i, false)
}

/// Where a line begins and ends, with its line break, counted from 0.
pub fn find_line(chars: &Vec<char>, line: u32) -> (r: Option<(usize, usize)>)
    ensures
        match r {
            Some((a, b)) => {
                &&& line_start(chars@, line as nat) == Some(a as int)
                &&& b == line_end(chars@, a as int)
                &&& a <= b <= chars@.len()
            },
            None => line_start(chars@, line as nat) is None,
        },
{
    let mut at: usize = 0;
    let mut i: u32 = 0;
    while i < line
        invariant
            i <= line,
            at <= chars@.len(),
            line_start(chars@, i as nat) == Some(at as int),
        decreases line - i,
    {
        let (next, more) = find_line_end(chars, at);
        if !more {
            proof {
                assert(line_start(chars@, (i + 1) as nat) is None);
                lemma_no_later_line(chars@, (i + 1) as nat, line as nat);
            }
            return None;
        }
        at = next;
        i = i + 1;
    }
    let (end, _) = find_line_end(chars, at);
    Some((at, end))
}

proof fn lemma_no_later_line(s: Seq<char>, a: nat, b: nat)
    requires
        a <= b,
        line_start(s, a) is None,
    ensures
        line_start(s, b) is None,
    decreases b - a,
{
    if a < b {
        lemma_no_later_line(s, a, (b - 1) as nat);
    }
}

/// Where a line ends without its line break, `\n` or `\r\n`.
pub open spec fn text_end(s: Seq<char>, a: int, b: int) -> int {
    if b - a >= 2 && s[b - 2] == '\r' && s[b - 1] == '\n' {
        b - 2
    } else if b - a >= 1 && s[b - 1] == '\n' {
        b - 1
    } else {
        b
    }
}

/// Where the line `a..b` ends without its line break.
pub fn find_text_end(chars: &Vec<char>, a: usize, b: usize) -> (r: usize)
    requires
        a <= b <= chars@.len(),
    ensures
        r == text_end(chars@, a as int, b as int),
        a <= r <= b,
{
    if b - a >= 2 && chars[b - 2] == '\r' && chars[b - 1] == '\n' {
        b - 2
    } else if b - a >= 1 && chars[b - 1] == '\n' {
        b - 1
    } else {
        b
    }
}

} // verus!
