use vstd::prelude::*;

use crate::report::TextRange;
use crate::source::{at_boundary, cut, ends_line, find_boundary, fits, ModuleInfo, ModuleView};
use crate::text::chars_of;
use crate::words::byte_len;

verus! {

/// A position as it is shown. All numbers count from 1.
#[derive(Clone, Copy)]
pub struct DisplayPos {
    /// The cell of a notebook.
    pub cell: Option<usize>,
    pub line_within_cell: u32,
    pub line_within_file: u32,
    pub column: u32,
}

/// A range as it is shown.
#[derive(Clone, Copy)]
pub struct DisplayRange {
    pub start: DisplayPos,
    pub end: DisplayPos,
}

/// How many lines end in front of position `k`.
pub open spec fn lines_before(s: Seq<char>, k: int) -> nat
    decreases k,
{
    if k <= 0 {
        0
    } else if ends_line(s, k - 1) {
        lines_before(s, k - 1) + 1
    } else {
        lines_before(s, k - 1)
    }
}

/// Where the line that holds position `k` begins.
pub open spec fn line_of(s: Seq<char>, k: int) -> int
    decreases k,
{
    if k <= 0 {
        0
    } else if ends_line(s, k - 1) {
        k
    } else {
        line_of(s, k - 1)
    }
}

/// The cell that holds a line, counted from 0: the last one that begins there or earlier.
pub open spec fn cell_of(cells: Seq<u32>, line: int) -> Option<int>
    decreases cells.len(),
{
    if cells.len() == 0 {
        None
    } else if cells.last() <= line {
        Some(cells.len() - 1)
    } else {
        cell_of(cells.drop_last(), line)
    }
}

/// Where position `k` of a module is shown.
pub open spec fn shown_at(module: ModuleView, k: int, p: DisplayPos) -> bool {
    let s = module.contents;
    let line = lines_before(s, k);
    &&& p.line_within_file == line + 1
    &&& p.column == k - line_of(s, k) + 1
    &&& match cell_of(module.cells, line as int) {
        Some(c) => p.cell == Some((c + 1) as usize) && p.line_within_cell == line
            - module.cells[c] + 1,
        None => p.cell is None && p.line_within_cell == line + 1,
    }
}

/// Whether a range of a module is shown so.
pub open spec fn shown(module: ModuleView, range: TextRange, d: DisplayRange) -> bool {
    shown_at(module, cut(module.contents, range.start as nat), d.start) && shown_at(
        module,
        cut(module.contents, range.end as nat),
        d.end,
    )
}

/// Whether positions in a text can be counted, from 1, in 32 bits.
pub open spec fn countable(s: Seq<char>) -> bool {
    byte_len(s) < u32::MAX && 4 * s.len() <= u64::MAX
}

/// A line begins in front of what stands on it.
pub proof fn lemma_line_of(s: Seq<char>, k: int)
    requires
        0 <= k,
    ensures
        0 <= line_of(s, k) <= k,
        lines_before(s, k) <= k,
    decreases k,
{
    if k > 0 {
        lemma_line_of(s, k - 1);
    }
}

pub proof fn lemma_byte_len_at_least(s: Seq<char>)
    ensures
        s.len() <= byte_len(s),
    decreases s.len(),
{
    if s.len() > 0 {
        lemma_byte_len_at_least(s.drop_last());
    }
}

/// A cell that holds a line begins there or earlier.
pub proof fn lemma_cell_of(cells: Seq<u32>, line: int)
    ensures
        cell_of(cells, line) matches Some(c) ==> 0 <= c < cells.len() && cells[c] <= line,
    decreases cells.len(),
{
    if cells.len() > 0 {
        lemma_cell_of(cells.drop_last(), line);
    }
}

pub fn find_cell(cells: &Vec<u32>, line: u32) -> (r: Option<usize>)
    ensures
        match r {
            Some(c) => cell_of(cells@, line as int) == Some(c as int) && c < cells@.len()
                && cells@[c as int] <= line,
            None => cell_of(cells@, line as int) is None,
        },
{
    let mut n: usize = cells.len();
    assert(cells@.take(n as int) =~= cells@);
    while n > 0
        invariant
            n <= cells@.len(),
            cell_of(cells@, line as int) == cell_of(cells@.take(n as int), line as int),
        decreases n,
    {
        assert(cells@.take(n as int).last() == cells@[n - 1]);
        assert(cells@.take(n as int).drop_last() =~= cells@.take(n - 1));
        if cells[n - 1] <= line {
            return Some(n - 1);
        }
        n = n - 1;
    }
    None
}

fn display_pos(module: &ModuleInfo, chars: &Vec<char>, offset: u32) -> (r: DisplayPos)
    requires
        chars@ == module.contents@,
        countable(chars@),
        at_boundary(chars@, offset as nat),
    ensures
        shown_at(module@, cut(chars@, offset as nat), r),
{
    proof {
        lemma_byte_len_at_least(chars@);
    }
    let k: usize = match find_boundary(chars, offset as u64) {
        Some(k) => k,
        None => 0,
    };
    let n: usize = chars.len();
    let mut line: u32 = 0;
    let mut begin: usize = 0;
    let mut i: usize = 0;
    while i < k
        invariant
            i <= k <= n,
            n == chars@.len(),
            n < u32::MAX,
            begin <= i,
            line <= i,
            line == lines_before(chars@, i as int),
            begin == line_of(chars@, i as int),
        decreases k - i,
    {
        if chars[i] == '\n' || (chars[i] == '\r' && !(i + 1 < n && chars[i + 1] == '\n')) {
            line = line + 1;
            begin = i + 1;
        }
        i = i + 1;
    }
    let column: u32 = (k - begin) as u32 + 1;
    let known: usize = module.cells.len();
    assert(known == module.cells@.len());
    match find_cell(&module.cells, line) {
        Some(c) => DisplayPos {
            cell: Some(c + 1),
            line_within_cell: line - module.cells[c] + 1,
            line_within_file: line + 1,
            column,
        },
        None => DisplayPos {
            cell: None,
            line_within_cell: line + 1,
            line_within_file: line + 1,
            column,
        },
    }
}

impl ModuleInfo {
    /// Where a range of the module is shown.
    pub fn display_range(&self, range: TextRange) -> (r: DisplayRange)
        requires
            countable(self.contents@),
            fits(self.contents@, range),
        ensures
            shown(self@, range, r),
    {
        let chars = chars_of(self.contents.as_str());
        DisplayRange {
            start: display_pos(self, &chars, range.start),
            end: display_pos(self, &chars, range.end),
        }
    }
}

/// A position in a document as editors count it, from 0, in UTF-16 code units.
#[derive(Clone, Copy)]
pub struct LspPosition {
    pub line: u32,
    pub character: u32,
}

/// A range in a document as editors count it.
#[derive(Clone, Copy)]
pub struct LspRange {
    pub start: LspPosition,
    pub end: LspPosition,
}

/// How many code units a character takes in UTF-16.
pub open spec fn units(c: char) -> nat {
    if c as int >= 0x10000 {
        2
    } else {
        1
    }
}

fn get_units(c: char) -> (r: u32)
    ensures
        r == units(c),
{
    let n: u32 = c as u32;
    if n >= 0x10000 {
        2
    } else {
        1
    }
}

/// How many code units a text takes in UTF-16.
pub open spec fn utf16_len(s: Seq<char>) -> nat
    decreases s.len(),
{
    if s.len() == 0 {
        0
    } else {
        utf16_len(s.drop_last()) + units(s.last())
    }
}

/// Where position `k` of a module is found in an editor. In a notebook, lines are counted within
/// the cell.
pub open spec fn lsp_at(module: ModuleView, k: int, p: LspPosition) -> bool {
    let s = module.contents;
    let line = lines_before(s, k);
    &&& p.character == utf16_len(s.subrange(line_of(s, k), k))
    &&& match cell_of(module.cells, line as int) {
        Some(c) => p.line == line - module.cells[c],
        None => p.line == line,
    }
}

/// Whether a range of a module is found so in an editor.
pub open spec fn lsp_shown(module: ModuleView, range: TextRange, r: LspRange) -> bool {
    lsp_at(module, cut(module.contents, range.start as nat), r.start) && lsp_at(
        module,
        cut(module.contents, range.end as nat),
        r.end,
    )
}

proof fn lemma_utf16_len(s: Seq<char>)
    ensures
        utf16_len(s) <= byte_len(s),
    decreases s.len(),
{
    if s.len() > 0 {
        lemma_utf16_len(s.drop_last());
    }
}

/// How many code units `from..to` takes in UTF-16.
fn count_utf16(chars: &Vec<char>, from: usize, to: usize) -> (r: u32)
    requires
        from <= to <= chars@.len(),
        byte_len(chars@) < u32::MAX,
    ensures
        r == utf16_len(chars@.subrange(from as int, to as int)),
{
    let mut n: u32 = 0;
    let mut i: usize = from;
    assert(chars@.subrange(from as int, from as int) =~= Seq::empty());
    while i < to
        invariant
            from <= i <= to <= chars@.len(),
            byte_len(chars@) < u32::MAX,
            n == utf16_len(chars@.subrange(from as int, i as int)),
        decreases to - i,
    {
        let ghost after = chars@.subrange(from as int, i + 1);
        proof {
            assert(after.drop_last() =~= chars@.subrange(from as int, i as int));
            lemma_utf16_len(after);
            lemma_part_bytes(chars@, from as int, i + 1);
        }
        n = n + get_units(chars[i]);
        i = i + 1;
    }
    n
}

/// A part of a text takes no more bytes than the text.
pub proof fn lemma_part_bytes(s: Seq<char>, from: int, to: int)
    requires
        0 <= from <= to <= s.len(),
    ensures
        byte_len(s.subrange(from, to)) <= byte_len(s),
    decreases s.len(), to,
{
    if to < s.len() {
        assert(s.subrange(from, to) =~= s.drop_last().subrange(from, to));
        lemma_part_bytes(s.drop_last(), from, to);
    } else if from < to {
        assert(s.subrange(from, to).drop_last() =~= s.drop_last().subrange(from, to - 1));
        lemma_part_bytes(s.drop_last(), from, to - 1);
    }
}

fn lsp_position(module: &ModuleInfo, chars: &Vec<char>, offset: u32) -> (r: LspPosition)
    requires
        chars@ == module.contents@,
        countable(chars@),
        at_boundary(chars@, offset as nat),
    ensures
        lsp_at(module@, cut(chars@, offset as nat), r),
{
    let pos = display_pos(module, chars, offset);
    let k: usize = match find_boundary(chars, offset as u64) {
        Some(k) => k,
        None => 0,
    };
    proof {
        lemma_line_of(chars@, k as int);
        lemma_cell_of(module.cells@, lines_before(chars@, k as int) as int);
    }
    let begin: usize = k - (pos.column - 1) as usize;
    LspPosition { line: pos.line_within_cell - 1, character: count_utf16(chars, begin, k) }
}

impl ModuleInfo {
    /// Where a range of the module is found in an editor.
    pub fn to_lsp_range(&self, range: TextRange) -> (r: LspRange)
        requires
            countable(self.contents@),
            fits(self.contents@, range),
        ensures
            lsp_shown(self@, range, r),
    {
        let chars = chars_of(self.contents.as_str());
        LspRange {
            start: lsp_position(self, &chars, range.start),
            end: lsp_position(self, &chars, range.end),
        }
    }
}

} // verus!
