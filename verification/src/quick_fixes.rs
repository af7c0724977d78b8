use vstd::prelude::*;

use crate::error::{Error, ErrorQuickFix, ErrorView, FixView, Tool};
use crate::position::lemma_part_bytes;
use crate::report::TextRange;
use crate::source::{
    code_at, code_in, cut, find_line, find_text_end, fits, line_end, line_start, text_end,
    ModuleInfo, ModuleView,
};
use crate::text::{cat3, chars_of, contains_name, is_text, same_name, string_of, texts};
use crate::words::{byte_len, check_space, count_bytes, drop_space, trim_range, trimmed};

verus! {

/// An edit that is offered as a fix, as plain text.
pub struct OfferView {
    pub title: Seq<char>,
    pub module: ModuleView,
    pub range: TextRange,
    pub text: Seq<char>,
}

/// An edit that is offered as a fix: its title, the module, the range and what stands there
/// afterwards.
pub type Offer = (String, ModuleInfo, TextRange, String);

/// An offer as plain text.
pub open spec fn offer_view(o: Offer) -> OfferView {
    OfferView { title: o.0@, module: o.1@, range: o.2, text: o.3@ }
}

/// A node of a syntax tree that covers a position.
pub struct CoveringNode {
    pub is_string_literal: bool,
    pub range: TextRange,
}

/// The first string literal among nodes that covers a range.
pub open spec fn enclosing_literal(nodes: Seq<CoveringNode>, range: TextRange) -> Option<TextRange>
    decreases nodes.len(),
{
    if nodes.len() == 0 {
        None
    } else if nodes[0].is_string_literal && nodes[0].range.covers(range) {
        Some(nodes[0].range)
    } else {
        enclosing_literal(nodes.drop_first(), range)
    }
}

fn enclosing_string_literal_range(nodes: &Vec<CoveringNode>, range: TextRange) -> (r: Option<
    TextRange,
>)
    ensures
        r == enclosing_literal(nodes@, range),
{
    let mut i: usize = 0;
    assert(nodes@.skip(0) =~= nodes@);
    while i < nodes.len()
        invariant
            i <= nodes@.len(),
            enclosing_literal(nodes@, range) == enclosing_literal(nodes@.skip(i as int), range),
        decreases nodes@.len() - i,
    {
        assert(nodes@.skip(i as int).drop_first() =~= nodes@.skip(i + 1));
        if nodes[i].is_string_literal && nodes[i].range.contains_range(range) {
            return Some(nodes[i].range);
        }
        i = i + 1;
    }
    None
}

/// The offer to replace a string with a member of an enumeration.
pub open spec fn enum_member_offer(
    module: ModuleView,
    nodes: Seq<CoveringNode>,
    error: ErrorView,
) -> Option<OfferView> {
    if error.quick_fixes.len() == 0 {
        None
    } else {
        match error.quick_fixes[0] {
            FixView::ReplaceWithEnumMember { replacement } => match enclosing_literal(
                nodes,
                error.range,
            ) {
                Some(range) => Some(
                    OfferView {
                        title: "Replace with `"@ + replacement + "`"@,
                        module,
                        range,
                        text: replacement,
                    },
                ),
                None => None,
            },
            _ => None,
        }
    }
}

/// Offers to replace a string with a member of an enumeration, where the error comes with that as
/// its first fix. `nodes` are those that cover the beginning of the error, the innermost first.
pub fn replace_with_enum_member_code_action(
    module_info: &ModuleInfo,
    nodes: &Vec<CoveringNode>,
    error: &Error,
) -> (r: Option<Offer>)
    ensures
        match r {
            Some(o) => enum_member_offer(module_info@, nodes@, error@) == Some(offer_view(o)),
            None => enum_member_offer(module_info@, nodes@, error@) is None,
        },
{
    if error.quick_fixes.len() == 0 {
        return None;
    }
    assert(error@.quick_fixes[0] == error.quick_fixes@[0]@);
    let replacement = match &error.quick_fixes[0] {
        ErrorQuickFix::ReplaceWithEnumMember { replacement } => replacement,
        _ => {
            return None;
        },
    };
    match enclosing_string_literal_range(nodes, error.range) {
        None => None,
        Some(range) => Some(
            (
                cat3("Replace with `", replacement.as_str(), "`"),
                module_info.dupe(),
                range,
                replacement.clone(),
            ),
        ),
    }
}

/// What an ignore comment on a line says: the kinds that it names, and the line as it is once the
/// kind of the error is named there too.
pub struct IgnoreComment {
    pub codes: Vec<String>,
    pub merged_line: String,
}

/// The range and the text of a line without its line break, counted from 0.
pub open spec fn line_text(s: Seq<char>, line: nat) -> Option<(int, int)> {
    match line_start(s, line) {
        Some(a) => Some((a, text_end(s, a, line_end(s, a)))),
        None => None,
    }
}

/// How many blanks and tabs stand at the beginning.
pub open spec fn indent_len(s: Seq<char>) -> int
    decreases s.len(),
{
    if s.len() > 0 && (s[0] == ' ' || s[0] == '\t') {
        1 + indent_len(s.drop_first())
    } else {
        0
    }
}

/// Whether a line is a comment.
pub open spec fn is_comment(line: Seq<char>) -> bool {
    trimmed(line).len() > 0 && trimmed(line)[0] == '#'
}

/// Where a line begins and ends, where it is a comment.
pub open spec fn comment_line(s: Seq<char>, line: nat) -> Option<(int, int)> {
    match line_text(s, line) {
        Some((a, b)) => if is_comment(s.subrange(a, b)) {
            Some((a, b))
        } else {
            None
        },
        None => None,
    }
}

/// Whether an ignore comment for an error can be offered.
pub open spec fn ignorable(module: ModuleView, kind: Seq<char>) -> bool {
    !module.is_notebook && !module.is_generated && kind != "unused-ignore"@ && kind
        != "unused-type-ignore"@
}

/// The range of the part `a..b` of a text, in bytes.
pub open spec fn byte_range(s: Seq<char>, a: int, b: int, r: TextRange) -> bool {
    r.start == byte_len(s.take(a)) && r.end == byte_len(s.take(b))
}

/// What is offered to ignore an error. An ignore comment that is there, on the line or on the line
/// above, gets the kind added to it; else a comment is put in front of the line.
pub open spec fn ignore_offer(
    module: ModuleView,
    error: ErrorView,
    on_line: Option<IgnoreComment>,
    above: Option<IgnoreComment>,
    r: Option<OfferView>,
) -> bool {
    let s = module.contents;
    let kind = error.error_kind.name;
    let line = (error.display_range.start.line_within_file - 1) as nat;
    let title = "Add `# pyrefly: ignore ["@ + kind + "]`"@;
    if !ignorable(module, kind) {
        r is None
    } else {
        match line_text(s, line) {
            None => r is None,
            Some((a, b)) => match on_line {
                Some(c) => if texts(c.codes@).contains(kind) {
                    r is None
                } else {
                    r is Some && r->0.title == title && r->0.module == module && byte_range(
                        s,
                        a,
                        b,
                        r->0.range,
                    ) && r->0.text == c.merged_line@
                },
                None => if line > 0 && above is Some && comment_line(s, (line - 1) as nat) is Some {
                    let (x, y) = comment_line(s, (line - 1) as nat)->0;
                    if texts(above->0.codes@).contains(kind) {
                        r is None
                    } else {
                        r is Some && r->0.title == title && r->0.module == module && byte_range(
                            s,
                            x,
                            y,
                            r->0.range,
                        ) && r->0.text == above->0.merged_line@
                    }
                } else {
                    let text = s.subrange(a, b);
                    r is Some && r->0.title == title && r->0.module == module && byte_range(
                        s,
                        a,
                        a,
                        r->0.range,
                    ) && r->0.text == text.take(indent_len(text)) + "# pyrefly: ignore ["@ + kind
                        + "]\n"@
                },
            },
        }
    }
}

fn get_line_text_and_range(chars: &Vec<char>, line: u32) -> (r: Option<(TextRange, usize, usize)>)
    requires
        4 * chars@.len() <= u64::MAX,
        byte_len(chars@) <= u32::MAX,
    ensures
        match r {
            Some((range, a, b)) => line_text(chars@, line as nat) == Some((a as int, b as int))
                && a <= b <= chars@.len() && byte_range(chars@, a as int, b as int, range),
            None => line_text(chars@, line as nat) is None,
        },
{
    match find_line(chars, line) {
        None => None,
        Some((a, end)) => {
            let b = find_text_end(chars, a, end);
            let start = offset_of(chars, a);
            let stop = offset_of(chars, b);
            Some((TextRange { start, end: stop }, a, b))
        },
    }
}

/// How many bytes stand in front of a character.
pub fn offset_of(chars: &Vec<char>, k: usize) -> (r: u32)
    requires
        k <= chars@.len(),
        4 * chars@.len() <= u64::MAX,
        byte_len(chars@) <= u32::MAX,
    ensures
        r == byte_len(chars@.take(k as int)),
{
    assert(chars@.subrange(0, k as int) =~= chars@.take(k as int));
    proof {
        lemma_part_bytes(chars@, 0, k as int);
    }
    let n: u64 = count_bytes(chars, 0, k);
    n as u32
}

fn count_indent(chars: &Vec<char>, from: usize, to: usize) -> (r: usize)
    requires
        from <= to <= chars@.len(),
    ensures
        r == indent_len(chars@.subrange(from as int, to as int)),
        from + r <= to,
{
    let ghost s = chars@.subrange(from as int, to as int);
    let mut i: usize = from;
    assert(s.skip(0) =~= s);
    while i < to && (chars[i] == ' ' || chars[i] == '\t')
        invariant
            from <= i <= to <= chars@.len(),
            s == chars@.subrange(from as int, to as int),
            indent_len(s) == i - from + indent_len(s.skip(i - from)),
        decreases to - i,
    {
        assert(s.skip(i - from)[0] == chars@[i as int]);
        assert(s.skip(i - from).drop_first() =~= s.skip(i + 1 - from));
        i = i + 1;
    }
    proof {
        if i < to {
            assert(s.skip(i - from)[0] == chars@[i as int]);
        }
    }
    i - from
}

fn check_comment(chars: &Vec<char>, a: usize, b: usize) -> (r: bool)
    requires
        a <= b <= chars@.len(),
    ensures
        r == is_comment(chars@.subrange(a as int, b as int)),
{
    let (from, to) = trim_range(chars, a, b);
    assert(chars@.subrange(from as int, to as int).len() == to - from);
    from < to && chars[from] == '#'
}

/// Offers to ignore an error by a comment. `on_line` and `above` are the ignore comments on the
/// line where the error is shown and on the one above it.
pub fn add_pyrefly_ignore_code_action(
    module_info: &ModuleInfo,
    error: &Error,
    on_line: &Option<IgnoreComment>,
    above: &Option<IgnoreComment>,
) -> (r: Option<Offer>)
    requires
        4 * module_info.contents@.len() <= u64::MAX,
        byte_len(module_info.contents@) <= u32::MAX,
        error@.display_range.start.line_within_file >= 1,
    ensures
        ignore_offer(
            module_info@,
            error@,
            *on_line,
            *above,
            match r {
                Some(o) => Some(offer_view(o)),
                None => None,
            },
        ),
{
    let kind = &error.error_kind.name;
    if module_info.is_notebook || module_info.is_generated || is_text(kind, "unused-ignore")
        || is_text(kind, "unused-type-ignore") {
        return None;
    }
    let title = cat3("Add `# pyrefly: ignore [", kind.as_str(), "]`");
    let line: u32 = error.display_range.start.line_within_file - 1;
    let chars = chars_of(module_info.contents.as_str());
    let (range, a, b) = match get_line_text_and_range(&chars, line) {
        None => {
            return None;
        },
        Some(found) => found,
    };
    if let Some(c) = on_line {
        if contains_name(&c.codes, kind.as_str()) {
            return None;
        }
        return Some((title, module_info.dupe(), range, c.merged_line.clone()));
    }
    if line > 0 {
        if let Some(c) = above {
            if let Some((above_range, x, y)) = get_line_text_and_range(&chars, line - 1) {
                if check_comment(&chars, x, y) {
                    if contains_name(&c.codes, kind.as_str()) {
                        return None;
                    }
                    return Some((title, module_info.dupe(), above_range, c.merged_line.clone()));
                }
            }
        }
    }
    let n = count_indent(&chars, a, b);
    let indent = string_of(&chars, a, a + n);
    let ghost text = chars@.subrange(a as int, b as int);
    assert(chars@.subrange(a as int, a + n) =~= text.take(n as int));
    let insert_range = TextRange { start: range.start, end: range.start };
    let comment = cat3("# pyrefly: ignore [", kind.as_str(), "]\n");
    let insert_text = cat3(indent.as_str(), comment.as_str(), "");
    proof {
        reveal_strlit("");
        assert(insert_text@ =~= text.take(n as int) + "# pyrefly: ignore ["@ + kind@ + "]\n"@);
    }
    Some((title, module_info.dupe(), insert_range, insert_text))
}

/// The title of the offer to remove a suppression.
pub open spec fn removal_title(tool: Tool, replacement: Seq<char>) -> Seq<char> {
    if replacement.len() > 0 {
        "Remove unused suppression codes"@
    } else {
        match tool {
            Tool::Type => "Remove unused `# type: ignore` comment"@,
            Tool::Pyrefly => "Remove unused `# pyrefly: ignore` comment"@,
            _ => "Remove unused Pyre suppression"@,
        }
    }
}

/// The part of a line that goes with a suppression at `p..q`: the whole line with its line break
/// where nothing else stands on it, and the white space in front where nothing stands behind it.
/// The line runs from `a` to `b`, and to `e` with its line break.
pub open spec fn removed_part(s: Seq<char>, a: int, b: int, e: int, p: int, q: int) -> (int, int) {
    if drop_space(s, a, p) == a && drop_space(s, q, b) == q {
        (a, e)
    } else if q == b {
        (drop_space(s, a, p), q)
    } else {
        (p, q)
    }
}

/// Whether a suppression lies on the line where its error is shown, and is of a tool whose unused
/// suppressions are reported.
pub open spec fn removable(s: Seq<char>, line: nat, tool: Tool, range: TextRange) -> bool {
    &&& tool == Tool::Type || tool == Tool::Pyrefly || tool == Tool::Pyre
    &&& match line_text(s, line) {
        Some((a, b)) => a <= cut(s, range.start as nat) && cut(s, range.end as nat) <= b,
        None => false,
    }
}

/// Whether the offer to remove an unused suppression can be worked out.
pub open spec fn removal_ready(module: ModuleView, error: ErrorView) -> bool {
    let s = module.contents;
    &&& 4 * s.len() <= u64::MAX
    &&& byte_len(s) <= u32::MAX
    &&& error.display_range.start.line_within_file >= 1
    &&& error.quick_fixes.len() > 0 ==> match error.quick_fixes[0] {
        FixView::RemoveUnusedSuppression { tool, range, expected, replacement } => fits(s, range)
            && (code_in(s, range) == expected && replacement.len() == 0 ==> removable(
            s,
            (error.display_range.start.line_within_file - 1) as nat,
            tool,
            range,
        )),
        _ => true,
    }
}

/// What is offered to remove an unused suppression.
pub open spec fn removal_offer(module: ModuleView, error: ErrorView, r: Option<OfferView>) -> bool {
    let s = module.contents;
    if error.quick_fixes.len() == 0 {
        r is None
    } else {
        match error.quick_fixes[0] {
            FixView::RemoveUnusedSuppression { tool, range, expected, replacement } => {
                if code_in(s, range) != expected {
                    r is None
                } else {
                    let line = (error.display_range.start.line_within_file - 1) as nat;
                    &&& r is Some
                    &&& r->0.title == removal_title(tool, replacement)
                    &&& r->0.module == module
                    &&& r->0.text == replacement
                    &&& if replacement.len() > 0 {
                        r->0.range == range
                    } else {
                        let (a, b) = line_text(s, line)->0;
                        let (x, y) = removed_part(
                            s,
                            a,
                            b,
                            line_end(s, a),
                            cut(s, range.start as nat),
                            cut(s, range.end as nat),
                        );
                        byte_range(s, x, y, r->0.range)
                    }
                }
            },
            _ => r is None,
        }
    }
}

fn find_space_end(chars: &Vec<char>, from: usize, to: usize) -> (r: usize)
    requires
        from <= to <= chars@.len(),
    ensures
        r == drop_space(chars@, from as int, to as int),
        from <= r <= to,
{
    let mut b: usize = to;
    while b > from && check_space(chars[b - 1])
        invariant
            from <= b <= to <= chars@.len(),
            drop_space(chars@, from as int, to as int) == drop_space(chars@, from as int, b as int),
        decreases b - from,
    {
        b = b - 1;
    }
    b
}

fn get_removal_title(tool: Tool, replacement: &String) -> (r: String)
    ensures
        r@ == removal_title(tool, replacement@),
{
    let empty = chars_of(replacement.as_str()).len() == 0;
    if !empty {
        "Remove unused suppression codes".to_owned()
    } else {
        match tool {
            Tool::Type => "Remove unused `# type: ignore` comment".to_owned(),
            Tool::Pyrefly => "Remove unused `# pyrefly: ignore` comment".to_owned(),
            _ => "Remove unused Pyre suppression".to_owned(),
        }
    }
}

/// Offers to remove an unused suppression, where the error comes with that as its first fix and
/// the suppression still stands there.
pub fn remove_unused_ignore_code_action(module_info: &ModuleInfo, error: &Error) -> (r: Option<
    Offer,
>)
    requires
        removal_ready(module_info@, error@),
    ensures
        removal_offer(
            module_info@,
            error@,
            match r {
                Some(o) => Some(offer_view(o)),
                None => None,
            },
        ),
{
    if error.quick_fixes.len() == 0 {
        return None;
    }
    assert(error@.quick_fixes[0] == error.quick_fixes@[0]@);
    let edit = match &error.quick_fixes[0] {
        ErrorQuickFix::RemoveUnusedSuppression(edit) => edit,
        _ => {
            return None;
        },
    };
    let chars = chars_of(module_info.contents.as_str());
    let (p, q) = code_at(&chars, edit.range);
    let code = string_of(&chars, p, q);
    if !same_name(&code, &edit.expected) {
        return None;
    }
    let title = get_removal_title(edit.tool, &edit.replacement);
    let empty = chars_of(edit.replacement.as_str()).len() == 0;
    let mut edit_range = edit.range;
    if empty {
        let line: u32 = error.display_range.start.line_within_file - 1;
        if let Some((a, e)) = find_line(&chars, line) {
            let b = find_text_end(&chars, a, e);
            let before = find_space_end(&chars, a, p);
            let behind = find_space_end(&chars, q, b);
            if before == a && behind == q {
                edit_range = TextRange { start: offset_of(&chars, a), end: offset_of(&chars, e) };
            } else if q == b {
                edit_range = TextRange {
                    start: offset_of(&chars, before),
                    end: offset_of(&chars, q),
                };
            } else {
                edit_range = TextRange { start: offset_of(&chars, p), end: offset_of(&chars, q) };
            }
        }
    }
    Some((title, module_info.dupe(), edit_range, edit.replacement.clone()))
}

} // verus!
