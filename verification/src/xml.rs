use vstd::prelude::*;

use crate::error::{Error, ErrorView};
use crate::paths::{FilePath, PathView};
use crate::text::{
    begins_with, cat2, cat3, cat5, cat7, cat9, chars_of, decimal, decimal_text, matches_at,
};

verus! {

/// Whether XML 1.0 admits a character in a document.
pub open spec fn xml_char(c: char) -> bool {
    let n = c as int;
    n == 0x9 || n == 0xA || n == 0xD || 0x20 <= n <= 0xD7FF || 0xE000 <= n <= 0xFFFD || 0x10000 <= n
        <= 0x10FFFF
}

pub fn is_xml_char(c: char) -> (r: bool)
    ensures
        r == xml_char(c),
{
    let n: u32 = c as u32;
    n == 0x9 || n == 0xA || n == 0xD || (0x20 <= n && n <= 0xD7FF) || (0xE000 <= n && n <= 0xFFFD)
        || (0x10000 <= n && n <= 0x10FFFF)
}

/// A character in the value of an attribute. White space other than blanks is written by number,
/// since it would be read as a blank otherwise; what XML does not admit is left out.
pub open spec fn attr_char(c: char) -> Seq<char> {
    if c == '&' {
        "&amp;"@
    } else if c == '<' {
        "&lt;"@
    } else if c == '>' {
        "&gt;"@
    } else if c == '"' {
        "&quot;"@
    } else if c == '\'' {
        "&apos;"@
    } else if c == '\n' {
        "&#10;"@
    } else if c == '\r' {
        "&#13;"@
    } else if c == '\t' {
        "&#9;"@
    } else if xml_char(c) {
        seq![c]
    } else {
        Seq::empty()
    }
}

/// A text in the value of an attribute.
pub open spec fn attr_text(s: Seq<char>) -> Seq<char>
    decreases s.len(),
{
    if s.len() == 0 {
        Seq::empty()
    } else {
        attr_text(s.drop_last()) + attr_char(s.last())
    }
}

pub fn xml_escape_attr(s: &str) -> (r: String)
    ensures
        r@ == attr_text(s@),
{
    let chars = chars_of(s);
    let mut out = String::new();
    let mut i: usize = 0;
    assert(chars@.take(0) =~= Seq::empty());
    while i < chars.len()
        invariant
            i <= chars@.len(),
            out@ == attr_text(chars@.take(i as int)),
        decreases chars@.len() - i,
    {
        assert(chars@.take(i + 1).drop_last() =~= chars@.take(i as int));
        assert(chars@.take(i + 1).last() == chars@[i as int]);
        let c: char = chars[i];
        let ghost before = out@;
        if c == '&' {
            out.append("&amp;");
        } else if c == '<' {
            out.append("&lt;");
        } else if c == '>' {
            out.append("&gt;");
        } else if c == '"' {
            out.append("&quot;");
        } else if c == '\'' {
            out.append("&apos;");
        } else if c == '\n' {
            out.append("&#10;");
        } else if c == '\r' {
            out.append("&#13;");
        } else if c == '\t' {
            out.append("&#9;");
        } else if is_xml_char(c) {
            out.push(c);
            assert(out@ =~= before + seq![c]);
        } else {
            assert(out@ =~= before + Seq::<char>::empty());
        }
        i = i + 1;
    }
    assert(chars@.take(i as int) =~= chars@);
    out
}

/// The characters of a text that XML admits.
pub open spec fn admitted(s: Seq<char>) -> Seq<char>
    decreases s.len(),
{
    if s.len() == 0 {
        Seq::empty()
    } else if xml_char(s.last()) {
        admitted(s.drop_last()).push(s.last())
    } else {
        admitted(s.drop_last())
    }
}

/// What stands at the end of a character data section.
pub open spec fn section_end() -> Seq<char> {
    seq![']', ']', '>']
}

/// The parts of a text between two brackets and the `>` behind them, wherever these three come
/// together.
pub open spec fn sections(s: Seq<char>) -> Seq<Seq<char>>
    decreases s.len(),
{
    if s.len() == 0 {
        seq![Seq::empty()]
    } else if begins_with(s, section_end()) {
        let rest = sections(s.skip(3));
        seq![seq![']', ']']] + rest.update(0, seq!['>'] + rest[0])
    } else {
        let rest = sections(s.drop_first());
        rest.update(0, seq![s[0]] + rest[0])
    }
}

/// A text in a character data section: where it would end the section, the section is closed and
/// a new one opened.
pub open spec fn cdata_text(s: Seq<char>) -> Seq<char> {
    split_ends(admitted(s))
}

/// The text with each end of a section taken apart.
pub open spec fn split_ends(s: Seq<char>) -> Seq<char>
    decreases s.len(),
{
    if s.len() == 0 {
        Seq::empty()
    } else if begins_with(s, section_end()) {
        "]]]]><![CDATA[>"@ + split_ends(s.skip(3))
    } else {
        seq![s[0]] + split_ends(s.drop_first())
    }
}

fn keep_admitted(s: &str) -> (r: Vec<char>)
    ensures
        r@ == admitted(s@),
{
    let chars = chars_of(s);
    let mut out: Vec<char> = Vec::new();
    let mut i: usize = 0;
    assert(chars@.take(0) =~= Seq::empty());
    while i < chars.len()
        invariant
            i <= chars@.len(),
            out@ == admitted(chars@.take(i as int)),
        decreases chars@.len() - i,
    {
        assert(chars@.take(i + 1).drop_last() =~= chars@.take(i as int));
        assert(chars@.take(i + 1).last() == chars@[i as int]);
        if is_xml_char(chars[i]) {
            out.push(chars[i]);
        }
        i = i + 1;
    }
    assert(chars@.take(i as int) =~= chars@);
    out
}

pub fn xml_escape_cdata(s: &str) -> (r: String)
    ensures
        r@ == cdata_text(s@),
{
    let chars = keep_admitted(s);
    let end = vec![']', ']', '>'];
    assert(end@ =~= section_end());
    let mut out = String::new();
    let mut i: usize = 0;
    assert(chars@.skip(0) =~= chars@);
    assert(split_ends(chars@) =~= out@ + split_ends(chars@.skip(0)));
    while i < chars.len()
        invariant
            i <= chars@.len(),
            end@ == section_end(),
            split_ends(chars@) == out@ + split_ends(chars@.skip(i as int)),
        decreases chars@.len() - i,
    {
        let ghost rest = chars@.skip(i as int);
        if matches_at(&chars, i, &end) {
            assert(rest.skip(3) =~= chars@.skip(i + 3));
            out.append("]]]]><![CDATA[>");
            assert(split_ends(chars@) =~= out@ + split_ends(chars@.skip(i + 3)));
            i = i + 3;
        } else {
            assert(rest.drop_first() =~= chars@.skip(i + 1));
            assert(rest[0] == chars@[i as int]);
            out.push(chars[i]);
            assert(split_ends(chars@) =~= out@ + split_ends(chars@.skip(i + 1)));
            i = i + 1;
        }
    }
    assert(chars@.skip(i as int) =~= Seq::empty());
    assert(out@ =~= split_ends(chars@));
    out
}

/// Whether XML admits all characters of a text.
pub open spec fn all_admitted(s: Seq<char>) -> bool {
    forall|i: int| 0 <= i < s.len() ==> xml_char(#[trigger] s[i])
}

/// Whether a text holds none of the characters that end an attribute or begin markup, and no white
/// space that would be changed when it is read.
pub open spec fn safe_in_attribute(s: Seq<char>) -> bool {
    forall|i: int|
        0 <= i < s.len() ==> xml_char(#[trigger] s[i]) && s[i] != '<' && s[i] != '>' && s[i] != '"'
            && s[i] != '\'' && s[i] != '\n' && s[i] != '\r' && s[i] != '\t'
}

/// An escaped attribute is admitted by XML, stays within its quotes and keeps its white space.
pub proof fn law_attributes_are_well_formed(s: Seq<char>)
    ensures
        safe_in_attribute(attr_text(s)),
    decreases s.len(),
{
    if s.len() > 0 {
        law_attributes_are_well_formed(s.drop_last());
        let c = s.last();
        let e = attr_char(c);
        reveal_strlit("&amp;");
        reveal_strlit("&lt;");
        reveal_strlit("&gt;");
        reveal_strlit("&quot;");
        reveal_strlit("&apos;");
        reveal_strlit("&#10;");
        reveal_strlit("&#13;");
        reveal_strlit("&#9;");
        assert(safe_in_attribute(e));
        let before = attr_text(s.drop_last());
        assert forall|i: int| 0 <= i < attr_text(s).len() implies xml_char(
            #[trigger] attr_text(s)[i],
        ) && attr_text(s)[i] != '<' && attr_text(s)[i] != '>' && attr_text(s)[i] != '"'
            && attr_text(s)[i] != '\'' && attr_text(s)[i] != '\n' && attr_text(s)[i] != '\r'
            && attr_text(s)[i] != '\t' by {
            if i < before.len() {
                assert(attr_text(s)[i] == before[i]);
            } else {
                assert(attr_text(s)[i] == e[i - before.len()]);
            }
        }
    }
}

/// All parts, one behind the other.
pub open spec fn all_of(parts: Seq<Seq<char>>) -> Seq<char>
    decreases parts.len(),
{
    if parts.len() == 0 {
        Seq::empty()
    } else {
        parts[0] + all_of(parts.drop_first())
    }
}

/// All parts, with `sep` in front of each.
pub open spec fn each_behind(parts: Seq<Seq<char>>, sep: Seq<char>) -> Seq<char>
    decreases parts.len(),
{
    if parts.len() == 0 {
        Seq::empty()
    } else {
        sep + parts[0] + each_behind(parts.drop_first(), sep)
    }
}

/// Escaped character data is a run of sections: the text that is admitted, cut where it would end
/// a section. Between the cuts, sections are closed and opened again; put together they hold the
/// text that is admitted, no more and no less.
pub proof fn law_sections_hold_the_text(s: Seq<char>)
    ensures
        ({
            let parts = sections(admitted(s));
            &&& parts.len() > 0
            &&& all_of(parts) == admitted(s)
            &&& cdata_text(s) == parts[0] + each_behind(parts.drop_first(), "]]><![CDATA["@)
        }),
{
    lemma_sections(admitted(s));
}

proof fn lemma_sections(s: Seq<char>)
    ensures
        sections(s).len() > 0,
        all_of(sections(s)) == s,
        split_ends(s) == sections(s)[0] + each_behind(
            sections(s).drop_first(),
            "]]><![CDATA["@,
        ),
    decreases s.len(),
{
    let parts = sections(s);
    let cut = "]]><![CDATA["@;
    reveal_with_fuel(all_of, 3);
    reveal_with_fuel(each_behind, 2);
    if s.len() == 0 {
        assert(parts.drop_first() =~= Seq::empty());
        assert(all_of(parts) =~= s);
        assert(split_ends(s) =~= parts[0] + each_behind(parts.drop_first(), cut));
    } else if begins_with(s, section_end()) {
        lemma_sections(s.skip(3));
        let rest = sections(s.skip(3));
        let changed = rest.update(0, seq!['>'] + rest[0]);
        assert(parts.drop_first() =~= changed);
        assert(changed.drop_first() =~= rest.drop_first());
        assert(s.take(3) =~= section_end());
        assert(s =~= seq![']', ']'] + (seq!['>'] + s.skip(3)));
        assert(all_of(changed) =~= seq!['>'] + all_of(rest));
        assert(all_of(parts) =~= seq![']', ']'] + all_of(changed));
        reveal_strlit("]]]]><![CDATA[>");
        reveal_strlit("]]><![CDATA[");
        assert("]]]]><![CDATA[>"@ =~= seq![']', ']'] + cut + seq!['>']);
        assert(split_ends(s) =~= parts[0] + each_behind(parts.drop_first(), cut));
    } else {
        lemma_sections(s.drop_first());
        let rest = sections(s.drop_first());
        assert(parts.drop_first() =~= rest.drop_first());
        assert(all_of(parts) =~= seq![s[0]] + all_of(rest));
        assert(s =~= seq![s[0]] + s.drop_first());
        assert(split_ends(s) =~= parts[0] + each_behind(parts.drop_first(), cut));
    }
}

/// Whether no end of a section occurs in a text.
pub open spec fn holds_no_end(s: Seq<char>) -> bool {
    forall|i: int| 0 <= i <= s.len() ==> !begins_with(#[trigger] s.skip(i), section_end())
}

/// No section of escaped character data holds what would end it, and XML admits all of its
/// characters.
pub proof fn law_sections_do_not_end_early(s: Seq<char>)
    ensures
        forall|k: int|
            0 <= k < sections(admitted(s)).len() ==> holds_no_end(
                #[trigger] sections(admitted(s))[k],
            ),
        all_admitted(cdata_text(s)),
{
    lemma_sections_hold_no_end(admitted(s));
    lemma_admitted(s);
    lemma_split_admitted(admitted(s));
}

proof fn lemma_admitted(s: Seq<char>)
    ensures
        all_admitted(admitted(s)),
    decreases s.len(),
{
    if s.len() > 0 {
        lemma_admitted(s.drop_last());
    }
}

proof fn lemma_split_admitted(s: Seq<char>)
    requires
        all_admitted(s),
    ensures
        all_admitted(split_ends(s)),
    decreases s.len(),
{
    if s.len() > 0 {
        let (head, tail) = if begins_with(s, section_end()) {
            ("]]]]><![CDATA[>"@, s.skip(3))
        } else {
            (seq![s[0]], s.drop_first())
        };
        reveal_strlit("]]]]><![CDATA[>");
        assert(all_admitted(head));
        assert forall|i: int| 0 <= i < tail.len() implies xml_char(#[trigger] tail[i]) by {
            assert(tail[i] == s[s.len() - tail.len() + i]);
        }
        lemma_split_admitted(tail);
        let whole = head + split_ends(tail);
        assert forall|i: int| 0 <= i < whole.len() implies xml_char(#[trigger] whole[i]) by {
            if i < head.len() {
                assert(whole[i] == head[i]);
            } else {
                assert(whole[i] == split_ends(tail)[i - head.len()]);
            }
        }
    }
}

/// One more character in front brings no end of a section, unless it begins with one.
proof fn lemma_no_end_with(c: char, s: Seq<char>)
    requires
        holds_no_end(s),
        !begins_with(seq![c] + s, section_end()),
    ensures
        holds_no_end(seq![c] + s),
{
    let t = seq![c] + s;
    assert forall|i: int| 0 <= i <= t.len() implies !begins_with(
        #[trigger] t.skip(i),
        section_end(),
    ) by {
        if i == 0 {
            assert(t.skip(0) =~= t);
        } else {
            assert(t.skip(i) =~= s.skip(i - 1));
        }
    }
}

proof fn lemma_sections_hold_no_end(s: Seq<char>)
    ensures
        sections(s).len() > 0,
        forall|k: int| 0 <= k < sections(s).len() ==> holds_no_end(#[trigger] sections(s)[k]),
        sections(s)[0].len() <= s.len(),
        sections(s)[0] == s.take(sections(s)[0].len() as int),
    decreases s.len(),
{
    let parts = sections(s);
    if s.len() == 0 {
        assert(parts[0] =~= s.take(0));
        assert forall|i: int| 0 <= i <= parts[0].len() implies !begins_with(
            #[trigger] parts[0].skip(i),
            section_end(),
        ) by {}
    } else if begins_with(s, section_end()) {
        let rest = sections(s.skip(3));
        lemma_sections_hold_no_end(s.skip(3));
        let first = seq![']', ']'];
        assert forall|i: int| 0 <= i <= first.len() implies !begins_with(
            #[trigger] first.skip(i),
            section_end(),
        ) by {}
        assert((seq!['>'] + rest[0])[0] == '>');
        assert(begins_with(seq!['>'] + rest[0], section_end()) ==> (seq!['>'] + rest[0]).take(
            3,
        )[0] == '>');
        lemma_no_end_with('>', rest[0]);
        assert forall|k: int| 0 <= k < parts.len() implies holds_no_end(#[trigger] parts[k]) by {
            if k > 1 {
                assert(parts[k] == rest[k - 1]);
            }
        }
        assert(s.take(3) =~= section_end());
        assert(s.take(3)[0] == s[0] && s.take(3)[1] == s[1]);
        assert(parts[0] =~= s.take(2));
    } else {
        let rest = sections(s.drop_first());
        lemma_sections_hold_no_end(s.drop_first());
        let first = seq![s[0]] + rest[0];
        assert(first =~= s.take(first.len() as int));
        assert(begins_with(first, section_end()) ==> s.take(3) =~= first.take(3));
        lemma_no_end_with(s[0], rest[0]);
        assert forall|k: int| 0 <= k < parts.len() implies holds_no_end(#[trigger] parts[k]) by {
            if k > 0 {
                assert(parts[k] == rest[k]);
            }
        }
    }
}

/// The path of an error below a directory, or else the whole path.
pub open spec fn path_below(path: PathView, relative_to: PathView) -> Seq<char> {
    match path.stripped(relative_to) {
        Some(p) => p.text(),
        None => path.text(),
    }
}

pub fn get_path_below(path: &FilePath, relative_to: &FilePath) -> (r: String)
    ensures
        r@ == path_below(path@, relative_to@),
{
    match path.strip_prefix(relative_to) {
        Some(p) => p.to_text(),
        None => path.to_text(),
    }
}

/// An error as a failed test case.
pub open spec fn test_case(error: ErrorView, relative_to: PathView) -> Seq<char> {
    let path = attr_text(path_below(error.module.path, relative_to));
    let line = decimal(error.display_range.start.line_within_cell as nat);
    let kind = attr_text(error.error_kind.name);
    "    <testcase classname=\""@ + path + "\" name=\""@ + kind + ":L"@ + line + "\" file=\""@ + path
        + "\" line=\""@ + (line + "\" time=\"0\">\n      <failure type=\""@ + kind + "\" message=\""@
        + attr_text(error.msg_header) + "\"><![CDATA["@ + cdata_text(error.msg())
        + "]]></failure>\n    </testcase>\n"@)
}

/// Errors as failed test cases.
pub open spec fn test_cases(errors: Seq<ErrorView>, relative_to: PathView) -> Seq<char>
    decreases errors.len(),
{
    if errors.len() == 0 {
        Seq::empty()
    } else {
        test_cases(errors.drop_last(), relative_to) + test_case(errors.last(), relative_to)
    }
}

/// The report of errors as a test suite in which each of them is a failure.
pub open spec fn junit_text(errors: Seq<ErrorView>, relative_to: PathView) -> Seq<char> {
    let n = decimal(errors.len());
    "<?xml version=\"1.0\" encoding=\"UTF-8\"?>\n<testsuites>\n  <testsuite name=\"pyrefly\" tests=\""@
        + n + "\" failures=\""@ + n + "\" errors=\"0\" time=\"0\">\n"@ + test_cases(
        errors,
        relative_to,
    ) + "  </testsuite>\n</testsuites>\n"@
}

/// Errors as plain text.
pub open spec fn error_views(errors: Seq<Error>) -> Seq<ErrorView> {
    errors.map_values(|e: Error| e@)
}

fn write_test_case(error: &Error, relative_to: &FilePath) -> (r: String)
    ensures
        r@ == test_case(error@, relative_to@),
{
    let below = get_path_below(&error.module.path, relative_to);
    let path = xml_escape_attr(below.as_str());
    let line = decimal_text(error.display_range.start.line_within_cell as u64);
    let kind = xml_escape_attr(error.error_kind.name.as_str());
    let header = xml_escape_attr(error.msg_header.as_str());
    let msg = error.msg();
    let data = xml_escape_cdata(msg.as_str());
    let head = cat9(
        "    <testcase classname=\"",
        path.as_str(),
        "\" name=\"",
        kind.as_str(),
        ":L",
        line.as_str(),
        "\" file=\"",
        path.as_str(),
        "\" line=\"",
    );
    let failure = cat7(
        line.as_str(),
        "\" time=\"0\">\n      <failure type=\"",
        kind.as_str(),
        "\" message=\"",
        header.as_str(),
        "\"><![CDATA[",
        data.as_str(),
    );
    let tail = cat2(failure.as_str(), "]]></failure>\n    </testcase>\n");
    cat2(head.as_str(), tail.as_str())
}

/// Reports errors as a test suite in which each of them is a failure.
pub fn write_error_junit_xml(relative_to: &FilePath, errors: &Vec<Error>) -> (r: String)
    ensures
        r@ == junit_text(error_views(errors@), relative_to@),
{
    let n = decimal_text(errors.len() as u64);
    let head = cat5(
        "<?xml version=\"1.0\" encoding=\"UTF-8\"?>\n<testsuites>\n  <testsuite name=\"pyrefly\" tests=\"",
        n.as_str(),
        "\" failures=\"",
        n.as_str(),
        "\" errors=\"0\" time=\"0\">\n",
    );
    let mut cases = String::new();
    let mut i: usize = 0;
    let ghost all = error_views(errors@);
    assert(all.take(0) =~= Seq::empty());
    while i < errors.len()
        invariant
            i <= errors@.len(),
            all == error_views(errors@),
            cases@ == test_cases(all.take(i as int), relative_to@),
        decreases errors@.len() - i,
    {
        assert(all.take(i + 1).drop_last() =~= all.take(i as int));
        assert(all.take(i + 1).last() == errors@[i as int]@);
        let case = write_test_case(&errors[i], relative_to);
        cases.append(case.as_str());
        i = i + 1;
    }
    assert(all.take(i as int) =~= all);
    cat3(head.as_str(), cases.as_str(), "  </testsuite>\n</testsuites>\n")
}

} // verus!
