use percent_encoding::{percent_encode_byte, utf8_percent_encode, CONTROLS};
use vstd::prelude::*;

use crate::error::{Error, ErrorView, Severity};
use crate::paths::FilePath;
use crate::text::{cat2, cat3, cat5, cat9, chars_of, decimal, decimal_text};
use crate::xml::error_views;

verus! {

/// A hexadecimal digit.
pub open spec fn hex_digit(n: int) -> char {
    if n < 10 {
        (48 + n) as char
    } else {
        (55 + n) as char
    }
}

/// A byte as `%` and two hexadecimal digits.
pub open spec fn percent_byte(b: int) -> Seq<char> {
    seq!['%', hex_digit(b / 16), hex_digit(b % 16)]
}

/// The percent-encoding of a character: controls and what is not ASCII are written byte by byte, as
/// they stand in UTF-8.
pub open spec fn percent_char(c: char) -> Seq<char> {
    let n = c as int;
    if n < 0x20 || n == 0x7F {
        percent_byte(n)
    } else if n < 0x80 {
        seq![c]
    } else if n < 0x800 {
        percent_byte(0xC0 + n / 0x40) + percent_byte(0x80 + n % 0x40)
    } else if n < 0x10000 {
        percent_byte(0xE0 + n / 0x1000) + percent_byte(0x80 + n / 0x40 % 0x40) + percent_byte(
            0x80 + n % 0x40,
        )
    } else {
        percent_byte(0xF0 + n / 0x40000) + percent_byte(0x80 + n / 0x1000 % 0x40) + percent_byte(
            0x80 + n / 0x40 % 0x40,
        ) + percent_byte(0x80 + n % 0x40)
    }
}

/// The percent-encoding of a text.
pub open spec fn percent_text(s: Seq<char>) -> Seq<char>
    decreases s.len(),
{
    if s.len() == 0 {
        Seq::empty()
    } else {
        percent_text(s.drop_last()) + percent_char(s.last())
    }
}

/// `utf8_percent_encode` of `percent_encoding` with the set `CONTROLS`: each byte of the UTF-8
/// encoding that is not ASCII, below 0x20 or 0x7F becomes `%` and two upper-case hexadecimal
/// digits, and each other byte stays.
#[verifier::external_body]
fn encode_controls(value: &str) -> (r: String)
    ensures
        r@ == percent_text(value@),
{
    utf8_percent_encode(value, CONTROLS).to_string()
}

/// `percent_encode_byte` of `percent_encoding`: `%` and two upper-case hexadecimal digits.
#[verifier::external_body]
fn encode_byte(byte: u8) -> (r: String)
    ensures
        r@ == percent_byte(byte as int),
{
    percent_encode_byte(byte).to_owned()
}

/// A character in a workflow command, where the characters in `special` have a meaning there.
pub open spec fn escaped_char(c: char, special: Seq<char>) -> Seq<char> {
    if special.contains(c) {
        percent_byte(c as int)
    } else {
        percent_char(c)
    }
}

/// A text in a workflow command.
pub open spec fn escaped_text(s: Seq<char>, special: Seq<char>) -> Seq<char>
    decreases s.len(),
{
    if s.len() == 0 {
        Seq::empty()
    } else {
        escaped_text(s.drop_last(), special) + escaped_char(s.last(), special)
    }
}

/// The characters that have a meaning in the message of a workflow command.
pub open spec fn data_specials() -> Seq<char> {
    seq!['%']
}

/// The characters that have a meaning in the properties of a workflow command.
pub open spec fn property_specials() -> Seq<char> {
    seq!['%', ':', ',']
}

proof fn lemma_percent_text_concat(a: Seq<char>, b: Seq<char>)
    ensures
        percent_text(a + b) == percent_text(a) + percent_text(b),
    decreases b.len(),
{
    if b.len() == 0 {
        assert(a + b =~= a);
        assert(percent_text(a) + percent_text(b) =~= percent_text(a));
    } else {
        lemma_percent_text_concat(a, b.drop_last());
        assert((a + b).drop_last() =~= a + b.drop_last());
        assert((percent_text(a) + percent_text(b.drop_last())) + percent_char(b.last())
            =~= percent_text(a) + (percent_text(b.drop_last()) + percent_char(b.last())));
    }
}

proof fn lemma_percent_text_single(c: char)
    ensures
        percent_text(seq![c]) == percent_char(c),
{
    reveal_with_fuel(percent_text, 2);
    assert(seq![c].drop_last() =~= Seq::empty());
    assert(percent_text(seq![c]) =~= percent_char(c));
}

/// What was encoded once is not encoded again.
proof fn lemma_percent_byte_stays(b: int)
    requires
        0 <= b < 256,
    ensures
        percent_text(percent_byte(b)) == percent_byte(b),
{
    let t = percent_byte(b);
    let x = hex_digit(b / 16);
    let y = hex_digit(b % 16);
    assert(x as int == 48 + b / 16 || x as int == 55 + b / 16);
    assert(y as int == 48 + b % 16 || y as int == 55 + b % 16);
    assert(t =~= (seq!['%'] + seq![x]) + seq![y]);
    lemma_percent_text_concat(seq!['%'] + seq![x], seq![y]);
    lemma_percent_text_concat(seq!['%'], seq![x]);
    lemma_percent_text_single('%');
    lemma_percent_text_single(x);
    lemma_percent_text_single(y);
    assert(percent_text(t) =~= t);
}

fn check_special(c: char, special: &Vec<char>) -> (r: bool)
    ensures
        r == special@.contains(c),
{
    let mut i: usize = 0;
    while i < special.len()
        invariant
            i <= special@.len(),
            forall|k: int| 0 <= k < i ==> special@[k] != c,
        decreases special@.len() - i,
    {
        if special[i] == c {
            assert(special@[i as int] == c);
            return true;
        }
        i = i + 1;
    }
    false
}

fn get_byte(c: char) -> (r: u8)
    requires
        (c as int) < 256,
    ensures
        r as int == c as int,
{
    let n: u32 = c as u32;
    n as u8
}

/// Escapes a text for a workflow command.
fn escape(value: &str, special: &Vec<char>) -> (r: String)
    requires
        forall|i: int| 0 <= i < special@.len() ==> (#[trigger] special@[i] as int) < 128,
    ensures
        r@ == escaped_text(value@, special@),
{
    let chars = chars_of(value);
    let mut marked = String::new();
    let mut i: usize = 0;
    assert(chars@.take(0) =~= Seq::empty());
    assert(percent_text(marked@) =~= escaped_text(chars@.take(0), special@));
    while i < chars.len()
        invariant
            i <= chars@.len(),
            forall|k: int| 0 <= k < special@.len() ==> (#[trigger] special@[k] as int) < 128,
            percent_text(marked@) == escaped_text(chars@.take(i as int), special@),
        decreases chars@.len() - i,
    {
        assert(chars@.take(i + 1).drop_last() =~= chars@.take(i as int));
        assert(chars@.take(i + 1).last() == chars@[i as int]);
        let c: char = chars[i];
        let ghost before = marked@;
        if check_special(c, special) {
            assert(exists|k: int| 0 <= k < special@.len() && special@[k] == c);
            let code = encode_byte(get_byte(c));
            proof {
                lemma_percent_text_concat(before, code@);
                lemma_percent_byte_stays(c as int);
            }
            marked.append(code.as_str());
        } else {
            proof {
                lemma_percent_text_concat(before, seq![c]);
                lemma_percent_text_single(c);
            }
            marked.push(c);
            assert(marked@ =~= before + seq![c]);
        }
        i = i + 1;
    }
    assert(chars@.take(i as int) =~= chars@);
    encode_controls(marked.as_str())
}

/// Escapes the message of a workflow command.
pub fn escape_workflow_data(value: &str) -> (r: String)
    ensures
        r@ == escaped_text(value@, data_specials()),
{
    let special = vec!['%'];
    assert(special@ =~= data_specials());
    escape(value, &special)
}

/// Escapes a property of a workflow command.
pub fn escape_workflow_property(value: &str) -> (r: String)
    ensures
        r@ == escaped_text(value@, property_specials()),
{
    let special = vec!['%', ':', ','];
    assert(special@ =~= property_specials());
    escape(value, &special)
}

/// Whether a text is made of the visible characters of ASCII and blanks, and does not hold `c`.
pub open spec fn plain_without(s: Seq<char>, c: char) -> bool {
    forall|i: int| 0 <= i < s.len() ==> 0x20 <= (#[trigger] s[i]) as int <= 0x7E && s[i] != c
}

proof fn lemma_percent_byte_plain(b: int, c: char)
    requires
        0 <= b < 256,
        c == ':' || c == ',',
    ensures
        plain_without(percent_byte(b), c),
{
    let x = hex_digit(b / 16);
    let y = hex_digit(b % 16);
    assert(x as int == 48 + b / 16 || x as int == 55 + b / 16);
    assert(y as int == 48 + b % 16 || y as int == 55 + b % 16);
    let t = percent_byte(b);
    assert forall|i: int| 0 <= i < t.len() implies 0x20 <= (#[trigger] t[i]) as int <= 0x7E && t[i]
        != c by {
        if i == 1 {
            assert(t[i] == x);
        } else if i == 2 {
            assert(t[i] == y);
        }
    }
}

proof fn lemma_plain_concat(a: Seq<char>, b: Seq<char>, c: char)
    requires
        plain_without(a, c),
        plain_without(b, c),
    ensures
        plain_without(a + b, c),
{
    let t = a + b;
    assert forall|i: int| 0 <= i < t.len() implies 0x20 <= (#[trigger] t[i]) as int <= 0x7E && t[i]
        != c by {
        if i < a.len() {
            assert(t[i] == a[i]);
        } else {
            assert(t[i] == b[i - a.len()]);
        }
    }
}

proof fn lemma_escaped_char_plain(ch: char, c: char)
    requires
        c == ':' || c == ',',
    ensures
        plain_without(escaped_char(ch, property_specials()), c),
{
    let n = ch as int;
    let e = escaped_char(ch, property_specials());
    assert(property_specials()[0] == '%' && property_specials()[1] == ':' && property_specials()[2]
        == ',');
    if property_specials().contains(ch) {
        lemma_percent_byte_plain(n, c);
    } else if n < 0x20 || n == 0x7F {
        lemma_percent_byte_plain(n, c);
    } else if n < 0x80 {
        assert(ch != ':' && ch != ',');
        assert(e =~= seq![ch]);
    } else if n < 0x800 {
        lemma_percent_byte_plain(0xC0 + n / 0x40, c);
        lemma_percent_byte_plain(0x80 + n % 0x40, c);
        lemma_plain_concat(percent_byte(0xC0 + n / 0x40), percent_byte(0x80 + n % 0x40), c);
    } else if n < 0x10000 {
        let a = percent_byte(0xE0 + n / 0x1000);
        let b = percent_byte(0x80 + n / 0x40 % 0x40);
        let d = percent_byte(0x80 + n % 0x40);
        lemma_percent_byte_plain(0xE0 + n / 0x1000, c);
        lemma_percent_byte_plain(0x80 + n / 0x40 % 0x40, c);
        lemma_percent_byte_plain(0x80 + n % 0x40, c);
        lemma_plain_concat(a, b, c);
        lemma_plain_concat(a + b, d, c);
    } else {
        let a = percent_byte(0xF0 + n / 0x40000);
        let b = percent_byte(0x80 + n / 0x1000 % 0x40);
        let d = percent_byte(0x80 + n / 0x40 % 0x40);
        let f = percent_byte(0x80 + n % 0x40);
        assert(n <= 0x10FFFF);
        lemma_percent_byte_plain(0xF0 + n / 0x40000, c);
        lemma_percent_byte_plain(0x80 + n / 0x1000 % 0x40, c);
        lemma_percent_byte_plain(0x80 + n / 0x40 % 0x40, c);
        lemma_percent_byte_plain(0x80 + n % 0x40, c);
        lemma_plain_concat(a, b, c);
        lemma_plain_concat(a + b, d, c);
        lemma_plain_concat(a + b + d, f, c);
    }
}

/// A property of a workflow command stays within the command: once it is escaped, it holds no line
/// break, nor `:` or `,`, which would end it.
pub proof fn law_properties_stay_in_place(s: Seq<char>)
    ensures
        plain_without(escaped_text(s, property_specials()), ':'),
        plain_without(escaped_text(s, property_specials()), ','),
    decreases s.len(),
{
    if s.len() > 0 {
        law_properties_stay_in_place(s.drop_last());
        lemma_escaped_char_plain(s.last(), ':');
        lemma_escaped_char_plain(s.last(), ',');
        lemma_plain_concat(
            escaped_text(s.drop_last(), property_specials()),
            escaped_char(s.last(), property_specials()),
            ':',
        );
        lemma_plain_concat(
            escaped_text(s.drop_last(), property_specials()),
            escaped_char(s.last(), property_specials()),
            ',',
        );
    }
}

/// Whether a text stands on one line.
pub open spec fn one_line(s: Seq<char>) -> bool {
    forall|i: int| 0 <= i < s.len() ==> (#[trigger] s[i]) != '\n' && s[i] != '\r'
}

/// The message of a workflow command stands on one line, once it is escaped.
pub proof fn law_messages_stand_on_one_line(s: Seq<char>)
    ensures
        one_line(escaped_text(s, data_specials())),
    decreases s.len(),
{
    if s.len() > 0 {
        law_messages_stand_on_one_line(s.drop_last());
        let c = s.last();
        let before = escaped_text(s.drop_last(), data_specials());
        let e = escaped_char(c, data_specials());
        assert(data_specials()[0] == '%');
        if c == ':' || c == ',' {
            assert(!data_specials().contains(c));
            assert(e =~= seq![c]);
        } else {
            assert(property_specials()[0] == '%');
            assert(data_specials().contains(c) == property_specials().contains(c));
            lemma_escaped_char_plain(c, ':');
        }
        assert(one_line(e));
        let t = before + e;
        assert forall|i: int| 0 <= i < t.len() implies (#[trigger] t[i]) != '\n' && t[i] != '\r' by {
            if i < before.len() {
                assert(t[i] == before[i]);
            } else {
                assert(t[i] == e[i - before.len()]);
            }
        }
    }
}

/// The command for a severity.
pub open spec fn command_for(severity: Severity) -> Option<Seq<char>> {
    match severity {
        Severity::Ignore => None,
        Severity::Warn => Some("warning"@),
        Severity::Info => Some("notice"@),
        Severity::Error => Some("error"@),
    }
}

pub fn severity_to_github_command(severity: Severity) -> (r: Option<&'static str>)
    ensures
        match r {
            Some(t) => command_for(severity) == Some(t@),
            None => command_for(severity) is None,
        },
{
    match severity {
        Severity::Ignore => None,
        Severity::Warn => Some("warning"),
        Severity::Info => Some("notice"),
        Severity::Error => Some("error"),
    }
}

/// A path in a workflow command: its parts with slashes between them.
pub fn github_actions_path(path: &FilePath) -> (r: String)
    ensures
        r@ == path@.text(),
{
    path.to_text()
}

/// The workflow command that annotates a file with an error.
pub open spec fn workflow_command(error: ErrorView) -> Option<Seq<char>> {
    match command_for(error.severity) {
        None => None,
        Some(command) => {
            let d = error.display_range;
            Some(
                "::"@ + command + " file="@ + escaped_text(
                    error.module.path.text(),
                    property_specials(),
                ) + ",line="@ + decimal(d.start.line_within_file as nat) + ",col="@ + decimal(
                    d.start.column as nat,
                ) + ",endLine="@ + (decimal(d.end.line_within_file as nat) + ",endColumn="@
                    + decimal(d.end.column as nat) + ",title="@ + escaped_text(
                    "Pyrefly "@ + error.error_kind.name,
                    property_specials(),
                ) + "::"@ + escaped_text(error.msg(), data_specials())),
            )
        },
    }
}

/// The workflow command that annotates a file with an error; there is none for an ignored error.
pub fn github_actions_command(error: &Error) -> (r: Option<String>)
    ensures
        match r {
            Some(t) => workflow_command(error@) == Some(t@),
            None => workflow_command(error@) is None,
        },
{
    let command = match severity_to_github_command(error.severity) {
        None => {
            return None;
        },
        Some(command) => command,
    };
    let d = &error.display_range;
    let path = github_actions_path(&error.module.path);
    let file = escape_workflow_property(path.as_str());
    let line = decimal_text(d.start.line_within_file as u64);
    let col = decimal_text(d.start.column as u64);
    let end_line = decimal_text(d.end.line_within_file as u64);
    let end_col = decimal_text(d.end.column as u64);
    let name = cat2("Pyrefly ", error.error_kind.name.as_str());
    let title = escape_workflow_property(name.as_str());
    let msg = error.msg();
    let message = escape_workflow_data(msg.as_str());
    let head = cat9(
        "::",
        command,
        " file=",
        file.as_str(),
        ",line=",
        line.as_str(),
        ",col=",
        col.as_str(),
        ",endLine=",
    );
    let middle = cat5(
        end_line.as_str(),
        ",endColumn=",
        end_col.as_str(),
        ",title=",
        title.as_str(),
    );
    let tail = cat3(middle.as_str(), "::", message.as_str());
    Some(cat2(head.as_str(), tail.as_str()))
}

/// The workflow commands for errors, one on each line.
pub open spec fn workflow_commands(errors: Seq<ErrorView>) -> Seq<char>
    decreases errors.len(),
{
    if errors.len() == 0 {
        Seq::empty()
    } else {
        match workflow_command(errors.last()) {
            Some(command) => workflow_commands(errors.drop_last()) + command + "\n"@,
            None => workflow_commands(errors.drop_last()),
        }
    }
}

/// Writes the workflow commands for errors, one on each line.
pub fn write_error_github(errors: &Vec<Error>) -> (r: String)
    ensures
        r@ == workflow_commands(error_views(errors@)),
{
    let mut out = String::new();
    let mut i: usize = 0;
    let ghost all = error_views(errors@);
    assert(all.take(0) =~= Seq::empty());
    while i < errors.len()
        invariant
            i <= errors@.len(),
            all == error_views(errors@),
            out@ == workflow_commands(all.take(i as int)),
        decreases errors@.len() - i,
    {
        assert(all.take(i + 1).drop_last() =~= all.take(i as int));
        assert(all.take(i + 1).last() == errors@[i as int]@);
        if let Some(command) = github_actions_command(&errors[i]) {
            out = cat3(out.as_str(), command.as_str(), "\n");
        }
        i = i + 1;
    }
    assert(all.take(i as int) =~= all);
    out
}

} // verus!
