use vstd::prelude::*;

use crate::paths::FilePath;
use crate::text::{cat2, cat3, chars_of, join, joined, texts};

verus! {

/// The hash that `blake3::hash` gives of the UTF-8 encoding of a text, in hexadecimal digits.
pub uninterp spec fn hash_digits(text: Seq<char>) -> Seq<char>;

/// Calls `blake3::hash` on the UTF-8 encoding of a text and writes the hash as its `Display` does:
/// in 64 hexadecimal digits. They depend on the text alone. Which digits these are is not stated:
/// the hash function takes pages.
#[verifier::external_body]
fn hash_text(text: &str) -> (r: String)
    ensures
        r@ == hash_digits(text@),
        r@.len() == 64,
{
    blake3::hash(text.as_bytes()).to_string()
}

/// The file that the report on a module is written to. It is named by a hash of the path, so that
/// the name does not get too long.
pub fn report_file_name(path: &FilePath) -> (r: String)
    ensures
        r@ == hash_digits(path@.text()) + ".json"@,
        r@.len() == 69,
{
    let text = path.to_text();
    let digits = hash_text(text.as_str());
    proof {
        reveal_strlit(".json");
    }
    cat2(digits.as_str(), ".json")
}

/// Whether a name ends in `.js`, with something in front of it.
pub open spec fn is_javascript_name(name: Seq<char>) -> bool {
    name.len() > 3 && name.skip(name.len() - 3) == ".js"@
}

/// Whether debugging information is written as JavaScript: by the extension of the file.
pub fn is_javascript(path: &FilePath) -> (r: bool)
    ensures
        r == (path@.parts.len() > 0 && is_javascript_name(path@.parts.last())),
{
    let n: usize = path.parts.len();
    if n == 0 {
        return false;
    }
    let name = chars_of(path.parts[n - 1].as_str());
    let m: usize = name.len();
    assert(path@.parts.last() == path.parts@[n - 1]@);
    if m <= 3 {
        return false;
    }
    proof {
        reveal_strlit(".js");
        let tail = name@.skip(m - 3);
        assert(tail.len() == 3);
        if name@[m - 3] == '.' && name@[m - 2] == 'j' && name@[m - 1] == 's' {
            assert(tail =~= ".js"@);
        }
        assert(tail[0] == name@[m - 3] && tail[1] == name@[m - 2] && tail[2] == name@[m - 1]);
        assert(".js"@[0] == '.' && ".js"@[1] == 'j' && ".js"@[2] == 's');
    }
    name[m - 3] == '.' && name[m - 2] == 'j' && name[m - 1] == 's'
}

/// Changes to files, by what was done to them.
pub struct FileEvents {
    pub created: Vec<FilePath>,
    pub modified: Vec<FilePath>,
    pub removed: Vec<FilePath>,
    pub unknown: Vec<FilePath>,
}

/// What to do with changes to files.
pub enum WatchStep {
    /// Check again.
    Proceed,
    /// Wait for more changes.
    Wait,
    /// Give up, for this reason.
    Fail(String),
}

/// Paths as they are written.
pub open spec fn path_texts(paths: Seq<FilePath>) -> Seq<Seq<char>> {
    paths.map_values(|p: FilePath| p@.text())
}

/// Decides what to do with changes to files: known ones are acted on, nothing at all is waited out,
/// and what is not understood ends the watch.
pub fn watch_step(events: &FileEvents) -> (r: WatchStep)
    ensures
        ({
            let known = events.created@.len() > 0 || events.modified@.len() > 0
                || events.removed@.len() > 0;
            match r {
                WatchStep::Proceed => known,
                WatchStep::Wait => !known && events.unknown@.len() == 0,
                WatchStep::Fail(reason) => !known && events.unknown@.len() > 0 && reason@
                    == "Cannot handle uncategorized watcher event on paths ["@ + joined(
                    path_texts(events.unknown@),
                    ", "@,
                ) + "]"@,
            }
        }),
{
    if events.created.len() > 0 || events.modified.len() > 0 || events.removed.len() > 0 {
        return WatchStep::Proceed;
    }
    if events.unknown.len() == 0 {
        return WatchStep::Wait;
    }
    let mut names: Vec<String> = Vec::new();
    let mut i: usize = 0;
    let ghost wanted = path_texts(events.unknown@);
    assert(texts(names@) =~= wanted.take(0));
    while i < events.unknown.len()
        invariant
            i <= events.unknown@.len(),
            wanted == path_texts(events.unknown@),
            texts(names@) == wanted.take(i as int),
        decreases events.unknown@.len() - i,
    {
        let ghost before = names@;
        let text = events.unknown[i].to_text();
        names.push(text);
        assert(texts(names@) =~= texts(before).push(text@));
        assert(texts(names@) =~= wanted.take(i + 1));
        i = i + 1;
    }
    assert(wanted.take(i as int) =~= wanted);
    let all = join(&names, ", ");
    WatchStep::Fail(
        cat3("Cannot handle uncategorized watcher event on paths [", all.as_str(), "]"),
    )
}

} // verus!
