use vstd::prelude::*;

use crate::error::dupe_names;
use crate::text::{cat2, is_text, join, joined, same_name, texts};

verus! {

/// A path as the names between its separators. None of them is `.` or empty.
pub struct FilePath {
    pub absolute: bool,
    pub parts: Vec<String>,
}

/// A path as plain text.
#[verifier::ext_equal]
pub struct PathView {
    pub absolute: bool,
    pub parts: Seq<Seq<char>>,
}

impl View for FilePath {
    type V = PathView;

    open spec fn view(&self) -> PathView {
        PathView { absolute: self.absolute, parts: texts(self.parts@) }
    }
}

/// How many names two paths have in common at their beginnings.
pub open spec fn common(a: Seq<Seq<char>>, b: Seq<Seq<char>>) -> int
    decreases a.len(),
{
    if a.len() == 0 || b.len() == 0 || a[0] != b[0] {
        0
    } else {
        1 + common(a.drop_first(), b.drop_first())
    }
}

impl PathView {
    /// The path as text.
    pub open spec fn text(self) -> Seq<char> {
        if self.absolute {
            "/"@ + joined(self.parts, "/"@)
        } else {
            joined(self.parts, "/"@)
        }
    }

    /// Whether a path leads to `base` or below it.
    pub open spec fn is_under(self, base: PathView) -> bool {
        &&& common(self.parts, base.parts) == base.parts.len()
        &&& base.absolute ==> self.absolute
        &&& !base.absolute && self.absolute ==> base.parts.len() == 0
    }

    /// The rest of a path below `base`, where it leads there.
    pub open spec fn stripped(self, base: PathView) -> Option<PathView> {
        if self.is_under(base) {
            Some(
                PathView {
                    absolute: self.absolute && !base.absolute,
                    parts: self.parts.skip(base.parts.len() as int),
                },
            )
        } else {
            None
        }
    }

    /// The path as it is seen from `base`: up from `base` to where both part, and down from
    /// there. Where only one of the two is absolute, or the way up from `base` is not known, the
    /// path stays as it is.
    pub open spec fn relative_to(self, base: PathView) -> PathView {
        let n = common(self.parts, base.parts);
        if self.absolute != base.absolute || (n < self.parts.len() && n < base.parts.len()
            && base.parts[n] == ".."@) {
            self
        } else {
            PathView {
                absolute: false,
                parts: Seq::new((base.parts.len() - n) as nat, |i: int| ".."@) + self.parts.skip(n),
            }
        }
    }
}

pub(crate) proof fn lemma_common(a: Seq<Seq<char>>, b: Seq<Seq<char>>)
    ensures
        0 <= common(a, b) <= a.len(),
        common(a, b) <= b.len(),
        forall|i: int| 0 <= i < common(a, b) ==> a[i] == b[i],
        common(a, b) < a.len() && common(a, b) < b.len() ==> a[common(a, b)] != b[common(a, b)],
    decreases a.len(),
{
    if !(a.len() == 0 || b.len() == 0 || a[0] != b[0]) {
        let x = a.drop_first();
        let y = b.drop_first();
        lemma_common(x, y);
        assert forall|i: int| 0 <= i < common(a, b) implies a[i] == b[i] by {
            if i > 0 {
                assert(a[i] == x[i - 1]);
                assert(b[i] == y[i - 1]);
            }
        }
    }
}

proof fn lemma_common_is(a: Seq<Seq<char>>, b: Seq<Seq<char>>, n: int)
    requires
        0 <= n <= a.len(),
        n <= b.len(),
        forall|i: int| 0 <= i < n ==> a[i] == b[i],
        n < a.len() && n < b.len() ==> a[n] != b[n],
    ensures
        common(a, b) == n,
{
    lemma_common(a, b);
    let c = common(a, b);
    if c < n {
        assert(a[c] == b[c]);
    }
    if n < c {
        assert(a[n] == b[n]);
    }
}

/// Going down from a path and stripping the path again gives the way down.
pub proof fn law_stripping_undoes_joining(base: PathView, below: Seq<Seq<char>>)
    ensures
        (PathView { absolute: base.absolute, parts: base.parts + below }).stripped(base) == Some(
            PathView { absolute: false, parts: below },
        ),
{
    let whole = base.parts + below;
    lemma_common_is(whole, base.parts, base.parts.len() as int);
    assert(whole.skip(base.parts.len() as int) =~= below);
}

/// Below `base`, the path as it is seen from there is the rest of the path.
pub proof fn law_relative_path_below(path: PathView, base: PathView)
    requires
        path.absolute == base.absolute,
        path.is_under(base),
    ensures
        path.relative_to(base) == (PathView {
            absolute: false,
            parts: path.parts.skip(base.parts.len() as int),
        }),
{
    lemma_common(path.parts, base.parts);
    assert(path.relative_to(base).parts =~= path.parts.skip(base.parts.len() as int));
}

fn count_common(a: &Vec<String>, b: &Vec<String>) -> (r: usize)
    ensures
        r == common(texts(a@), texts(b@)),
        r <= a@.len(),
        r <= b@.len(),
{
    let mut i: usize = 0;
    while i < a.len() && i < b.len() && same_name(&a[i], &b[i])
        invariant
            i <= a@.len(),
            i <= b@.len(),
            forall|k: int| 0 <= k < i ==> texts(a@)[k] == texts(b@)[k],
        decreases a@.len() - i,
    {
        assert(texts(a@)[i as int] == a@[i as int]@);
        assert(texts(b@)[i as int] == b@[i as int]@);
        i = i + 1;
    }
    proof {
        lemma_common_is(texts(a@), texts(b@), i as int);
    }
    i
}

fn push_from(out: &mut Vec<String>, parts: &Vec<String>, from: usize)
    requires
        from <= parts@.len(),
    ensures
        texts(final(out)@) == texts(old(out)@) + texts(parts@).skip(from as int),
{
    let mut i: usize = from;
    assert(texts(out@) =~= texts(old(out)@) + texts(parts@).subrange(from as int, from as int));
    while i < parts.len()
        invariant
            from <= i <= parts@.len(),
            texts(out@) == texts(old(out)@) + texts(parts@).subrange(from as int, i as int),
        decreases parts@.len() - i,
    {
        let ghost before = out@;
        out.push(parts[i].clone());
        assert(texts(out@) =~= texts(before).push(parts@[i as int]@));
        assert(texts(out@) =~= texts(old(out)@) + texts(parts@).subrange(from as int, i + 1));
        i = i + 1;
    }
    assert(texts(parts@).subrange(from as int, i as int) =~= texts(parts@).skip(from as int));
}

impl FilePath {
    /// The same path once more.
    pub fn dupe(&self) -> (r: FilePath)
        ensures
            r@ == self@,
    {
        FilePath { absolute: self.absolute, parts: dupe_names(&self.parts) }
    }

    /// Whether two paths are the same.
    pub fn same(&self, other: &FilePath) -> (r: bool)
        ensures
            r == (self@ == other@),
    {
        let n = count_common(&self.parts, &other.parts);
        proof {
            lemma_common(texts(self.parts@), texts(other.parts@));
            if n == self.parts@.len() && n == other.parts@.len() {
                assert(texts(self.parts@) =~= texts(other.parts@));
            }
        }
        self.absolute == other.absolute && n == self.parts.len() && n == other.parts.len()
    }

    /// The path as text.
    pub fn to_text(&self) -> (r: String)
        ensures
            r@ == self@.text(),
    {
        let rest = join(&self.parts, "/");
        if self.absolute {
            cat2("/", rest.as_str())
        } else {
            rest
        }
    }

    /// The rest of the path below `base`, where it leads there.
    pub fn strip_prefix(&self, base: &FilePath) -> (r: Option<FilePath>)
        ensures
            match r {
                Some(p) => self@.stripped(base@) == Some(p@),
                None => self@.stripped(base@) is None,
            },
    {
        let n = count_common(&self.parts, &base.parts);
        if n != base.parts.len() || (base.absolute && !self.absolute) || (!base.absolute
            && self.absolute && base.parts.len() != 0) {
            return None;
        }
        let mut parts: Vec<String> = Vec::new();
        push_from(&mut parts, &self.parts, n);
        assert(texts(parts@) =~= texts(self.parts@).skip(n as int));
        Some(FilePath { absolute: self.absolute && !base.absolute, parts })
    }

    /// The path as it is seen from `base`.
    pub fn relativize_from(&self, base: &FilePath) -> (r: FilePath)
        ensures
            r@ == self@.relative_to(base@),
    {
        let n = count_common(&self.parts, &base.parts);
        if self.absolute != base.absolute {
            return self.dupe();
        }
        if n < self.parts.len() && n < base.parts.len() && is_text(&base.parts[n], "..") {
            assert(texts(base.parts@)[n as int] == base.parts@[n as int]@);
            return self.dupe();
        }
        let mut parts: Vec<String> = Vec::new();
        let mut i: usize = n;
        assert(texts(parts@) =~= Seq::new(0, |k: int| ".."@));
        while i < base.parts.len()
            invariant
                n <= i <= base.parts@.len(),
                texts(parts@) == Seq::new((i - n) as nat, |k: int| ".."@),
            decreases base.parts@.len() - i,
        {
            let ghost before = parts@;
            let up = "..".to_owned();
            parts.push(up);
            assert(texts(parts@) =~= texts(before).push(up@));
            assert(texts(parts@) =~= Seq::new((i + 1 - n) as nat, |k: int| ".."@));
            i = i + 1;
        }
        push_from(&mut parts, &self.parts, n);
        FilePath { absolute: false, parts }
    }
}

} // verus!
