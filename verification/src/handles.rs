use vstd::prelude::*;

use crate::ordered::{id_elements, id_set, id_set_contains, id_set_insert, with_element};
use crate::paths::{FilePath, PathView};

verus! {

/// The files to check, each of them once.
pub struct Handles {
    pub paths: Vec<FilePath>,
}

/// Paths as plain text.
pub open spec fn path_views(paths: Seq<FilePath>) -> Seq<PathView> {
    paths.map_values(|p: FilePath| p@)
}

/// The paths after those in `more` were added, each of them once.
pub open spec fn with_paths(paths: Seq<PathView>, more: Seq<PathView>) -> Seq<PathView>
    decreases more.len(),
{
    if more.len() == 0 {
        paths
    } else {
        with_element(with_paths(paths, more.drop_last()), more.last())
    }
}

/// The paths that are not in `gone`.
pub open spec fn without_paths(paths: Seq<PathView>, gone: Seq<PathView>) -> Seq<PathView>
    decreases paths.len(),
{
    if paths.len() == 0 {
        Seq::empty()
    } else if gone.contains(paths.last()) {
        without_paths(paths.drop_last(), gone)
    } else {
        without_paths(paths.drop_last(), gone).push(paths.last())
    }
}

fn holds_path(paths: &Vec<FilePath>, path: &FilePath) -> (r: bool)
    ensures
        r == path_views(paths@).contains(path@),
{
    let mut i: usize = 0;
    while i < paths.len()
        invariant
            i <= paths@.len(),
            forall|k: int| 0 <= k < i ==> path_views(paths@)[k] != path@,
        decreases paths@.len() - i,
    {
        assert(path_views(paths@)[i as int] == paths@[i as int]@);
        if paths[i].same(path) {
            return true;
        }
        i = i + 1;
    }
    false
}

impl View for Handles {
    type V = Seq<PathView>;

    open spec fn view(&self) -> Seq<PathView> {
        path_views(self.paths@)
    }
}

impl Handles {
    /// No file is there twice.
    pub open spec fn wf(self) -> bool {
        self@.no_duplicates()
    }

    fn insert_all(&mut self, files: &Vec<FilePath>)
        requires
            old(self).wf(),
        ensures
            final(self).wf(),
            final(self)@ == with_paths(old(self)@, path_views(files@)),
    {
        let ghost all = path_views(files@);
        let mut i: usize = 0;
        assert(all.take(0) =~= Seq::empty());
        while i < files.len()
            invariant
                i <= files@.len(),
                all == path_views(files@),
                self.wf(),
                self@ == with_paths(old(self)@, all.take(i as int)),
            decreases files@.len() - i,
        {
            proof {
                assert(all.take(i + 1).drop_last() =~= all.take(i as int));
                assert(all.take(i + 1).last() == files@[i as int]@);
            }
            if !holds_path(&self.paths, &files[i]) {
                let ghost before = self@;
                let copy = files[i].dupe();
                self.paths.push(copy);
                assert(self@ =~= before.push(copy@));
                assert(self@.no_duplicates());
            }
            i = i + 1;
        }
        assert(all.take(i as int) =~= all);
    }

    /// The handles of files; a file that is named twice counts once.
    pub fn new(files: &Vec<FilePath>) -> (r: Handles)
        ensures
            r.wf(),
            r@ == with_paths(Seq::empty(), path_views(files@)),
    {
        let mut handles = Handles { paths: Vec::new() };
        assert(handles@ =~= Seq::empty());
        handles.insert_all(files);
        handles
    }

    pub fn is_empty(&self) -> (r: bool)
        ensures
            r == (self@.len() == 0),
    {
        self.paths.len() == 0
    }

    pub fn len(&self) -> (r: usize)
        ensures
            r == self@.len(),
    {
        self.paths.len()
    }

    /// Takes in files that were created, and then leaves out files that were removed.
    pub fn update(&mut self, created: &Vec<FilePath>, removed: &Vec<FilePath>)
        requires
            old(self).wf(),
        ensures
            final(self).wf(),
            final(self)@ == without_paths(
                with_paths(old(self)@, path_views(created@)),
                path_views(removed@),
            ),
    {
        self.insert_all(created);
        let ghost all = self@;
        let mut kept: Vec<FilePath> = Vec::new();
        let mut i: usize = 0;
        assert(all.take(0) =~= Seq::empty());
        assert(path_views(kept@) =~= Seq::empty());
        while i < self.paths.len()
            invariant
                i <= self.paths@.len(),
                all == self@,
                all.no_duplicates(),
                path_views(kept@) == without_paths(all.take(i as int), path_views(removed@)),
                path_views(kept@).no_duplicates(),
                forall|p: PathView| #[trigger]
                    path_views(kept@).contains(p) ==> all.take(i as int).contains(p),
            decreases self.paths@.len() - i,
        {
            let ghost before = path_views(kept@);
            let ghost path = self.paths@[i as int]@;
            proof {
                assert(all.take(i + 1).drop_last() =~= all.take(i as int));
                assert(all.take(i + 1).last() == all[i as int]);
                assert(all[i as int] == path);
                assert forall|p: PathView| all.take(i as int).contains(p) implies all.take(
                    i + 1,
                ).contains(p) by {
                    let k = choose|k: int|
                        0 <= k < all.take(i as int).len() && all.take(i as int)[k] == p;
                    assert(all.take(i + 1)[k] == p);
                }
                assert(!all.take(i as int).contains(path)) by {
                    if all.take(i as int).contains(path) {
                        let k = choose|k: int|
                            0 <= k < all.take(i as int).len() && all.take(i as int)[k] == path;
                        assert(all[k] == path);
                    }
                }
                assert(all.take(i + 1)[i as int] == path);
            }
            if !holds_path(removed, &self.paths[i]) {
                let copy = self.paths[i].dupe();
                kept.push(copy);
                assert(path_views(kept@) =~= before.push(copy@));
                assert(!before.contains(path));
                assert forall|p: PathView| #[trigger] path_views(kept@).contains(p) implies all.take(
                    i + 1,
                ).contains(p) by {
                    let k = choose|k: int| 0 <= k < path_views(kept@).len() && path_views(kept@)[k]
                        == p;
                    if k < before.len() {
                        assert(before[k] == p);
                        assert(before.contains(p));
                    }
                }
            }
            i = i + 1;
        }
        assert(all.take(i as int) =~= all);
        self.paths = kept;
    }
}

/// A file that was removed is not checked any more, and a file that was created is, unless it was
/// removed as well.
pub proof fn law_updates_follow_the_files(
    paths: Seq<PathView>,
    created: Seq<PathView>,
    removed: Seq<PathView>,
    path: PathView,
)
    ensures
        without_paths(with_paths(paths, created), removed).contains(path) <==> (paths.contains(path)
            || created.contains(path)) && !removed.contains(path),
{
    lemma_with_paths(paths, created, path);
    lemma_without_paths(with_paths(paths, created), removed, path);
}

proof fn lemma_push_contains(s: Seq<PathView>, x: PathView, y: PathView)
    ensures
        s.push(x).contains(y) == (s.contains(y) || x == y),
{
    if s.contains(y) {
        let i = choose|i: int| 0 <= i < s.len() && s[i] == y;
        assert(s.push(x)[i] == y);
    }
    if x == y {
        assert(s.push(x)[s.len() as int] == y);
    }
    if s.push(x).contains(y) {
        let i = choose|i: int| 0 <= i < s.push(x).len() && s.push(x)[i] == y;
        if i < s.len() {
            assert(s[i] == y);
        }
    }
}

proof fn lemma_with_paths(paths: Seq<PathView>, more: Seq<PathView>, path: PathView)
    ensures
        with_paths(paths, more).contains(path) <==> paths.contains(path) || more.contains(path),
    decreases more.len(),
{
    if more.len() > 0 {
        lemma_with_paths(paths, more.drop_last(), path);
        assert(more =~= more.drop_last().push(more.last()));
        lemma_push_contains(more.drop_last(), more.last(), path);
        lemma_push_contains(with_paths(paths, more.drop_last()), more.last(), path);
        lemma_with_paths(paths, more.drop_last(), more.last());
    }
}

proof fn lemma_without_paths(paths: Seq<PathView>, gone: Seq<PathView>, path: PathView)
    ensures
        without_paths(paths, gone).contains(path) <==> paths.contains(path) && !gone.contains(path),
    decreases paths.len(),
{
    if paths.len() > 0 {
        lemma_without_paths(paths.drop_last(), gone, path);
        assert(paths =~= paths.drop_last().push(paths.last()));
        lemma_push_contains(paths.drop_last(), paths.last(), path);
        lemma_push_contains(without_paths(paths.drop_last(), gone), paths.last(), path);
    }
}

/// The configurations that occur, in the order in which they first occur.
pub open spec fn firsts(configs: Seq<u64>) -> Seq<u64>
    decreases configs.len(),
{
    if configs.len() == 0 {
        Seq::empty()
    } else {
        with_element(firsts(configs.drop_last()), configs.last())
    }
}

/// The places of the files that have a configuration.
pub open spec fn places_of(configs: Seq<u64>, config: u64) -> Seq<int>
    decreases configs.len(),
{
    if configs.len() == 0 {
        Seq::empty()
    } else if configs.last() == config {
        places_of(configs.drop_last(), config).push(configs.len() - 1)
    } else {
        places_of(configs.drop_last(), config)
    }
}

/// The files one configuration after the other.
pub open spec fn grouped(configs: Seq<u64>, order: Seq<u64>) -> Seq<int>
    decreases order.len(),
{
    if order.len() == 0 {
        Seq::empty()
    } else {
        grouped(configs, order.drop_last()) + places_of(configs, order.last())
    }
}

/// The configurations among `configs` that were loaded anew.
pub open spec fn reloaded_of(configs: Seq<u64>, reloaded: Seq<u64>) -> Seq<u64>
    decreases configs.len(),
{
    if configs.len() == 0 {
        Seq::empty()
    } else if reloaded.contains(configs.last()) {
        reloaded_of(configs.drop_last(), reloaded).push(configs.last())
    } else {
        reloaded_of(configs.drop_last(), reloaded)
    }
}

/// Places as numbers.
pub open spec fn place_views(places: Seq<usize>) -> Seq<int> {
    places.map_values(|p: usize| p as int)
}

fn push_places(out: &mut Vec<usize>, configs: &Vec<u64>, config: u64)
    ensures
        place_views(final(out)@) == place_views(old(out)@) + places_of(configs@, config),
{
    let mut i: usize = 0;
    assert(configs@.take(0) =~= Seq::empty());
    assert(place_views(out@) =~= place_views(old(out)@) + places_of(configs@.take(0), config));
    while i < configs.len()
        invariant
            i <= configs@.len(),
            place_views(out@) == place_views(old(out)@) + places_of(
                configs@.take(i as int),
                config,
            ),
        decreases configs@.len() - i,
    {
        assert(configs@.take(i + 1).drop_last() =~= configs@.take(i as int));
        assert(configs@.take(i + 1).last() == configs@[i as int]);
        let ghost before = out@;
        if configs[i] == config {
            out.push(i);
            assert(place_views(out@) =~= place_views(before).push(i as int));
        }
        assert(place_views(out@) =~= place_views(old(out)@) + places_of(
            configs@.take(i + 1),
            config,
        ));
        i = i + 1;
    }
    assert(configs@.take(i as int) =~= configs@);
}

fn holds_number(numbers: &Vec<u64>, n: u64) -> (r: bool)
    ensures
        r == numbers@.contains(n),
{
    let mut i: usize = 0;
    while i < numbers.len()
        invariant
            i <= numbers@.len(),
            forall|k: int| 0 <= k < i ==> numbers@[k] != n,
        decreases numbers@.len() - i,
    {
        if numbers[i] == n {
            return true;
        }
        i = i + 1;
    }
    false
}

/// Groups files by their configurations: the places of the files, one configuration after the
/// other, and those configurations that were loaded anew. `configs` holds the configuration of each
/// file.
pub fn group_by_config(configs: &Vec<u64>, reloaded: &Vec<u64>) -> (r: (Vec<usize>, Vec<u64>))
    ensures
        place_views((r.0)@) == grouped(configs@, firsts(configs@)),
        (r.1)@ == reloaded_of(firsts(configs@), reloaded@),
{
    let mut seen = id_set();
    let mut order: Vec<u64> = Vec::new();
    let mut i: usize = 0;
    assert(configs@.take(0) =~= Seq::empty());
    while i < configs.len()
        invariant
            i <= configs@.len(),
            id_elements(seen) == firsts(configs@.take(i as int)),
            order@ == firsts(configs@.take(i as int)),
        decreases configs@.len() - i,
    {
        assert(configs@.take(i + 1).drop_last() =~= configs@.take(i as int));
        assert(configs@.take(i + 1).last() == configs@[i as int]);
        if !id_set_contains(&seen, configs[i]) {
            order.push(configs[i]);
        }
        id_set_insert(&mut seen, configs[i]);
        i = i + 1;
    }
    assert(configs@.take(i as int) =~= configs@);
    let mut places: Vec<usize> = Vec::new();
    let mut again: Vec<u64> = Vec::new();
    let mut k: usize = 0;
    assert(order@.take(0) =~= Seq::empty());
    assert(place_views(places@) =~= Seq::empty());
    while k < order.len()
        invariant
            k <= order@.len(),
            place_views(places@) == grouped(configs@, order@.take(k as int)),
            again@ == reloaded_of(order@.take(k as int), reloaded@),
        decreases order@.len() - k,
    {
        assert(order@.take(k + 1).drop_last() =~= order@.take(k as int));
        assert(order@.take(k + 1).last() == order@[k as int]);
        push_places(&mut places, configs, order[k]);
        if holds_number(reloaded, order[k]) {
            again.push(order[k]);
        }
        k = k + 1;
    }
    assert(order@.take(k as int) =~= order@);
    (places, again)
}

proof fn lemma_places(configs: Seq<u64>, config: u64)
    ensures
        forall|i: int|
            0 <= i < places_of(configs, config).len() ==> 0 <= (#[trigger] places_of(
                configs,
                config,
            )[i]) < configs.len() && configs[places_of(configs, config)[i]] == config,
        forall|k: int|
            0 <= k < configs.len() && configs[k] == config ==> #[trigger] places_of(
                configs,
                config,
            ).contains(k),
        places_of(configs, config).no_duplicates(),
    decreases configs.len(),
{
    if configs.len() > 0 {
        let rest = configs.drop_last();
        lemma_places(rest, config);
        let before = places_of(rest, config);
        let after = places_of(configs, config);
        assert forall|i: int| 0 <= i < after.len() implies 0 <= (#[trigger] after[i])
            < configs.len() && configs[after[i]] == config by {
            if i < before.len() {
                assert(after[i] == before[i]);
                assert(rest[before[i]] == configs[before[i]]);
            }
        }
        assert forall|k: int|
            0 <= k < configs.len() && configs[k] == config implies #[trigger] after.contains(k) by {
            if k < rest.len() {
                assert(rest[k] == config);
                assert(before.contains(k));
                let i = choose|i: int| 0 <= i < before.len() && before[i] == k;
                assert(after[i] == k);
            } else {
                assert(after[after.len() - 1] == k);
            }
        }
        assert forall|i: int, j: int|
            0 <= i < after.len() && 0 <= j < after.len() && i != j implies after[i] != after[j] by {
            if i < before.len() {
                assert(after[i] == before[i]);
            }
            if j < before.len() {
                assert(after[j] == before[j]);
            }
        }
    }
}

proof fn lemma_grouped(configs: Seq<u64>, order: Seq<u64>, k: int)
    requires
        0 <= k < configs.len(),
    ensures
        order.contains(configs[k]) ==> grouped(configs, order).contains(k),
    decreases order.len(),
{
    if order.len() > 0 {
        let rest = order.drop_last();
        let first = grouped(configs, rest);
        let more = places_of(configs, order.last());
        lemma_grouped(configs, rest, k);
        lemma_places(configs, order.last());
        if order.contains(configs[k]) {
            let i = choose|i: int| 0 <= i < order.len() && order[i] == configs[k];
            if i < rest.len() {
                assert(rest[i] == configs[k]);
                let j = choose|j: int| 0 <= j < first.len() && first[j] == k;
                assert((first + more)[j] == k);
            } else {
                assert(more.contains(k));
                let j = choose|j: int| 0 <= j < more.len() && more[j] == k;
                assert((first + more)[first.len() + j] == k);
            }
        }
    }
}

proof fn lemma_grouped_once(configs: Seq<u64>, order: Seq<u64>)
    requires
        order.no_duplicates(),
    ensures
        grouped(configs, order).no_duplicates(),
        forall|i: int|
            0 <= i < grouped(configs, order).len() ==> 0 <= (#[trigger] grouped(
                configs,
                order,
            )[i]) < configs.len() && order.contains(configs[grouped(configs, order)[i]]),
    decreases order.len(),
{
    if order.len() > 0 {
        let rest = order.drop_last();
        let first = grouped(configs, rest);
        let more = places_of(configs, order.last());
        let all = first + more;
        assert forall|i: int, j: int|
            0 <= i < rest.len() && 0 <= j < rest.len() && i != j implies rest[i] != rest[j] by {
            assert(rest[i] == order[i] && rest[j] == order[j]);
        }
        lemma_grouped_once(configs, rest);
        lemma_places(configs, order.last());
        assert forall|i: int| 0 <= i < all.len() implies 0 <= (#[trigger] all[i]) < configs.len()
            && order.contains(configs[all[i]]) by {
            if i < first.len() {
                assert(all[i] == first[i]);
                assert(rest.contains(configs[first[i]]));
                let k = choose|k: int| 0 <= k < rest.len() && rest[k] == configs[first[i]];
                assert(order[k] == configs[all[i]]);
            } else {
                assert(all[i] == more[i - first.len()]);
                assert(order[order.len() - 1] == configs[all[i]]);
            }
        }
        assert forall|i: int, j: int|
            0 <= i < all.len() && 0 <= j < all.len() && i != j implies all[i] != all[j] by {
            if i < first.len() && j >= first.len() {
                lemma_groups_apart(configs, order, i, j);
            } else if j < first.len() && i >= first.len() {
                lemma_groups_apart(configs, order, j, i);
            } else if i < first.len() {
                assert(all[i] == first[i] && all[j] == first[j]);
            } else {
                assert(all[i] == more[i - first.len()] && all[j] == more[j - first.len()]);
            }
        }
    }
}

proof fn lemma_groups_apart(configs: Seq<u64>, order: Seq<u64>, i: int, j: int)
    requires
        order.len() > 0,
        order.no_duplicates(),
        0 <= i < grouped(configs, order.drop_last()).len(),
        grouped(configs, order.drop_last()).len() <= j < grouped(configs, order).len(),
    ensures
        grouped(configs, order)[i] != grouped(configs, order)[j],
    decreases order.len(), 0int,
{
    let rest = order.drop_last();
    let first = grouped(configs, rest);
    let more = places_of(configs, order.last());
    lemma_places(configs, order.last());
    assert(grouped(configs, order)[j] == more[j - first.len()]);
    assert(grouped(configs, order)[i] == first[i]);
    lemma_group_member(configs, rest, i);
    let k = choose|k: int| 0 <= k < rest.len() && rest[k] == configs[first[i]];
    assert(order[k] == rest[k]);
    assert(order[k] != order[order.len() - 1]);
}

proof fn lemma_group_member(configs: Seq<u64>, order: Seq<u64>, i: int)
    requires
        0 <= i < grouped(configs, order).len(),
    ensures
        0 <= grouped(configs, order)[i] < configs.len(),
        order.contains(configs[grouped(configs, order)[i]]),
    decreases order.len(),
{
    let rest = order.drop_last();
    let first = grouped(configs, rest);
    let more = places_of(configs, order.last());
    if i < first.len() {
        lemma_group_member(configs, rest, i);
        let k = choose|k: int| 0 <= k < rest.len() && rest[k] == configs[first[i]];
        assert(order[k] == rest[k]);
        assert(grouped(configs, order)[i] == first[i]);
    } else {
        lemma_places(configs, order.last());
        assert(grouped(configs, order)[i] == more[i - first.len()]);
        assert(order[order.len() - 1] == configs[grouped(configs, order)[i]]);
    }
}

proof fn lemma_firsts(configs: Seq<u64>)
    ensures
        firsts(configs).no_duplicates(),
        forall|k: int| 0 <= k < configs.len() ==> firsts(configs).contains(#[trigger] configs[k]),
    decreases configs.len(),
{
    if configs.len() > 0 {
        let rest = configs.drop_last();
        let before = firsts(rest);
        let after = firsts(configs);
        lemma_firsts(rest);
        assert forall|k: int| 0 <= k < configs.len() implies after.contains(
            #[trigger] configs[k],
        ) by {
            if k < rest.len() {
                assert(rest[k] == configs[k]);
                let i = choose|i: int| 0 <= i < before.len() && before[i] == rest[k];
                assert(after[i] == configs[k]);
            } else if before.contains(configs[k]) {
                let i = choose|i: int| 0 <= i < before.len() && before[i] == configs[k];
                assert(after[i] == configs[k]);
            } else {
                assert(after[after.len() - 1] == configs[k]);
            }
        }
    }
}

/// Grouping files by their configurations keeps each of them, once.
pub proof fn law_grouping_keeps_each_file(configs: Seq<u64>)
    ensures
        grouped(configs, firsts(configs)).no_duplicates(),
        forall|k: int|
            #[trigger] grouped(configs, firsts(configs)).contains(k) <==> 0 <= k < configs.len(),
{
    let order = firsts(configs);
    lemma_firsts(configs);
    lemma_grouped_once(configs, order);
    assert forall|k: int|
        #[trigger] grouped(configs, order).contains(k) <==> 0 <= k < configs.len() by {
        if 0 <= k < configs.len() {
            assert(order.contains(configs[k]));
            lemma_grouped(configs, order, k);
        }
    }
}

} // verus!
