use vstd::prelude::*;

use crate::stub::{
    item_view, item_views, opt_text, param_views, ClassStubView, ItemView, ParamView, StubClass,
    StubImport, StubItem, StubParam,
};
use crate::text::{
    begins_with, cat5, chars_of, find_char, is_text, join, joined, matches_at, string_of, texts,
};
use crate::words::{
    byte_len, byte_prefix, contains_whole_word, count_bytes, cuts_at, find_cut, has_word,
    lemma_first_index, pieces, trim_range, trimmed,
};

verus! {

/// The text of an optional text.
pub open spec fn or_nothing(text: Option<Seq<char>>) -> Seq<char> {
    match text {
        Some(t) => t,
        None => Seq::empty(),
    }
}

pub open spec fn concat(parts: Seq<Seq<char>>) -> Seq<char>
    decreases parts.len(),
{
    if parts.len() == 0 {
        Seq::empty()
    } else {
        concat(parts.drop_last()) + parts.last()
    }
}

pub open spec fn params_content(params: Seq<ParamView>) -> Seq<char>
    decreases params.len(),
{
    if params.len() == 0 {
        Seq::empty()
    } else {
        params_content(params.drop_last()) + params.last().name + or_nothing(
            params.last().annotation,
        ) + or_nothing(params.last().default)
    }
}

/// The text in which the use of an imported name is looked for: everything but imports and
/// docstrings, without anything in between.
pub open spec fn item_content(item: ItemView) -> Seq<char>
    decreases item,
{
    match item {
        ItemView::Import(_) => Seq::empty(),
        ItemView::Function(f) => concat(f.decorators) + f.name + params_content(f.params)
            + or_nothing(f.return_type),
        ItemView::Class(c) => c.name + c.bases + concat(c.decorators) + items_content(c.body),
        ItemView::Variable(v) => v.name + or_nothing(v.annotation) + or_nothing(v.value),
        ItemView::TypeAlias(t) => t,
    }
}

/// The text of items in which the use of an imported name is looked for.
pub open spec fn items_content(items: Seq<ItemView>) -> Seq<char>
    decreases items,
{
    if items.len() == 0 {
        Seq::empty()
    } else {
        items_content(items.drop_last()) + item_content(items.last())
    }
}

fn push_or_nothing(out: &mut String, text: &Option<String>)
    ensures
        final(out)@ == old(out)@ + or_nothing(opt_text(*text)),
{
    if let Some(t) = text {
        out.append(t.as_str());
    }
    assert(out@ =~= old(out)@ + or_nothing(opt_text(*text)));
}

fn push_all(out: &mut String, parts: &Vec<String>)
    ensures
        final(out)@ == old(out)@ + concat(texts(parts@)),
{
    let ghost views = texts(parts@);
    let mut i: usize = 0;
    assert(views.take(0) =~= Seq::empty());
    assert(out@ =~= old(out)@ + Seq::<char>::empty());
    while i < parts.len()
        invariant
            i <= parts@.len(),
            views == texts(parts@),
            out@ == old(out)@ + concat(views.take(i as int)),
        decreases parts@.len() - i,
    {
        assert(views.take(i + 1).drop_last() =~= views.take(i as int));
        assert(views.take(i + 1).last() == parts@[i as int]@);
        out.append(parts[i].as_str());
        assert(out@ =~= old(out)@ + concat(views.take(i + 1)));
        i = i + 1;
    }
    assert(views.take(i as int) =~= views);
}

fn push_params(out: &mut String, params: &Vec<StubParam>)
    ensures
        final(out)@ == old(out)@ + params_content(param_views(params@)),
{
    let ghost views = param_views(params@);
    let mut i: usize = 0;
    assert(views.take(0) =~= Seq::empty());
    assert(out@ =~= old(out)@ + Seq::<char>::empty());
    while i < params.len()
        invariant
            i <= params@.len(),
            views == param_views(params@),
            out@ == old(out)@ + params_content(views.take(i as int)),
        decreases params@.len() - i,
    {
        assert(views.take(i + 1).drop_last() =~= views.take(i as int));
        assert(views.take(i + 1).last() == params@[i as int]@);
        out.append(params[i].name.as_str());
        push_or_nothing(out, &params[i].annotation);
        push_or_nothing(out, &params[i].default);
        assert(out@ =~= old(out)@ + params_content(views.take(i + 1)));
        i = i + 1;
    }
    assert(views.take(i as int) =~= views);
}

fn append_stub_item_text(item: &StubItem, out: &mut String)
    ensures
        final(out)@ == old(out)@ + item_content(item_view(*item)),
    decreases item, 1int,
{
    match item {
        StubItem::Import(_) => {},
        StubItem::Function(f) => {
            push_all(out, &f.decorators);
            out.append(f.name.as_str());
            push_params(out, &f.params);
            push_or_nothing(out, &f.return_type);
        },
        StubItem::Class(c) => {
            out.append(c.name.as_str());
            out.append(c.bases.as_str());
            push_all(out, &c.decorators);
            assert(decreases_to!(item => c.body));
            append_stub_items_text(&c.body, out);
        },
        StubItem::Variable(v) => {
            out.append(v.name.as_str());
            push_or_nothing(out, &v.annotation);
            push_or_nothing(out, &v.value);
        },
        StubItem::TypeAlias(t) => {
            out.append(t.text.as_str());
        },
    }
    assert(out@ =~= old(out)@ + item_content(item_view(*item)));
}

fn append_stub_items_text(items: &Vec<StubItem>, out: &mut String)
    ensures
        final(out)@ == old(out)@ + items_content(item_views(items@)),
    decreases items, 1int,
{
    let ghost views = item_views(items@);
    proof {
        crate::stub::lemma_item_views(items@);
    }
    let mut i: usize = 0;
    assert(views.take(0) =~= Seq::empty());
    assert(out@ =~= old(out)@ + Seq::<char>::empty());
    while i < items.len()
        invariant
            i <= items@.len(),
            views == item_views(items@),
            views.len() == items@.len(),
            forall|k: int| 0 <= k < items@.len() ==> #[trigger] views[k] == item_view(items@[k]),
            out@ == old(out)@ + items_content(views.take(i as int)),
        decreases items@.len() - i,
    {
        assert(views.take(i + 1).drop_last() =~= views.take(i as int));
        assert(views.take(i + 1).last() == views[i as int]);
        assert(decreases_to!(items => items@[i as int]));
        append_stub_item_text(&items[i], out);
        assert(out@ =~= old(out)@ + items_content(views.take(i + 1)));
        i = i + 1;
    }
    assert(views.take(i as int) =~= views);
}

/// The names of an import list that are kept: all that are not empty, but `symbol` only where it
/// is used.
pub open spec fn kept_names(raw: Seq<Seq<char>>, symbol: Seq<char>, used: bool) -> Seq<Seq<char>>
    decreases raw.len(),
{
    if raw.len() == 0 {
        Seq::empty()
    } else {
        let before = kept_names(raw.drop_last(), symbol, used);
        let name = trimmed(raw.last());
        if name.len() == 0 || (!used && name == symbol) {
            before
        } else {
            before.push(name)
        }
    }
}

/// An import list without a symbol that is not used; nothing where no name is left.
pub open spec fn pruned_list(
    indent: Seq<char>,
    module: Seq<char>,
    after_import: Seq<char>,
    symbol: Seq<char>,
    body: Seq<char>,
) -> Seq<char> {
    let names = kept_names(pieces(after_import, ','), symbol, has_word(body, symbol));
    if names.len() == 0 {
        Seq::empty()
    } else {
        indent + "from "@ + module + " import "@ + joined(names, ", "@)
    }
}

fn keep_names(chars: &Vec<char>, start: usize, symbol: &str, used: bool) -> (r: Vec<String>)
    requires
        start <= chars@.len(),
    ensures
        texts(r@) == kept_names(pieces(chars@.skip(start as int), ','), symbol@, used),
{
    let mut names: Vec<String> = Vec::new();
    let n: usize = chars.len();
    let mut from: usize = start;
    let ghost whole = pieces(chars@.skip(start as int), ',');
    let ghost mut done: Seq<Seq<char>> = Seq::empty();
    let mut more = true;
    assert(texts(names@) =~= kept_names(done, symbol@, used));
    assert(whole =~= done + pieces(chars@.skip(from as int), ','));
    while more
        invariant
            from <= n == chars@.len(),
            texts(names@) == kept_names(done, symbol@, used),
            more ==> whole == done + pieces(chars@.skip(from as int), ','),
            !more ==> whole == done,
        decreases
                chars@.len() - from,
                if more {
                    1int
                } else {
                    0int
                },
    {
        let ghost rest = chars@.skip(from as int);
        proof {
            lemma_first_index(rest, ',');
        }
        let found = find_char(chars, from, ',');
        let to: usize = match found {
            Some(i) => i,
            None => chars.len(),
        };
        let (a, b) = trim_range(chars, from, to);
        let name = string_of(chars, a, b);
        let ghost piece = chars@.subrange(from as int, to as int);
        let ghost before = names@;
        proof {
            match found {
                Some(i) => {
                    assert(piece =~= rest.take(i - from));
                    assert(rest.skip(i - from + 1) =~= chars@.skip(i + 1));
                    assert(whole =~= done.push(piece) + pieces(chars@.skip(i + 1), ','));
                },
                None => {
                    assert(piece =~= rest);
                    assert(pieces(rest, ',') =~= seq![rest]);
                    assert(whole =~= done.push(piece));
                },
            }
            assert(done.push(piece).drop_last() =~= done);
        }
        if name.as_str().unicode_len() > 0 && (used || !is_text(&name, symbol)) {
            names.push(name);
            assert(texts(names@) =~= texts(before).push(trimmed(piece)));
        }
        proof {
            done = done.push(piece);
        }
        match found {
            Some(i) => {
                from = i + 1;
            },
            None => {
                more = false;
            },
        }
    }
    names
}

fn prune_from_import_rest(
    indent: &str,
    module: &str,
    after_import: &Vec<char>,
    start: usize,
    symbol: &str,
    body: &str,
) -> (r: String)
    requires
        start <= after_import@.len(),
        symbol@.len() > 0,
    ensures
        r@ == pruned_list(indent@, module@, after_import@.skip(start as int), symbol@, body@),
{
    let used = contains_whole_word(body, symbol);
    let names = keep_names(after_import, start, symbol, used);
    assert(texts(names@).len() == names@.len());
    if names.len() == 0 {
        return String::new();
    }
    let list = join(&names, ", ");
    cat5(indent, "from ", module, " import ", list.as_str())
}

/// What stands in front of the import in a line that is written anew: as many bytes of the line as
/// white space was taken off it.
pub open spec fn line_indent(line: Seq<char>) -> Seq<char> {
    byte_prefix(line, (byte_len(line) - byte_len(trimmed(line))) as nat)
}

/// Whether the bytes that stand in front of the import are whole characters.
pub open spec fn line_can_be_cut(line: Seq<char>) -> bool {
    let n = (byte_len(line) - byte_len(trimmed(line))) as nat;
    exists|k: int| cuts_at(line, n, k)
}

/// A `from pydantic import` line without `computed_field`, where that is not used.
pub open spec fn without_computed_field(line: Seq<char>, indent: Seq<char>, body: Seq<char>) -> Seq<
    char,
> {
    let t = trimmed(line);
    if begins_with(t, "from pydantic import"@) {
        pruned_list(
            indent,
            "pydantic"@,
            t.skip("from pydantic import"@.len() as int),
            "computed_field"@,
            body,
        )
    } else {
        line
    }
}

/// An import without the names that are known to be left over: `functools`, `field` of
/// `dataclasses`, `Field` and `computed_field` of `pydantic`. Nothing where no name is left.
pub open spec fn pruned_line(line: Seq<char>, body: Seq<char>) -> Seq<char> {
    let t = trimmed(line);
    let indent = line_indent(line);
    if t == "import functools"@ && !has_word(body, "functools"@) {
        Seq::empty()
    } else if begins_with(t, "from dataclasses import"@) {
        pruned_list(
            indent,
            "dataclasses"@,
            t.skip("from dataclasses import"@.len() as int),
            "field"@,
            body,
        )
    } else if begins_with(t, "from pydantic import"@) {
        without_computed_field(
            pruned_list(
                indent,
                "pydantic"@,
                t.skip("from pydantic import"@.len() as int),
                "Field"@,
                body,
            ),
            indent,
            body,
        )
    } else {
        line
    }
}

fn starts_with(chars: &Vec<char>, prefix: &str) -> (r: Option<usize>)
    ensures
        match r {
            Some(n) => begins_with(chars@, prefix@) && n == prefix@.len() && n <= chars@.len(),
            None => !begins_with(chars@, prefix@),
        },
{
    let p = chars_of(prefix);
    assert(chars@.skip(0) =~= chars@);
    if matches_at(chars, 0, &p) {
        Some(p.len())
    } else {
        None
    }
}

fn trimmed_chars(text: &str) -> (r: Vec<char>)
    ensures
        r@ == trimmed(text@),
{
    let chars = chars_of(text);
    let n: usize = chars.len();
    assert(chars@.subrange(0, n as int) =~= chars@);
    let (a, b) = trim_range(&chars, 0, n);
    let mut out: Vec<char> = Vec::new();
    let mut i: usize = a;
    while i < b
        invariant
            a <= i <= b <= chars@.len(),
            out@ == chars@.subrange(a as int, i as int),
        decreases b - i,
    {
        out.push(chars[i]);
        assert(out@ =~= chars@.subrange(a as int, i + 1));
        i = i + 1;
    }
    out
}

fn get_line_indent(line: &str) -> (r: String)
    requires
        line_can_be_cut(line@),
        4 * line@.len() <= u64::MAX,
    ensures
        r@ == line_indent(line@),
{
    let chars = chars_of(line);
    let n: usize = chars.len();
    assert(chars@.subrange(0, n as int) =~= chars@);
    let (a, b) = trim_range(&chars, 0, n);
    let all: u64 = count_bytes(&chars, 0, n);
    let inner: u64 = count_bytes(&chars, a, b);
    proof {
        lemma_part_is_shorter(chars@, a as int, b as int);
    }
    let cut = find_cut(&chars, all - inner);
    assert(chars@.subrange(0, cut as int) =~= chars@.take(cut as int));
    string_of(&chars, 0, cut)
}

/// The bytes of two texts add up.
pub proof fn lemma_byte_len_concat(a: Seq<char>, b: Seq<char>)
    ensures
        byte_len(a + b) == byte_len(a) + byte_len(b),
    decreases b.len(),
{
    if b.len() == 0 {
        assert(a + b =~= a);
    } else {
        lemma_byte_len_concat(a, b.drop_last());
        assert((a + b).drop_last() =~= a + b.drop_last());
    }
}

proof fn lemma_part_is_shorter(s: Seq<char>, a: int, b: int)
    requires
        0 <= a <= b <= s.len(),
    ensures
        byte_len(s.subrange(a, b)) <= byte_len(s),
{
    lemma_byte_len_concat(s.take(a), s.subrange(a, b));
    lemma_byte_len_concat(s.take(a) + s.subrange(a, b), s.skip(b));
    assert(s =~= s.take(a) + s.subrange(a, b) + s.skip(b));
}

/// An import without the names that are known to be left over.
pub fn prune_import_line(line: &str, body: &str) -> (r: String)
    requires
        line_can_be_cut(line@),
        4 * line@.len() <= u64::MAX,
    ensures
        r@ == pruned_line(line@, body@),
{
    proof {
        reveal_strlit("functools");
        reveal_strlit("field");
        reveal_strlit("Field");
        reveal_strlit("computed_field");
    }
    let t = trimmed_chars(line);
    let indent = get_line_indent(line);
    let whole = string_of(&t, 0, t.len());
    assert(t@.subrange(0, t@.len() as int) =~= t@);
    if is_text(&whole, "import functools") && !contains_whole_word(body, "functools") {
        return String::new();
    }
    if let Some(n) = starts_with(&t, "from dataclasses import") {
        return prune_from_import_rest(indent.as_str(), "dataclasses", &t, n, "field", body);
    }
    if let Some(n) = starts_with(&t, "from pydantic import") {
        let first = prune_from_import_rest(indent.as_str(), "pydantic", &t, n, "Field", body);
        let again = trimmed_chars(first.as_str());
        return match starts_with(&again, "from pydantic import") {
            Some(k) => prune_from_import_rest(
                indent.as_str(),
                "pydantic",
                &again,
                k,
                "computed_field",
                body,
            ),
            None => first,
        };
    }
    line.to_owned()
}

/// An item with the imports inside it pruned; nothing for an import of which nothing is left.
/// Imports inside a class are judged by the class alone.
pub open spec fn pruned_item(item: ItemView, body: Seq<char>) -> Option<ItemView>
    decreases item,
{
    match item {
        ItemView::Import(text) => if pruned_line(text, body).len() == 0 {
            None
        } else {
            Some(ItemView::Import(pruned_line(text, body)))
        },
        ItemView::Class(c) => Some(
            ItemView::Class(
                ClassStubView { body: pruned_items(c.body, items_content(c.body)), ..c },
            ),
        ),
        other => Some(other),
    }
}

/// Items with their imports pruned.
pub open spec fn pruned_items(items: Seq<ItemView>, body: Seq<char>) -> Seq<ItemView>
    decreases items,
{
    if items.len() == 0 {
        Seq::empty()
    } else {
        let before = pruned_items(items.drop_last(), body);
        match pruned_item(items.last(), body) {
            Some(item) => before.push(item),
            None => before,
        }
    }
}

/// Whether the imports among an item can be pruned.
pub open spec fn item_prunable(item: StubItem) -> bool
    decreases item,
{
    match item {
        StubItem::Import(i) => line_can_be_cut(i.text@) && 4 * i.text@.len() <= u64::MAX,
        StubItem::Class(c) => items_prunable(c.body@),
        _ => true,
    }
}

/// Whether the imports among items can be pruned: where a line is written anew, what stands in
/// front of it are whole characters.
pub open spec fn items_prunable(items: Seq<StubItem>) -> bool
    decreases items,
{
    items.len() > 0 ==> items_prunable(items.drop_last()) && item_prunable(items.last())
}

fn prune_item(item: StubItem, body: &str) -> (r: Option<StubItem>)
    requires
        item_prunable(item),
    ensures
        match r {
            Some(i) => pruned_item(item_view(item), body@) == Some(item_view(i)),
            None => pruned_item(item_view(item), body@) is None,
        },
    decreases item, 1int,
{
    match item {
        StubItem::Import(imp) => {
            let text = prune_import_line(imp.text.as_str(), body);
            if text.as_str().unicode_len() == 0 {
                None
            } else {
                Some(StubItem::Import(StubImport { text }))
            }
        },
        StubItem::Class(c) => {
            let mut content: String = String::new();
            append_stub_items_text(&c.body, &mut content);
            assert(content@ =~= items_content(item_views(c.body@)));
            assert(decreases_to!(item => c.body));
            let pruned = prune_imports_in_items(c.body, content.as_str());
            Some(
                StubItem::Class(
                    StubClass {
                        name: c.name,
                        type_params: c.type_params,
                        bases: c.bases,
                        decorators: c.decorators,
                        body: pruned,
                        docstring: c.docstring,
                    },
                ),
            )
        },
        other => Some(other),
    }
}

#[verifier::loop_isolation(false)]
fn prune_imports_in_items(items: Vec<StubItem>, body: &str) -> (r: Vec<StubItem>)
    requires
        items_prunable(items@),
    ensures
        item_views(r@) == pruned_items(item_views(items@), body@),
    decreases items, 1int,
{
    let ghost all = items;
    let mut rest = items;
    let mut reversed: Vec<StubItem> = Vec::new();
    assert(item_views(reversed@.reverse()) =~= Seq::empty());
    assert(pruned_items(item_views(all@), body@) =~= pruned_items(item_views(rest@), body@)
        + item_views(reversed@.reverse()));
    while rest.len() > 0
        invariant
            items_prunable(rest@),
            rest@.len() <= all@.len(),
            rest@ == all@.take(rest@.len() as int),
            pruned_items(item_views(all@), body@) == pruned_items(item_views(rest@), body@)
                + item_views(reversed@.reverse()),
        decreases rest@.len(),
    {
        let ghost before = rest@;
        let ghost done = reversed@;
        if let Some(item) = rest.pop() {
            assert(before.drop_last() =~= rest@);
            assert(before.last() == item);
            assert(item == all@[rest@.len() as int]);
            assert(decreases_to!(all => all@[rest@.len() as int]));
            let ghost view = item_view(item);
            proof {
                assert(item_views(before) == item_views(rest@).push(view));
                assert(item_views(before).drop_last() =~= item_views(rest@));
            }
            match prune_item(item, body) {
                Some(kept) => {
                    reversed.push(kept);
                    proof {
                        assert(reversed@.reverse() =~= seq![kept] + done.reverse());
                        crate::stub::lemma_item_views_concat(seq![kept], done.reverse());
                        reveal_with_fuel(item_views, 2);
                        assert(seq![kept].drop_last() =~= Seq::empty());
                        assert(item_views(seq![kept]) =~= seq![item_view(kept)]);
                        let p = pruned_items(item_views(rest@), body@);
                        assert(p.push(item_view(kept)) + item_views(done.reverse()) =~= p + (seq![
                            item_view(kept),
                        ] + item_views(done.reverse())));
                    }
                },
                None => {},
            }
        }
    }
    assert(rest@ =~= Seq::empty());
    let ghost kept = reversed@;
    assert(pruned_items(item_views(all@), body@) =~= item_views(kept.reverse()));
    let mut out: Vec<StubItem> = Vec::new();
    while reversed.len() > 0
        invariant
            reversed@.len() <= kept.len(),
            reversed@ == kept.take(reversed@.len() as int),
            out@ == kept.skip(reversed@.len() as int).reverse(),
        decreases reversed@.len(),
    {
        let ghost n = reversed@.len();
        if let Some(item) = reversed.pop() {
            assert(item == kept[n - 1]);
            out.push(item);
            assert(reversed@ =~= kept.take(n - 1));
            assert(out@ =~= kept.skip(n - 1).reverse());
        }
    }
    assert(out@ =~= kept.reverse());
    out
}

/// Prunes the imports of a stub: names that only the source needed are taken out.
pub fn prune_stub_imports(items: Vec<StubItem>) -> (r: Vec<StubItem>)
    requires
        items_prunable(items@),
    ensures
        item_views(r@) == pruned_items(
            item_views(items@),
            items_content(item_views(items@)),
        ),
{
    let mut content: String = String::new();
    append_stub_items_text(&items, &mut content);
    assert(content@ =~= items_content(item_views(items@)));
    prune_imports_in_items(items, content.as_str())
}

/// Pruning takes out nothing but imports: the text in which uses are looked for stays the same.
pub proof fn law_pruning_keeps_content(items: Seq<ItemView>, body: Seq<char>)
    ensures
        items_content(pruned_items(items, body)) == items_content(items),
    decreases items,
{
    if items.len() > 0 {
        law_pruning_keeps_content(items.drop_last(), body);
        let before = pruned_items(items.drop_last(), body);
        lemma_pruned_item_content(items.last(), body);
        match pruned_item(items.last(), body) {
            Some(item) => {
                assert(before.push(item).drop_last() =~= before);
            },
            None => {
                assert(items_content(items.drop_last()) + Seq::<char>::empty() =~= items_content(
                    items.drop_last(),
                ));
            },
        }
    }
}

proof fn lemma_pruned_item_content(item: ItemView, body: Seq<char>)
    ensures
        pruned_item(item, body) matches Some(i) ==> item_content(i) == item_content(item),
        pruned_item(item, body) is None ==> item_content(item) == Seq::<char>::empty(),
    decreases item,
{
    match item {
        ItemView::Class(c) => {
            law_pruning_keeps_content(c.body, items_content(c.body));
        },
        _ => {},
    }
}

} // verus!
