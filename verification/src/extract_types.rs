use vstd::prelude::*;

use crate::ast::{
    DunderAll, DunderAllEntry, ResolvedFunction, ResolvedParam, ShownType, SourceExpr,
    SourceExprKind, SourceParam, SourceParams, UnaryOperator,
};
use crate::stub::{opt_text, param_views, ExtractConfig, ParamView, StubParam};
use crate::text::{begins_with, chars_of, contains_name, is_text, matches_at, texts};

verus! {

/// What has to be imported for what was taken into a stub.
#[derive(Clone, Copy, Debug, PartialEq, Eq, Structural)]
pub struct Uses {
    pub incomplete: bool,
    pub self_type: bool,
    pub classvar: bool,
    pub callable: bool,
    pub overload: bool,
}

impl Uses {
    /// Nothing has to be imported.
    pub open spec fn nothing() -> Uses {
        Uses {
            incomplete: false,
            self_type: false,
            classvar: false,
            callable: false,
            overload: false,
        }
    }

    pub fn new() -> (r: Uses)
        ensures
            r == Uses::nothing(),
    {
        Uses {
            incomplete: false,
            self_type: false,
            classvar: false,
            callable: false,
            overload: false,
        }
    }

    /// What has to be imported for either of two parts.
    pub open spec fn or(self, other: Uses) -> Uses {
        Uses {
            incomplete: self.incomplete || other.incomplete,
            self_type: self.self_type || other.self_type,
            classvar: self.classvar || other.classvar,
            callable: self.callable || other.callable,
            overload: self.overload || other.overload,
        }
    }
}

/// Whether a text occurs in another.
pub open spec fn occurs(s: Seq<char>, part: Seq<char>) -> bool {
    exists|i: int| 0 <= i <= s.len() && begins_with(#[trigger] s.skip(i), part)
}

/// Whether a text occurs in another.
pub fn contains_text(s: &str, part: &str) -> (r: bool)
    ensures
        r == occurs(s@, part@),
{
    let chars = chars_of(s);
    let p = chars_of(part);
    let n: usize = chars.len();
    let mut i: usize = 0;
    while i < n
        invariant
            i <= n == chars@.len(),
            chars@ == s@,
            p@ == part@,
            forall|k: int| 0 <= k < i ==> !begins_with(#[trigger] s@.skip(k), part@),
        decreases n - i,
    {
        if matches_at(&chars, i, &p) {
            assert(begins_with(s@.skip(i as int), part@));
            return true;
        }
        i = i + 1;
    }
    let last = matches_at(&chars, n, &p);
    assert(last == begins_with(s@.skip(n as int), part@));
    last
}

/// Whether a type cannot be written down.
pub open spec fn unwritable(ty: ShownType) -> bool {
    ty.is_any || occurs(ty.text@, "@"@) || occurs(ty.text@, "Unknown"@)
}

/// A type as it is written in a stub: `Incomplete` where it cannot be written down.
pub open spec fn type_text(ty: ShownType) -> Seq<char> {
    if unwritable(ty) {
        "Incomplete"@
    } else {
        ty.text@
    }
}

/// What has to be imported for a type.
pub open spec fn type_uses(ty: ShownType) -> Uses {
    Uses {
        incomplete: unwritable(ty),
        self_type: !ty.is_any && ty.mentions_self,
        classvar: false,
        callable: !unwritable(ty) && occurs(ty.text@, "Callable["@),
        overload: !unwritable(ty) && occurs(ty.text@, "Overload["@),
    }
}

/// A type as it is written in a stub.
pub fn format_type(ty: &ShownType, uses: &mut Uses) -> (r: String)
    ensures
        r@ == type_text(*ty),
        *final(uses) == old(uses).or(type_uses(*ty)),
{
    if ty.is_any {
        uses.incomplete = true;
        return "Incomplete".to_owned();
    }
    if ty.mentions_self {
        uses.self_type = true;
    }
    let s = ty.text.as_str();
    if contains_text(s, "@") || contains_text(s, "Unknown") {
        uses.incomplete = true;
        return "Incomplete".to_owned();
    }
    if contains_text(s, "Callable[") {
        uses.callable = true;
    }
    if contains_text(s, "Overload[") {
        uses.overload = true;
    }
    ty.text.clone()
}

/// A default as it is written in a stub: a simple literal, a number behind a minus sign and the
/// empty tuple stand for themselves, anything else is three dots.
pub open spec fn default_text(expr: SourceExpr) -> Seq<char> {
    match expr.kind {
        SourceExprKind::NoneLiteral => "None"@,
        SourceExprKind::BooleanLiteral(b) => if b {
            "True"@
        } else {
            "False"@
        },
        SourceExprKind::NumberLiteral => expr.text@,
        SourceExprKind::StringLiteral(_) => expr.text@,
        SourceExprKind::BytesLiteral => expr.text@,
        SourceExprKind::UnaryOp(op, operand) => if op == UnaryOperator::USub
            && operand.kind is NumberLiteral {
            expr.text@
        } else {
            "..."@
        },
        SourceExprKind::Tuple(elements) => if elements@.len() == 0 {
            "()"@
        } else {
            "..."@
        },
        _ => "..."@,
    }
}

/// A default as it is written in a stub.
pub fn format_default(expr: &SourceExpr) -> (r: String)
    ensures
        r@ == default_text(*expr),
{
    match &expr.kind {
        SourceExprKind::NoneLiteral => "None".to_owned(),
        SourceExprKind::BooleanLiteral(b) => if *b {
            "True".to_owned()
        } else {
            "False".to_owned()
        },
        SourceExprKind::NumberLiteral => expr.text.clone(),
        SourceExprKind::StringLiteral(_) => expr.text.clone(),
        SourceExprKind::BytesLiteral => expr.text.clone(),
        SourceExprKind::UnaryOp(op, operand) => {
            let number = match operand.kind {
                SourceExprKind::NumberLiteral => true,
                _ => false,
            };
            if *op == UnaryOperator::USub && number {
                expr.text.clone()
            } else {
                "...".to_owned()
            }
        },
        SourceExprKind::Tuple(elements) => if elements.len() == 0 {
            "()".to_owned()
        } else {
            "...".to_owned()
        },
        _ => "...".to_owned(),
    }
}

/// The value of a variable as it is written in a stub, where it is simple.
pub open spec fn simple_text(expr: SourceExpr) -> Option<Seq<char>> {
    match expr.kind {
        SourceExprKind::NoneLiteral => Some("None"@),
        SourceExprKind::BooleanLiteral(b) => Some(
            if b {
                "True"@
            } else {
                "False"@
            },
        ),
        SourceExprKind::NumberLiteral => Some(expr.text@),
        SourceExprKind::StringLiteral(_) => Some(expr.text@),
        SourceExprKind::BytesLiteral => Some(expr.text@),
        SourceExprKind::EllipsisLiteral => Some("..."@),
        _ => None,
    }
}

/// The value of a variable as it is written in a stub, where it is simple.
pub fn simple_value_text(expr: &SourceExpr) -> (r: Option<String>)
    ensures
        opt_text(r) == simple_text(*expr),
{
    match &expr.kind {
        SourceExprKind::NoneLiteral => Some("None".to_owned()),
        SourceExprKind::BooleanLiteral(b) => Some(
            if *b {
                "True".to_owned()
            } else {
                "False".to_owned()
            },
        ),
        SourceExprKind::NumberLiteral => Some(expr.text.clone()),
        SourceExprKind::StringLiteral(_) => Some(expr.text.clone()),
        SourceExprKind::BytesLiteral => Some(expr.text.clone()),
        SourceExprKind::EllipsisLiteral => Some("...".to_owned()),
        _ => None,
    }
}

/// Whether a text begins with a prefix.
pub fn text_begins(s: &str, prefix: &str) -> (r: bool)
    ensures
        r == begins_with(s@, prefix@),
{
    let chars = chars_of(s);
    let p = chars_of(prefix);
    assert(chars@.skip(0) =~= chars@);
    matches_at(&chars, 0, &p)
}

/// Whether a text ends with two underscores.
pub open spec fn ends_dunder(s: Seq<char>) -> bool {
    s.len() >= 2 && s[s.len() - 1] == '_' && s[s.len() - 2] == '_'
}

fn check_ends_dunder(s: &str) -> (r: bool)
    ensures
        r == ends_dunder(s@),
{
    let chars = chars_of(s);
    let n: usize = chars.len();
    n >= 2 && chars[n - 1] == '_' && chars[n - 2] == '_'
}

/// Whether a text begins with two underscores.
pub open spec fn starts_dunder(s: Seq<char>) -> bool {
    s.len() >= 2 && s[0] == '_' && s[1] == '_'
}

fn check_starts_dunder(s: &str) -> (r: bool)
    ensures
        r == starts_dunder(s@),
{
    let chars = chars_of(s);
    chars.len() >= 2 && chars[0] == '_' && chars[1] == '_'
}

/// Whether a name is taken into a stub. At the top level an explicit `__all__` decides. Otherwise
/// special names always are, private ones only where that is asked for; names with two underscores
/// are never at the top level.
pub open spec fn included(
    name: Seq<char>,
    config: ExtractConfig,
    in_class: bool,
    all: Option<Seq<Seq<char>>>,
) -> bool {
    if !in_class && all is Some {
        all->0.contains(name)
    } else if starts_dunder(name) && ends_dunder(name) {
        true
    } else if starts_dunder(name) && !in_class {
        false
    } else {
        !(name.len() > 0 && name[0] == '_' && !config.include_private)
    }
}

/// The names of an `__all__`, where there is one.
pub open spec fn all_names(all: Option<Vec<String>>) -> Option<Seq<Seq<char>>> {
    match all {
        Some(names) => Some(texts(names@)),
        None => None,
    }
}

/// Whether a name is taken into a stub.
pub fn should_include_name(
    name: &str,
    config: &ExtractConfig,
    in_class: bool,
    dunder_all: &Option<Vec<String>>,
) -> (r: bool)
    ensures
        r == included(name@, *config, in_class, all_names(*dunder_all)),
{
    if !in_class {
        if let Some(names) = dunder_all {
            return contains_name(names, name);
        }
    }
    if check_starts_dunder(name) && check_ends_dunder(name) {
        return true;
    }
    if check_starts_dunder(name) && !in_class {
        return false;
    }
    !(crate::names::starts_with_underscore(name) && !config.include_private)
}

/// The names that the entries of an `__all__` leave, in the order in which they were added; `None`
/// where another module decides.
pub open spec fn all_after(entries: Seq<DunderAllEntry>) -> Option<Seq<Seq<char>>>
    decreases entries.len(),
{
    if entries.len() == 0 {
        Some(Seq::empty())
    } else {
        match all_after(entries.drop_last()) {
            None => None,
            Some(names) => match entries.last() {
                DunderAllEntry::Name(name) => Some(names.push(name@)),
                DunderAllEntry::Remove(name) => Some(
                    names.filter(|n: Seq<char>| n != name@),
                ),
                DunderAllEntry::Module => None,
            },
        }
    }
}

fn without_name(names: Vec<String>, name: &str) -> (r: Vec<String>)
    ensures
        texts(r@) == texts(names@).filter(|n: Seq<char>| n != name@),
{
    let ghost keep = |n: Seq<char>| n != name@;
    let ghost views = texts(names@);
    let mut out: Vec<String> = Vec::new();
    let mut i: usize = 0;
    proof {
        reveal(Seq::filter);
    }
    assert(views.take(0) =~= Seq::empty());
    assert(texts(out@) =~= views.take(0).filter(keep));
    while i < names.len()
        invariant
            i <= names@.len(),
            views == texts(names@),
            keep == (|n: Seq<char>| n != name@),
            texts(out@) == views.take(i as int).filter(keep),
        decreases names@.len() - i,
    {
        proof {
            reveal(Seq::filter);
            assert(views.take(i + 1).drop_last() =~= views.take(i as int));
            assert(views.take(i + 1).last() == names@[i as int]@);
        }
        let ghost before = out@;
        if !is_text(&names[i], name) {
            out.push(names[i].clone());
            assert(texts(out@) =~= texts(before).push(names@[i as int]@));
        }
        i = i + 1;
    }
    assert(views.take(i as int) =~= views);
    out
}

/// The names that a module exports by its `__all__`; `None` where it has none that can be read on
/// its own.
pub fn resolve_dunder_all(dunder_all: &DunderAll) -> (r: Option<Vec<String>>)
    ensures
        all_names(r) == (if dunder_all.is_specified {
            all_after(dunder_all.entries@)
        } else {
            None
        }),
{
    if !dunder_all.is_specified {
        return None;
    }
    let entries = &dunder_all.entries;
    let mut names: Vec<String> = Vec::new();
    let mut i: usize = 0;
    assert(entries@.take(0) =~= Seq::empty());
    assert(texts(names@) =~= Seq::empty());
    while i < entries.len()
        invariant
            i <= entries@.len(),
            entries@ == dunder_all.entries@,
            dunder_all.is_specified,
            all_after(entries@.take(i as int)) == Some(texts(names@)),
        decreases entries@.len() - i,
    {
        assert(entries@.take(i + 1).drop_last() =~= entries@.take(i as int));
        assert(entries@.take(i + 1).last() == entries@[i as int]);
        let ghost before = names@;
        match &entries[i] {
            DunderAllEntry::Name(name) => {
                names.push(name.clone());
                assert(texts(names@) =~= texts(before).push(name@));
            },
            DunderAllEntry::Remove(name) => {
                names = without_name(names, name.as_str());
            },
            DunderAllEntry::Module => {
                proof {
                    lemma_module_decides(entries@, i as int);
                }
                return None;
            },
        }
        i = i + 1;
    }
    assert(entries@.take(i as int) =~= entries@);
    Some(names)
}

proof fn lemma_module_decides(entries: Seq<DunderAllEntry>, i: int)
    requires
        0 <= i < entries.len(),
        entries[i] is Module,
    ensures
        all_after(entries) is None,
    decreases entries.len(),
{
    if i < entries.len() - 1 {
        lemma_module_decides(entries.drop_last(), i);
    }
}

/// The type of the last parameter called `name`.
pub open spec fn resolved_named(params: Seq<ResolvedParam>, name: Seq<char>) -> Option<ResolvedParam>
    decreases params.len(),
{
    if params.len() == 0 {
        None
    } else if params.last().name is Some && params.last().name->0@ == name {
        Some(params.last())
    } else {
        resolved_named(params.drop_last(), name)
    }
}

/// The parameter of a function that stands behind a written one.
pub open spec fn resolved_for(resolved: Option<ResolvedFunction>, name: Seq<char>) -> Option<
    ResolvedParam,
> {
    match resolved {
        Some(f) => resolved_named(f.params@, name),
        None => None,
    }
}

fn find_resolved<'a>(resolved: &'a Option<ResolvedFunction>, name: &str) -> (r: Option<&'a ResolvedParam>)
    ensures
        r is Some == resolved_for(*resolved, name@) is Some,
        r is Some ==> *r->0 == resolved_for(*resolved, name@)->0,
{
    match resolved {
        None => None,
        Some(f) => {
            let params = &f.params;
            let mut i: usize = params.len();
            assert(params@.take(i as int) =~= params@);
            while i > 0
                invariant
                    i <= params@.len(),
                    resolved_named(params@, name@) == resolved_named(params@.take(i as int), name@),
                    *resolved == Some(*f),
                    params@ == f.params@,
                decreases i,
            {
                assert(params@.take(i as int).drop_last() =~= params@.take(i - 1));
                assert(params@.take(i as int).last() == params@[i - 1]);
                if let Some(n) = &params[i - 1].name {
                    if is_text(n, name) {
                        return Some(&params[i - 1]);
                    }
                }
                i = i - 1;
            }
            None
        },
    }
}

/// Whether a parameter is the receiver of a method.
pub open spec fn is_receiver(name: Seq<char>) -> bool {
    name == "self"@ || name == "cls"@
}

/// Whether a type is known in part only: its display holds what no source can hold.
pub open spec fn unresolvable(ty: ShownType) -> bool {
    !ty.is_any && unwritable(ty)
}

/// Whether a parameter without an annotation stays without one: receivers do, and parameters whose
/// inferred type is known in part only.
pub open spec fn stays_bare(r: ResolvedParam) -> bool {
    (r.name is Some && is_receiver(r.name->0@)) || unresolvable(r.ty)
}

/// The annotation of a parameter: the written one, or else the inferred type.
pub open spec fn param_annotation(p: SourceParam, resolved: Option<ResolvedParam>) -> Option<Seq<char>> {
    match p.annotation {
        Some(text) => Some(text@),
        None => match resolved {
            Some(r) => if stays_bare(r) {
                None
            } else {
                Some(type_text(r.ty))
            },
            None => None,
        },
    }
}

/// What has to be imported for it.
pub open spec fn param_annotation_uses(p: SourceParam, resolved: Option<ResolvedParam>) -> Uses {
    match p.annotation {
        Some(_) => Uses::nothing(),
        None => match resolved {
            Some(r) => if stays_bare(r) {
                Uses::nothing()
            } else {
                type_uses(r.ty)
            },
            None => Uses::nothing(),
        },
    }
}

/// A parameter of a stub.
pub open spec fn stub_param(prefix: Seq<char>, p: SourceParam, resolved: Option<ResolvedFunction>) -> ParamView {
    ParamView {
        prefix,
        name: p.name@,
        annotation: param_annotation(p, resolved_for(resolved, p.name@)),
        default: match p.default {
            Some(d) => Some(default_text(d)),
            None => None,
        },
    }
}

pub open spec fn stub_param_uses(p: SourceParam, resolved: Option<ResolvedFunction>) -> Uses {
    param_annotation_uses(p, resolved_for(resolved, p.name@))
}

fn format_param_type(param: &ResolvedParam, uses: &mut Uses) -> (r: Option<String>)
    ensures
        opt_text(r) == (if stays_bare(*param) {
            None
        } else {
            Some(type_text(param.ty))
        }),
        *final(uses) == old(uses).or(
            if stays_bare(*param) {
                Uses::nothing()
            } else {
                type_uses(param.ty)
            },
        ),
{
    if let Some(name) = &param.name {
        if is_text(name, "self") || is_text(name, "cls") {
            return None;
        }
    }
    let s = param.ty.text.as_str();
    if !param.ty.is_any && (contains_text(s, "@") || contains_text(s, "Unknown")) {
        return None;
    }
    Some(format_type(&param.ty, uses))
}

fn make_param(
    prefix: &'static str,
    p: &SourceParam,
    resolved: &Option<ResolvedFunction>,
    uses: &mut Uses,
) -> (r: StubParam)
    ensures
        r@ == stub_param(prefix@, *p, *resolved),
        *final(uses) == old(uses).or(stub_param_uses(*p, *resolved)),
{
    let annotation = match &p.annotation {
        Some(text) => Some(text.clone()),
        None => match find_resolved(resolved, p.name.as_str()) {
            Some(param) => format_param_type(param, uses),
            None => None,
        },
    };
    let default = match &p.default {
        Some(d) => Some(format_default(d)),
        None => None,
    };
    StubParam { prefix, name: p.name.clone(), annotation, default }
}

/// One of the marks between parameters.
pub open spec fn mark(text: Seq<char>) -> ParamView {
    ParamView { prefix: ""@, name: text, annotation: None, default: None }
}

pub fn make_mark(text: &str) -> (r: StubParam)
    ensures
        r@ == mark(text@),
{
    StubParam { prefix: "", name: text.to_owned(), annotation: None, default: None }
}

pub open spec fn plain_params(ps: Seq<SourceParam>, resolved: Option<ResolvedFunction>) -> Seq<ParamView> {
    ps.map_values(|p: SourceParam| stub_param(""@, p, resolved))
}

pub open spec fn plain_params_uses(ps: Seq<SourceParam>, resolved: Option<ResolvedFunction>) -> Uses
    decreases ps.len(),
{
    if ps.len() == 0 {
        Uses::nothing()
    } else {
        plain_params_uses(ps.drop_last(), resolved).or(stub_param_uses(ps.last(), resolved))
    }
}

fn push_plain_params(
    ps: &Vec<SourceParam>,
    resolved: &Option<ResolvedFunction>,
    uses: &mut Uses,
    out: &mut Vec<StubParam>,
)
    ensures
        param_views(final(out)@) == param_views(old(out)@) + plain_params(ps@, *resolved),
        *final(uses) == old(uses).or(plain_params_uses(ps@, *resolved)),
{
    let mut i: usize = 0;
    assert(ps@.take(0) =~= Seq::empty());
    assert(param_views(out@) =~= param_views(old(out)@) + plain_params(ps@.take(0), *resolved));
    while i < ps.len()
        invariant
            i <= ps@.len(),
            param_views(out@) == param_views(old(out)@) + plain_params(
                ps@.take(i as int),
                *resolved,
            ),
            *uses == old(uses).or(plain_params_uses(ps@.take(i as int), *resolved)),
        decreases ps@.len() - i,
    {
        assert(ps@.take(i + 1).drop_last() =~= ps@.take(i as int));
        assert(ps@.take(i + 1).last() == ps@[i as int]);
        let ghost before = out@;
        let p = make_param("", &ps[i], resolved, uses);
        out.push(p);
        assert(param_views(out@) =~= param_views(before).push(p@));
        assert(plain_params(ps@.take(i + 1), *resolved) =~= plain_params(
            ps@.take(i as int),
            *resolved,
        ).push(p@));
        assert(param_views(out@) =~= param_views(old(out)@) + plain_params(
            ps@.take(i + 1),
            *resolved,
        ));
        i = i + 1;
    }
    assert(ps@.take(i as int) =~= ps@);
}

/// An optional parameter with a prefix.
pub open spec fn starred(
    prefix: Seq<char>,
    p: Option<SourceParam>,
    resolved: Option<ResolvedFunction>,
) -> Seq<ParamView> {
    match p {
        Some(p) => seq![stub_param(prefix, p, resolved)],
        None => Seq::empty(),
    }
}

pub open spec fn starred_uses(p: Option<SourceParam>, resolved: Option<ResolvedFunction>) -> Uses {
    match p {
        Some(p) => stub_param_uses(p, resolved),
        None => Uses::nothing(),
    }
}

/// The parameters of a function, with the marks behind positional-only and in front of
/// keyword-only ones.
pub open spec fn stub_params(ps: SourceParams, resolved: Option<ResolvedFunction>) -> Seq<ParamView> {
    plain_params(ps.posonlyargs@, resolved) + (if ps.posonlyargs@.len() > 0 {
        seq![mark("/"@)]
    } else {
        Seq::empty()
    }) + plain_params(ps.args@, resolved) + (if ps.vararg is None && ps.kwonlyargs@.len() > 0 {
        seq![mark("*"@)]
    } else {
        starred("*"@, ps.vararg, resolved)
    }) + plain_params(ps.kwonlyargs@, resolved) + starred("**"@, ps.kwarg, resolved)
}

/// What has to be imported for them.
pub open spec fn stub_params_uses(ps: SourceParams, resolved: Option<ResolvedFunction>) -> Uses {
    plain_params_uses(ps.posonlyargs@, resolved).or(plain_params_uses(ps.args@, resolved)).or(
        starred_uses(ps.vararg, resolved),
    ).or(plain_params_uses(ps.kwonlyargs@, resolved)).or(starred_uses(ps.kwarg, resolved))
}

/// The parameters of a function. Missing annotations are filled in with inferred types.
pub fn extract_params(ps: &SourceParams, resolved: &Option<ResolvedFunction>, uses: &mut Uses) -> (r:
    Vec<StubParam>)
    ensures
        param_views(r@) == stub_params(*ps, *resolved),
        *final(uses) == old(uses).or(stub_params_uses(*ps, *resolved)),
{
    let mut out: Vec<StubParam> = Vec::new();
    assert(param_views(out@) =~= Seq::empty());
    push_plain_params(&ps.posonlyargs, resolved, uses, &mut out);
    let ghost part1 = param_views(out@);
    assert(part1 =~= plain_params(ps.posonlyargs@, *resolved));
    if ps.posonlyargs.len() > 0 {
        out.push(make_mark("/"));
    }
    let ghost part2 = param_views(out@);
    assert(part2 =~= part1 + (if ps.posonlyargs@.len() > 0 {
        seq![mark("/"@)]
    } else {
        Seq::empty()
    }));
    push_plain_params(&ps.args, resolved, uses, &mut out);
    let ghost part3 = param_views(out@);
    if let Some(vararg) = &ps.vararg {
        let p = make_param("*", vararg, resolved, uses);
        out.push(p);
    } else if ps.kwonlyargs.len() > 0 {
        out.push(make_mark("*"));
    }
    let ghost part4 = param_views(out@);
    assert(part4 =~= part3 + (if ps.vararg is None && ps.kwonlyargs@.len() > 0 {
        seq![mark("*"@)]
    } else {
        starred("*"@, ps.vararg, *resolved)
    }));
    push_plain_params(&ps.kwonlyargs, resolved, uses, &mut out);
    let ghost part5 = param_views(out@);
    if let Some(kwarg) = &ps.kwarg {
        let p = make_param("**", kwarg, resolved, uses);
        out.push(p);
    }
    assert(param_views(out@) =~= part5 + starred("**"@, ps.kwarg, *resolved));
    out
}

/// Special names are always taken into a stub, unless an `__all__` leaves them out. Asking for
/// private names only adds names, and an `__all__` decides alone.
pub proof fn law_special_names_are_taken(
    name: Seq<char>,
    config: ExtractConfig,
    in_class: bool,
    all: Option<Seq<Seq<char>>>,
)
    ensures
        starts_dunder(name) && ends_dunder(name) && (in_class || all is None) ==> included(
            name,
            config,
            in_class,
            all,
        ),
        included(name, config, in_class, all) ==> included(
            name,
            (ExtractConfig { include_private: true, ..config }),
            in_class,
            all,
        ),
        !in_class && all is Some ==> included(name, config, in_class, all) == all->0.contains(name),
{
}

} // verus!
