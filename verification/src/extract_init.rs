use vstd::prelude::*;

use crate::ast::{
    AnnAssign, Callee, InitCallable, InitDefault, InitParam, InitType, ResolvedClass,
    ResolvedField, ShownType, SourceCall, SourceExpr, SourceExprKind, Stmt,
};
use crate::extract_types::{
    default_text, format_default, format_type, is_receiver, make_mark, mark, type_text, type_uses,
    Uses,
};
use crate::stub::{opt_text, param_views, FunctionView, ParamView, StubFunction, StubParam};
use crate::text::{is_text, texts};

verus! {

/// The signature that the type of a constructor holds.
pub open spec fn init_signature(ty: InitType) -> Option<InitCallable> {
    match ty {
        InitType::Callable(c) => Some(c),
        InitType::Function(c) => Some(c),
        InitType::GenericFunction(c) => Some(c),
        InitType::GenericCallable(c) => Some(c),
        InitType::Other => None,
    }
}

fn peel_init_callable(ty: &InitType) -> (r: Option<&InitCallable>)
    ensures
        r is Some == init_signature(*ty) is Some,
        r is Some ==> *r->0 == init_signature(*ty)->0,
{
    match ty {
        InitType::Callable(c) => Some(c),
        InitType::Function(c) => Some(c),
        InitType::GenericFunction(c) => Some(c),
        InitType::GenericCallable(c) => Some(c),
        InitType::Other => None,
    }
}

/// The name of a parameter.
pub open spec fn init_name(p: InitParam) -> Option<Seq<char>> {
    match p {
        InitParam::PosOnly(name, _, _) => opt_text(name),
        InitParam::Pos(name, _, _) => Some(name@),
        InitParam::VarArg(name, _) => opt_text(name),
        InitParam::KwOnly(name, _, _) => Some(name@),
        InitParam::Kwargs(name, _) => opt_text(name),
    }
}

/// Whether the parameter of a signature is the receiver alone. Such a constructor says nothing of
/// how a class is made, so it is never shown.
pub open spec fn takes_self_alone(params: Seq<InitParam>) -> bool {
    params.len() == 1 && init_name(params[0]) == Some("self"@)
}

/// Whether a signature is the one that named tuples get at run time, `(self, *args, **kwargs)`. It
/// is never shown next to their `__new__`.
pub open spec fn placeholder(params: Seq<InitParam>) -> bool {
    params.len() == 3 && init_name(params[0]) == Some("self"@) && (params[1] matches InitParam::VarArg(
        None,
        _,
    )) && (params[2] matches InitParam::Kwargs(None, _))
}

fn is_named_self(p: &InitParam) -> (r: bool)
    ensures
        r == (init_name(*p) == Some("self"@)),
{
    match p {
        InitParam::PosOnly(Some(name), _, _) => is_text(name, "self"),
        InitParam::PosOnly(None, _, _) => false,
        InitParam::Pos(name, _, _) => is_text(name, "self"),
        InitParam::VarArg(Some(name), _) => is_text(name, "self"),
        InitParam::VarArg(None, _) => false,
        InitParam::KwOnly(name, _, _) => is_text(name, "self"),
        InitParam::Kwargs(Some(name), _) => is_text(name, "self"),
        InitParam::Kwargs(None, _) => false,
    }
}

fn is_named_tuple_runtime_init_placeholder(params: &Vec<InitParam>) -> (r: bool)
    ensures
        r == placeholder(params@),
{
    if params.len() != 3 {
        return false;
    }
    let named_self = is_named_self(&params[0]);
    let args = match &params[1] {
        InitParam::VarArg(None, _) => true,
        _ => false,
    };
    let kwargs = match &params[2] {
        InitParam::Kwargs(None, _) => true,
        _ => false,
    };
    named_self && args && kwargs
}

/// The default of a constructor parameter as it is written.
pub open spec fn init_default(d: InitDefault) -> Option<Seq<char>> {
    match d {
        InitDefault::Required => None,
        InitDefault::Optional => Some("..."@),
        InitDefault::Known(Some(text), _) => Some(text@),
        InitDefault::Known(None, ty) => Some(type_text(ty)),
    }
}

pub open spec fn init_default_uses(d: InitDefault) -> Uses {
    match d {
        InitDefault::Known(None, ty) => type_uses(ty),
        _ => Uses::nothing(),
    }
}

fn required_to_stub_default(d: &InitDefault, uses: &mut Uses) -> (r: Option<String>)
    ensures
        opt_text(r) == init_default(*d),
        *final(uses) == old(uses).or(init_default_uses(*d)),
{
    match d {
        InitDefault::Required => None,
        InitDefault::Optional => Some("...".to_owned()),
        InitDefault::Known(Some(text), _) => Some(text.clone()),
        InitDefault::Known(None, ty) => Some(format_type(ty, uses)),
    }
}

/// The annotation of a constructor parameter; receivers get none.
pub open spec fn init_annotation(name: Option<Seq<char>>, ty: ShownType) -> Option<Seq<char>> {
    if name is Some && is_receiver(name->0) {
        None
    } else {
        Some(type_text(ty))
    }
}

pub open spec fn init_annotation_uses(name: Option<Seq<char>>, ty: ShownType) -> Uses {
    if name is Some && is_receiver(name->0) {
        Uses::nothing()
    } else {
        type_uses(ty)
    }
}

fn annotation_for_param(name: &Option<String>, ty: &ShownType, uses: &mut Uses) -> (r: Option<String>)
    ensures
        opt_text(r) == init_annotation(opt_text(*name), *ty),
        *final(uses) == old(uses).or(init_annotation_uses(opt_text(*name), *ty)),
{
    if let Some(n) = name {
        if is_text(n, "self") || is_text(n, "cls") {
            return None;
        }
    }
    Some(format_type(ty, uses))
}

/// A constructor parameter with an annotation and a default.
pub open spec fn valued(name: Seq<char>, of: Option<Seq<char>>, ty: ShownType, d: InitDefault) -> ParamView {
    ParamView {
        prefix: ""@,
        name,
        annotation: init_annotation(of, ty),
        default: init_default(d),
    }
}

/// A constructor parameter as it is written, before the class body is looked at.
pub open spec fn init_param(p: InitParam) -> ParamView {
    match p {
        InitParam::PosOnly(name, ty, d) => valued(
            match name {
                Some(n) => n@,
                None => "_"@,
            },
            opt_text(name),
            ty,
            d,
        ),
        InitParam::Pos(name, ty, d) => valued(name@, Some(name@), ty, d),
        InitParam::VarArg(Some(name), ty) => ParamView {
            prefix: "*"@,
            name: name@,
            annotation: Some(type_text(ty)),
            default: None,
        },
        InitParam::VarArg(None, _) => mark("*"@),
        InitParam::KwOnly(name, ty, d) => valued(name@, Some(name@), ty, d),
        InitParam::Kwargs(name, ty) => ParamView {
            prefix: "**"@,
            name: match name {
                Some(n) => n@,
                None => "kwargs"@,
            },
            annotation: Some(type_text(ty)),
            default: None,
        },
    }
}

pub open spec fn init_param_uses(p: InitParam) -> Uses {
    match p {
        InitParam::PosOnly(name, ty, d) => init_annotation_uses(opt_text(name), ty).or(
            init_default_uses(d),
        ),
        InitParam::Pos(name, ty, d) => init_annotation_uses(Some(name@), ty).or(
            init_default_uses(d),
        ),
        InitParam::VarArg(Some(_), ty) => type_uses(ty),
        InitParam::VarArg(None, _) => Uses::nothing(),
        InitParam::KwOnly(name, ty, d) => init_annotation_uses(Some(name@), ty).or(
            init_default_uses(d),
        ),
        InitParam::Kwargs(_, ty) => type_uses(ty),
    }
}

fn make_valued(
    name: String,
    of: &Option<String>,
    ty: &ShownType,
    d: &InitDefault,
    uses: &mut Uses,
) -> (r: StubParam)
    ensures
        r@ == valued(name@, opt_text(*of), *ty, *d),
        *final(uses) == old(uses).or(
            init_annotation_uses(opt_text(*of), *ty).or(init_default_uses(*d)),
        ),
{
    let annotation = annotation_for_param(of, ty, uses);
    let default = required_to_stub_default(d, uses);
    StubParam { prefix: "", name, annotation, default }
}

fn synthesized_param_to_stub(p: &InitParam, uses: &mut Uses) -> (r: StubParam)
    ensures
        r@ == init_param(*p),
        *final(uses) == old(uses).or(init_param_uses(*p)),
{
    match p {
        InitParam::PosOnly(name, ty, d) => {
            let shown = match name {
                Some(n) => n.clone(),
                None => "_".to_owned(),
            };
            make_valued(shown, name, ty, d, uses)
        },
        InitParam::Pos(name, ty, d) => make_valued(
            name.clone(),
            &Some(name.clone()),
            ty,
            d,
            uses,
        ),
        InitParam::VarArg(Some(name), ty) => {
            let annotation = Some(format_type(ty, uses));
            StubParam { prefix: "*", name: name.clone(), annotation, default: None }
        },
        InitParam::VarArg(None, _) => make_mark("*"),
        InitParam::KwOnly(name, ty, d) => make_valued(
            name.clone(),
            &Some(name.clone()),
            ty,
            d,
            uses,
        ),
        InitParam::Kwargs(name, ty) => {
            let shown = match name {
                Some(n) => n.clone(),
                None => "kwargs".to_owned(),
            };
            let annotation = Some(format_type(ty, uses));
            StubParam { prefix: "**", name: shown, annotation, default: None }
        },
    }
}

/// The first field called `name`.
pub open spec fn field_named(fields: Seq<ResolvedField>, name: Seq<char>) -> Option<ResolvedField>
    decreases fields.len(),
{
    if fields.len() == 0 {
        None
    } else if fields[0].name@ == name {
        Some(fields[0])
    } else {
        field_named(fields.drop_first(), name)
    }
}

pub fn find_field<'a>(fields: &'a Vec<ResolvedField>, name: &str) -> (r: Option<&'a ResolvedField>)
    ensures
        r is Some == field_named(fields@, name@) is Some,
        r is Some ==> *r->0 == field_named(fields@, name@)->0,
{
    let mut i: usize = 0;
    assert(fields@.skip(0) =~= fields@);
    while i < fields.len()
        invariant
            i <= fields@.len(),
            field_named(fields@, name@) == field_named(fields@.skip(i as int), name@),
        decreases fields@.len() - i,
    {
        assert(fields@.skip(i as int).drop_first() =~= fields@.skip(i + 1));
        if is_text(&fields[i].name, name) {
            return Some(&fields[i]);
        }
        i = i + 1;
    }
    None
}

/// Whether a declaration in the class body gives the annotation of a constructor parameter: it
/// declares a field that can be passed under that name.
pub open spec fn overrides(a: AnnAssign, fields: Seq<ResolvedField>, param: Seq<char>) -> bool {
    match a.target {
        None => false,
        Some(target) => match field_named(fields, target@) {
            None => false,
            Some(f) => !f.is_init_var && f.init && ((f.init_by_name && target@ == param) || (
            f.init_by_alias is Some && f.init_by_alias->0@ == param)),
        },
    }
}

/// The annotation that the class body gives to a constructor parameter.
pub open spec fn written_annotation(
    body: Seq<Stmt>,
    fields: Seq<ResolvedField>,
    param: Seq<char>,
) -> Option<Seq<char>>
    decreases body.len(),
{
    if body.len() == 0 {
        None
    } else if body.last() matches Stmt::AnnAssign(a) && overrides(a, fields, param) {
        Some(body.last()->AnnAssign_0.annotation@)
    } else {
        written_annotation(body.drop_last(), fields, param)
    }
}

fn check_overrides(a: &AnnAssign, fields: &Vec<ResolvedField>, param: &str) -> (r: bool)
    ensures
        r == overrides(*a, fields@, param@),
{
    match &a.target {
        None => false,
        Some(target) => match find_field(fields, target.as_str()) {
            None => false,
            Some(f) => {
                let by_alias = match &f.init_by_alias {
                    Some(alias) => is_text(alias, param),
                    None => false,
                };
                !f.is_init_var && f.init && ((f.init_by_name && is_text(target, param)) || by_alias)
            },
        },
    }
}

/// Stub constructors show the annotations that were written, not the wider types that values are
/// converted from.
fn init_param_annotation_override(body: &Vec<Stmt>, fields: &Vec<ResolvedField>, param: &str) -> (r:
    Option<String>)
    ensures
        opt_text(r) == written_annotation(body@, fields@, param@),
{
    let mut i: usize = body.len();
    assert(body@.take(i as int) =~= body@);
    while i > 0
        invariant
            i <= body@.len(),
            written_annotation(body@, fields@, param@) == written_annotation(
                body@.take(i as int),
                fields@,
                param@,
            ),
        decreases i,
    {
        assert(body@.take(i as int).drop_last() =~= body@.take(i - 1));
        assert(body@.take(i as int).last() == body@[i - 1]);
        if let Stmt::AnnAssign(a) = &body[i - 1] {
            if check_overrides(a, fields, param) {
                return Some(a.annotation.clone());
            }
        }
        i = i - 1;
    }
    None
}

/// Whether a declaration gives a name a value.
pub open spec fn gives_value(a: AnnAssign, name: Seq<char>) -> bool {
    a.target is Some && a.target->0@ == name && a.value is Some
}

/// The value that the class body gives to a name.
pub open spec fn written_default(body: Seq<Stmt>, name: Seq<char>) -> Option<SourceExpr>
    decreases body.len(),
{
    if body.len() == 0 {
        None
    } else if body.last() matches Stmt::AnnAssign(a) && gives_value(a, name) {
        (body.last()->AnnAssign_0).value
    } else {
        written_default(body.drop_last(), name)
    }
}

fn find_written_default<'a>(body: &'a Vec<Stmt>, name: &str) -> (r: Option<&'a SourceExpr>)
    ensures
        r is Some == written_default(body@, name@) is Some,
        r is Some ==> *r->0 == written_default(body@, name@)->0,
{
    let mut i: usize = body.len();
    assert(body@.take(i as int) =~= body@);
    while i > 0
        invariant
            i <= body@.len(),
            written_default(body@, name@) == written_default(body@.take(i as int), name@),
        decreases i,
    {
        assert(body@.take(i as int).drop_last() =~= body@.take(i - 1));
        assert(body@.take(i as int).last() == body@[i - 1]);
        if let Stmt::AnnAssign(a) = &body[i - 1] {
            if let Some(target) = &a.target {
                if let Some(value) = &a.value {
                    if is_text(target, name) {
                        return Some(value);
                    }
                }
            }
        }
        i = i - 1;
    }
    None
}

/// A constructor parameter with what the class body says of it: its annotation, and its default
/// where that is simple.
pub open spec fn refined(p: ParamView, body: Seq<Stmt>, fields: Seq<ResolvedField>) -> ParamView {
    ParamView {
        prefix: p.prefix,
        name: p.name,
        annotation: match written_annotation(body, fields, p.name) {
            Some(text) => Some(text),
            None => p.annotation,
        },
        default: if p.default == Some("..."@) {
            match written_default(body, p.name) {
                Some(e) => Some(default_text(e)),
                None => p.default,
            }
        } else {
            p.default
        },
    }
}

fn refine(p: StubParam, body: &Vec<Stmt>, fields: &Vec<ResolvedField>) -> (r: StubParam)
    ensures
        r@ == refined(p@, body@, fields@),
{
    let mut p = p;
    if let Some(text) = init_param_annotation_override(body, fields, p.name.as_str()) {
        p.annotation = Some(text);
    }
    let open_default = match &p.default {
        Some(d) => is_text(d, "..."),
        None => false,
    };
    if open_default {
        if let Some(e) = find_written_default(body, p.name.as_str()) {
            p.default = Some(format_default(e));
        }
    }
    p
}

pub open spec fn is_kw_only(p: InitParam) -> bool {
    p is KwOnly
}

pub open spec fn has_kw_only(params: Seq<InitParam>) -> bool {
    exists|i: int| 0 <= i < params.len() && #[trigger] is_kw_only(params[i])
}

pub open spec fn is_separator(p: InitParam) -> bool {
    p matches InitParam::VarArg(None, _)
}

pub open spec fn has_separator(params: Seq<InitParam>) -> bool {
    exists|i: int| 0 <= i < params.len() && #[trigger] is_separator(params[i])
}

/// The parameters of a constructor as they are written. What accepts unknown keywords is left out,
/// and the mark in front of keyword-only parameters is put in where it is missing.
pub open spec fn init_params(
    params: Seq<InitParam>,
    separated: bool,
    body: Seq<Stmt>,
    fields: Seq<ResolvedField>,
) -> Seq<ParamView>
    decreases params.len(),
{
    if params.len() == 0 {
        Seq::empty()
    } else {
        let before = init_params(params.drop_last(), separated, body, fields);
        let p = params.last();
        if p is Kwargs {
            before
        } else {
            before + (if is_kw_only(p) && !has_kw_only(params.drop_last()) && !separated {
                seq![mark("*"@)]
            } else {
                Seq::empty()
            }) + seq![refined(init_param(p), body, fields)]
        }
    }
}

pub open spec fn init_params_uses(params: Seq<InitParam>) -> Uses
    decreases params.len(),
{
    if params.len() == 0 {
        Uses::nothing()
    } else if params.last() is Kwargs {
        init_params_uses(params.drop_last())
    } else {
        init_params_uses(params.drop_last()).or(init_param_uses(params.last()))
    }
}

fn check_separator(params: &Vec<InitParam>) -> (r: bool)
    ensures
        r == has_separator(params@),
{
    let mut i: usize = 0;
    while i < params.len()
        invariant
            i <= params@.len(),
            forall|k: int| 0 <= k < i ==> !#[trigger] is_separator(params@[k]),
        decreases params@.len() - i,
    {
        if let InitParam::VarArg(None, _) = &params[i] {
            assert(is_separator(params@[i as int]));
            return true;
        }
        i = i + 1;
    }
    false
}

fn make_init_params(
    params: &Vec<InitParam>,
    body: &Vec<Stmt>,
    fields: &Vec<ResolvedField>,
    uses: &mut Uses,
) -> (r: Vec<StubParam>)
    ensures
        param_views(r@) == init_params(params@, has_separator(params@), body@, fields@),
        *final(uses) == old(uses).or(init_params_uses(params@)),
{
    let separated = check_separator(params);
    let mut out: Vec<StubParam> = Vec::new();
    let mut inserted = false;
    let mut i: usize = 0;
    assert(params@.take(0) =~= Seq::empty());
    assert(param_views(out@) =~= Seq::empty());
    while i < params.len()
        invariant
            i <= params@.len(),
            separated == has_separator(params@),
            !separated ==> inserted == has_kw_only(params@.take(i as int)),
            separated ==> !inserted,
            param_views(out@) == init_params(
                params@.take(i as int),
                separated,
                body@,
                fields@,
            ),
            *uses == old(uses).or(init_params_uses(params@.take(i as int))),
        decreases params@.len() - i,
    {
        assert(params@.take(i + 1).drop_last() =~= params@.take(i as int));
        assert(params@.take(i + 1).last() == params@[i as int]);
        let ghost before = out@;
        let ghost seen = params@.take(i as int);
        let p = &params[i];
        let is_kwargs = match p {
            InitParam::Kwargs(_, _) => true,
            _ => false,
        };
        let kw_only = match p {
            InitParam::KwOnly(_, _, _) => true,
            _ => false,
        };
        proof {
            if kw_only {
                assert(is_kw_only(params@.take(i + 1)[i as int]));
            }
            if has_kw_only(seen) {
                let k = choose|k: int| 0 <= k < seen.len() && #[trigger] is_kw_only(seen[k]);
                assert(is_kw_only(params@.take(i + 1)[k]));
            }
            if has_kw_only(params@.take(i + 1)) && !kw_only {
                let k = choose|k: int|
                    0 <= k < params@.take(i + 1).len() && #[trigger] is_kw_only(
                        params@.take(i + 1)[k],
                    );
                assert(is_kw_only(seen[k]));
            }
        }
        if !is_kwargs {
            if kw_only && !inserted && !separated {
                out.push(make_mark("*"));
                inserted = true;
            }
            let ghost middle = out@;
            let stub = refine(synthesized_param_to_stub(p, uses), body, fields);
            out.push(stub);
            assert(param_views(out@) =~= param_views(middle).push(stub@));
            assert(param_views(middle) =~= param_views(before) + (if kw_only && !has_kw_only(seen)
                && !separated {
                seq![mark("*"@)]
            } else {
                Seq::empty()
            }));
            assert(param_views(out@) =~= init_params(
                params@.take(i + 1),
                separated,
                body@,
                fields@,
            ));
        }
        i = i + 1;
    }
    assert(params@.take(i as int) =~= params@);
    out
}

/// The constructor that is added to a class, as it is written in a stub. One that takes the
/// receiver alone is left out.
pub open spec fn added_init_stub(cls: ResolvedClass, body: Seq<Stmt>) -> Option<FunctionView> {
    match cls.init {
        None => None,
        Some(ty) => match init_signature(ty) {
            None => None,
            Some(c) => match c.params {
                None => None,
                Some(params) => if placeholder(params@) || takes_self_alone(params@) {
                    None
                } else {
                    Some(
                        FunctionView {
                            name: "__init__"@,
                            is_async: false,
                            type_params: None,
                            decorators: Seq::empty(),
                            params: init_params(
                                params@,
                                has_separator(params@),
                                body,
                                cls.fields@,
                            ),
                            return_type: Some(type_text(c.ret)),
                            docstring: None,
                        },
                    )
                },
            },
        },
    }
}

/// What has to be imported for it.
pub open spec fn added_init_uses(cls: ResolvedClass) -> Uses {
    match cls.init {
        None => Uses::nothing(),
        Some(ty) => match init_signature(ty) {
            None => Uses::nothing(),
            Some(c) => match c.params {
                None => Uses::nothing(),
                Some(params) => if placeholder(params@) || takes_self_alone(params@) {
                    Uses::nothing()
                } else {
                    init_params_uses(params@).or(type_uses(c.ret))
                },
            },
        },
    }
}

/// The constructor that is added to a class, as it is written in a stub.
pub fn synthetic_init_stub_fn(cls: &ResolvedClass, body: &Vec<Stmt>, uses: &mut Uses) -> (r: Option<
    StubFunction,
>)
    ensures
        match r {
            Some(f) => added_init_stub(*cls, body@) == Some(f@),
            None => added_init_stub(*cls, body@) is None,
        },
        *final(uses) == old(uses).or(added_init_uses(*cls)),
{
    let ty = match &cls.init {
        Some(ty) => ty,
        None => {
            return None;
        },
    };
    let callable = match peel_init_callable(ty) {
        Some(c) => c,
        None => {
            return None;
        },
    };
    let params = match &callable.params {
        Some(params) => params,
        None => {
            return None;
        },
    };
    if is_named_tuple_runtime_init_placeholder(params) || (params.len() == 1 && is_named_self(
        &params[0],
    )) {
        return None;
    }
    let stub_params = make_init_params(params, body, &cls.fields, uses);
    let return_type = Some(format_type(&callable.ret, uses));
    let f = StubFunction {
        name: "__init__".to_owned(),
        is_async: false,
        type_params: None,
        decorators: Vec::new(),
        params: stub_params,
        return_type,
        docstring: None,
    };
    assert(texts(f.decorators@) =~= Seq::empty());
    Some(f)
}

/// Whether the function of a call has the given name.
pub open spec fn callee_named(c: Callee, name: Seq<char>) -> bool {
    match c {
        Callee::Name(n) => n@ == name,
        Callee::Attribute(n) => n@ == name,
        Callee::Other => false,
    }
}

fn is_callee_named(c: &Callee, name: &str) -> (r: bool)
    ensures
        r == callee_named(*c, name@),
{
    match c {
        Callee::Name(n) => is_text(n, name),
        Callee::Attribute(n) => is_text(n, name),
        Callee::Other => false,
    }
}

pub open spec fn has_keyword(kws: Seq<Option<String>>, name: Seq<char>) -> bool {
    exists|i: int| 0 <= i < kws.len() && #[trigger] opt_text(kws[i]) == Some(name)
}

fn check_keyword(kws: &Vec<Option<String>>, name: &str) -> (r: bool)
    ensures
        r == has_keyword(kws@, name@),
{
    let mut i: usize = 0;
    while i < kws.len()
        invariant
            i <= kws@.len(),
            forall|k: int| 0 <= k < i ==> #[trigger] opt_text(kws@[k]) != Some(name@),
        decreases kws@.len() - i,
    {
        if let Some(n) = &kws[i] {
            if is_text(n, name) {
                assert(opt_text(kws@[i as int]) == Some(name@));
                return true;
            }
        }
        i = i + 1;
    }
    false
}

/// Whether a call names a default.
pub open spec fn names_default(kws: Seq<Option<String>>) -> bool {
    has_keyword(kws, "default"@) || has_keyword(kws, "default_factory"@) || has_keyword(
        kws,
        "factory"@,
    )
}

fn check_names_default(kws: &Vec<Option<String>>) -> (r: bool)
    ensures
        r == names_default(kws@),
{
    check_keyword(kws, "default") || check_keyword(kws, "default_factory") || check_keyword(
        kws,
        "factory",
    )
}

/// Whether an expression describes a field without giving it a default: `field()` and `Field()`
/// without one, and either with `...` in its place.
pub open spec fn describes_only(e: SourceExpr) -> bool {
    match e.kind {
        SourceExprKind::Call(call) => {
            let dataclass = callee_named(call.func, "field"@);
            let pydantic = callee_named(call.func, "Field"@);
            ||| dataclass && call.args@.len() == 0 && !names_default(call.keywords@)
            ||| pydantic && call.args@.len() == 0 && !names_default(call.keywords@) && !has_keyword(
                call.keywords@,
                "validation_alias"@,
            )
            ||| (dataclass || pydantic) && call.args@.len() > 0 && call.args@[0].kind is EllipsisLiteral
        },
        _ => false,
    }
}

fn is_bare_dataclass_field_call(call: &SourceCall) -> (r: bool)
    ensures
        r == (callee_named(call.func, "field"@) && call.args@.len() == 0 && !names_default(
            call.keywords@,
        )),
{
    is_callee_named(&call.func, "field") && call.args.len() == 0 && !check_names_default(
        &call.keywords,
    )
}

fn is_bare_pydantic_field_call(call: &SourceCall) -> (r: bool)
    ensures
        r == (callee_named(call.func, "Field"@) && call.args@.len() == 0 && !names_default(
            call.keywords@,
        ) && !has_keyword(call.keywords@, "validation_alias"@)),
{
    is_callee_named(&call.func, "Field") && call.args.len() == 0 && !check_names_default(
        &call.keywords,
    ) && !check_keyword(&call.keywords, "validation_alias")
}

fn begins_with_ellipsis(args: &Vec<SourceExpr>) -> (r: bool)
    ensures
        r == (args@.len() > 0 && args@[0].kind is EllipsisLiteral),
{
    if args.len() == 0 {
        return false;
    }
    match &args[0].kind {
        SourceExprKind::EllipsisLiteral => true,
        _ => false,
    }
}

fn is_dataclass_ellipsis_field(call: &SourceCall) -> (r: bool)
    ensures
        r == (callee_named(call.func, "field"@) && call.args@.len() > 0
            && call.args@[0].kind is EllipsisLiteral),
{
    is_callee_named(&call.func, "field") && begins_with_ellipsis(&call.args)
}

fn is_required_positional_pydantic_field(call: &SourceCall) -> (r: bool)
    ensures
        r == (callee_named(call.func, "Field"@) && call.args@.len() > 0
            && call.args@[0].kind is EllipsisLiteral),
{
    is_callee_named(&call.func, "Field") && begins_with_ellipsis(&call.args)
}

pub(crate) fn check_describes_only(e: &SourceExpr) -> (r: bool)
    ensures
        r == describes_only(*e),
{
    match &e.kind {
        SourceExprKind::Call(call) => is_bare_dataclass_field_call(call)
            || is_bare_pydantic_field_call(call) || is_required_positional_pydantic_field(call)
            || is_dataclass_ellipsis_field(call),
        _ => false,
    }
}

/// Whether three dots stand for the value of an attribute whose value is not simple: the field has
/// a default and can be passed under its own name.
pub open spec fn dotted_value(cls: Option<ResolvedClass>, name: Seq<char>, value: SourceExpr) -> bool {
    match cls {
        None => false,
        Some(c) => match field_named(c.fields@, name) {
            None => false,
            Some(f) => !(f.init_by_alias is Some && !f.init_by_name) && !describes_only(value)
                && f.has_default,
        },
    }
}

/// The value of an attribute whose value is not simple.
pub fn complex_class_attribute_stub_value(
    cls: &Option<ResolvedClass>,
    name: &str,
    value: &SourceExpr,
) -> (r: Option<String>)
    ensures
        opt_text(r) == (if dotted_value(*cls, name@, *value) {
            Some("..."@)
        } else {
            None
        }),
{
    match cls {
        None => None,
        Some(c) => match find_field(&c.fields, name) {
            None => None,
            Some(f) => {
                if f.init_by_alias.is_some() && !f.init_by_name {
                    return None;
                }
                if check_describes_only(value) {
                    return None;
                }
                if f.has_default {
                    Some("...".to_owned())
                } else {
                    None
                }
            },
        },
    }
}

} // verus!
