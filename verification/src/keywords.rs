use starlark_map::small_map::SmallMap;
use vstd::prelude::*;

use crate::annotation::{dupe_type, DataclassFieldKeywords};
use crate::expr::{CallExpr, Keyword};
use crate::list::List;
use crate::metadata::DataclassMetadata;
use crate::ordered::{
    lemma_value_after_entry, name_entries, name_map, name_map_get, name_map_insert, value_at,
};
use crate::report::{ErrorCollector, ReportView};
use crate::solver::{AnswersSolver, LookupAnswer};
use crate::text::is_text;
use crate::types::{AnyStyle, Callable, Lit, Param, Params, Required, Type};

verus! {

/// The text of a literal string.
pub open spec fn literal_text(ty: Type) -> Option<String> {
    match ty {
        Type::Literal(lit) => match lit.value {
            Lit::Str(s) => Some(s),
            _ => None,
        },
        _ => None,
    }
}

/// The text of a literal string.
pub fn get_literal_text(ty: &Type) -> (r: Option<String>)
    ensures
        r == literal_text(*ty),
{
    match ty {
        Type::Literal(lit) => match &lit.value {
            Lit::Str(s) => Some(s.clone()),
            _ => None,
        },
        _ => None,
    }
}

/// What a field specifier leaves open and its signature can still say.
pub struct Fillable {
    pub init: Option<bool>,
    pub kw_only: Option<bool>,
    pub alias: Option<String>,
    pub converter_param: Option<Type>,
}

/// A parameter that can be passed by name: its name, its type and the type of its default.
pub open spec fn by_name(param: Param) -> Option<(String, Type, Option<Type>)> {
    match param {
        Param::Pos(name, ty, required) | Param::KwOnly(name, ty, required) => Some(
            (
                name,
                ty,
                match required {
                    Required::Optional(Some(default)) => Some(*default),
                    _ => None,
                },
            ),
        ),
        _ => None,
    }
}

fn get_by_name(param: &Param) -> (r: Option<(String, Type, Option<Type>)>)
    ensures
        r == by_name(*param),
{
    match param {
        Param::Pos(name, ty, required) | Param::KwOnly(name, ty, required) => Some(
            (
                name.clone(),
                ty.dupe(),
                match required {
                    Required::Optional(Some(default)) => Some(default.dupe()),
                    _ => None,
                },
            ),
        ),
        _ => None,
    }
}

/// The types of keyword arguments by name.
pub struct TypeMap {
    pub index: SmallMap<String, usize>,
    pub types: Vec<Type>,
}

impl TypeMap {
    /// The type of the keyword `name`.
    pub open spec fn of(self, name: Seq<char>) -> Option<Type> {
        match value_at(name_entries(self.index), name) {
            Some(i) => if i < self.types@.len() {
                Some(self.types@[i as int])
            } else {
                None
            },
            None => None,
        }
    }

    fn get(&self, name: &str) -> (r: Option<Type>)
        ensures
            r == self.of(name@),
    {
        match name_map_get(&self.index, name) {
            Some(i) => if i < self.types.len() {
                Some(self.types[i].dupe())
            } else {
                None
            },
            None => None,
        }
    }
}

/// The last keyword argument called `name`.
pub open spec fn keyword_named(kws: Seq<Keyword>, name: Seq<char>) -> Option<u64>
    decreases kws.len(),
{
    if kws.len() == 0 {
        None
    } else if kws.last().arg is Some && kws.last().arg->0@ == name {
        Some(kws.last().expr)
    } else {
        keyword_named(kws.drop_last(), name)
    }
}

impl<Ans: LookupAnswer> AnswersSolver<Ans> {
    /// The type of the keyword argument `name`.
    pub open spec fn keyword_type(self, kws: Seq<Keyword>, name: Seq<char>) -> Option<Type> {
        match keyword_named(kws, name) {
            Some(expr) => Some(self.answers.inferred(expr)),
            None => None,
        }
    }

    /// The reports on the keyword arguments that have a name.
    pub open spec fn keyword_reports(self, kws: Seq<Keyword>) -> Seq<ReportView>
        decreases kws.len(),
    {
        if kws.len() == 0 {
            Seq::empty()
        } else if kws.last().arg is Some {
            self.keyword_reports(kws.drop_last()) + self.answers.inferred_reports(kws.last().expr)
        } else {
            self.keyword_reports(kws.drop_last())
        }
    }

    fn type_map(&self, kws: &Vec<Keyword>, errors: &mut ErrorCollector) -> (r: TypeMap)
        ensures
            forall|name: Seq<char>| #[trigger] r.of(name) == self.keyword_type(kws@, name),
            final(errors)@ == old(errors)@ + self.keyword_reports(kws@),
    {
        let mut map = TypeMap { index: name_map(), types: Vec::new() };
        let mut i: usize = 0;
        assert(kws@.take(0) =~= Seq::empty());
        assert(errors@ =~= old(errors)@ + self.keyword_reports(kws@.take(0)));
        while i < kws.len()
            invariant
                i <= kws@.len(),
                forall|name: Seq<char>| #[trigger]
                    map.of(name) == self.keyword_type(kws@.take(i as int), name),
                forall|name: Seq<char>| #[trigger]
                    value_at(name_entries(map.index), name) is Some ==> value_at(
                        name_entries(map.index),
                        name,
                    )->0 < map.types@.len(),
                errors@ == old(errors)@ + self.keyword_reports(kws@.take(i as int)),
            decreases kws@.len() - i,
        {
            let ghost before = map;
            assert(kws@.take(i + 1).drop_last() =~= kws@.take(i as int));
            assert(kws@.take(i + 1).last() == kws@[i as int]);
            if let Some(name) = &kws[i].arg {
                let ty = self.answers.expr_infer(kws[i].expr, errors);
                let at: usize = map.types.len();
                map.types.push(ty);
                name_map_insert(&mut map.index, name.clone(), at);
                proof {
                    assert forall|n: Seq<char>| #[trigger]
                        value_at(name_entries(map.index), n) is Some implies value_at(
                        name_entries(map.index),
                        n,
                    )->0 < map.types@.len() by {
                        lemma_value_after_entry(name_entries(before.index), name@, at, n);
                    }
                    assert forall|n: Seq<char>| #[trigger]
                        map.of(n) == self.keyword_type(kws@.take(i + 1), n) by {
                        lemma_value_after_entry(name_entries(before.index), name@, at, n);
                        assert(before.of(n) == self.keyword_type(kws@.take(i as int), n));
                    }
                }
            } else {
                assert forall|n: Seq<char>| #[trigger]
                    map.of(n) == self.keyword_type(kws@.take(i + 1), n) by {
                    assert(before.of(n) == self.keyword_type(kws@.take(i as int), n));
                }
            }
            assert(errors@ =~= old(errors)@ + self.keyword_reports(kws@.take(i + 1)));
            i = i + 1;
        }
        assert(kws@.take(i as int) =~= kws@);
        map
    }

    /// The constructor of the class that a type names, as a callable without receiver.
    pub open spec fn constructor_distributed(self, ty: Type) -> Option<Type> {
        match ty {
            Type::ClassDef(cls) => match self.answers.named(cls) {
                Type::ClassType(instance) => Some(
                    self.answers.unioned(
                        self.answers.members(self.answers.constructor(instance)).map_values(
                            |t: Type| self.without_receiver(t),
                        ),
                    ),
                ),
                _ => None,
            },
            _ => None,
        }
    }

    /// A bound method as a callable without its receiver, where that works; any other type as it
    /// is.
    pub open spec fn without_receiver(self, ty: Type) -> Type {
        match ty {
            Type::BoundMethod(m) => match self.answers.received(*m) {
                Some(t) => t,
                None => ty,
            },
            _ => ty,
        }
    }

    fn constructor_to_callable_distributed(&self, ty: &Type) -> (r: Option<Type>)
        ensures
            r == self.constructor_distributed(*ty),
    {
        if let Type::ClassDef(cls) = ty {
            if let Type::ClassType(instance) = self.answers.promote_silently(cls) {
                let callable = self.answers.constructor_to_callable(&instance);
                let members = self.answers.get_members(&callable);
                let mut out: Vec<Type> = Vec::new();
                let mut i: usize = 0;
                while i < members.len()
                    invariant
                        i <= members@.len(),
                        out@ == members@.take(i as int).map_values(
                            |t: Type| self.without_receiver(t),
                        ),
                    decreases members@.len() - i,
                {
                    let t = match &members[i] {
                        Type::BoundMethod(m) => match self.answers.bind_boundmethod(&**m) {
                            Some(t) => t,
                            None => members[i].dupe(),
                        },
                        other => other.dupe(),
                    };
                    out.push(t);
                    assert(out@ =~= members@.take(i + 1).map_values(
                        |t: Type| self.without_receiver(t),
                    ));
                    i = i + 1;
                }
                assert(members@.take(i as int) =~= members@);
                return Some(self.answers.unions(&out));
            }
        }
        None
    }

    /// A class as its constructor, any other type as it is.
    pub open spec fn as_constructor(self, ty: Type) -> Type {
        match self.constructor_distributed(ty) {
            Some(t) => t,
            None => ty,
        }
    }

    fn get_as_constructor(&self, ty: &Type) -> (r: Type)
        ensures
            r == self.as_constructor(*ty),
    {
        match self.constructor_to_callable_distributed(ty) {
            Some(t) => t,
            None => ty.dupe(),
        }
    }

    /// The first parameter of a callable, or else an unknown type.
    pub open spec fn first_or_any(self, ty: Type) -> Type {
        match self.answers.first_parameter(ty) {
            Some(t) => t,
            None => Type::Any(AnyStyle::Implicit),
        }
    }

    /// The type that a converter accepts.
    pub open spec fn converter_input(self, converter: Type) -> Type {
        self.answers.unioned(
            self.answers.members(self.as_constructor(converter)).map_values(
                |t: Type| self.first_or_any(t),
            ),
        )
    }

    fn get_converter_param(&self, converter: &Type) -> (r: Type)
        ensures
            r == self.converter_input(*converter),
    {
        let members = self.answers.get_members(&self.get_as_constructor(converter));
        let mut out: Vec<Type> = Vec::new();
        let mut i: usize = 0;
        while i < members.len()
            invariant
                i <= members@.len(),
                out@ == members@.take(i as int).map_values(|t: Type| self.first_or_any(t)),
            decreases members@.len() - i,
        {
            let t = match self.answers.callable_first_param(&members[i]) {
                Some(t) => t,
                None => Type::Any(AnyStyle::Implicit),
            };
            out.push(t);
            assert(out@ =~= members@.take(i + 1).map_values(|t: Type| self.first_or_any(t)));
            i = i + 1;
        }
        assert(members@.take(i as int) =~= members@);
        self.answers.unions(&out)
    }

    /// The type of the default that keyword arguments give: that of `default`, or else what the
    /// factory returns.
    pub open spec fn keyword_default(self, kws: Seq<Keyword>) -> Option<Type> {
        match self.keyword_type(kws, "default"@) {
            Some(ty) => Some(ty),
            None => {
                let factory = match self.keyword_type(kws, "default_factory"@) {
                    Some(ty) => Some(ty),
                    None => self.keyword_type(kws, "factory"@),
                };
                match factory {
                    Some(factory) => Some(
                        match self.answers.returned(self.as_constructor(factory)) {
                            Some(ty) => ty,
                            None => Type::Any(AnyStyle::Implicit),
                        },
                    ),
                    None => None,
                }
            },
        }
    }

    fn get_default(&self, map: &TypeMap, Ghost(kws): Ghost<Seq<Keyword>>) -> (r: Option<Type>)
        requires
            forall|name: Seq<char>| #[trigger] map.of(name) == self.keyword_type(kws, name),
        ensures
            r == self.keyword_default(kws),
    {
        if let Some(default) = map.get("default") {
            return Some(default);
        }
        let factory = match map.get("default_factory") {
            Some(ty) => Some(ty),
            None => map.get("factory"),
        };
        match factory {
            Some(factory) => match self.answers.callable_return_type(
                &self.get_as_constructor(&factory),
            ) {
                Some(ty) => Some(ty),
                None => Some(Type::Any(AnyStyle::Implicit)),
            },
            None => None,
        }
    }

    /// The truth value of the keyword argument `name`.
    pub open spec fn keyword_flag(self, kws: Seq<Keyword>, name: Seq<char>) -> Option<bool> {
        match self.keyword_type(kws, name) {
            Some(ty) => self.answers.truth(ty),
            None => None,
        }
    }

    fn get_flag(&self, map: &TypeMap, name: &str, Ghost(kws): Ghost<Seq<Keyword>>) -> (r: Option<bool>)
        requires
            forall|name: Seq<char>| #[trigger] map.of(name) == self.keyword_type(kws, name),
        ensures
            r == self.keyword_flag(kws, name@),
    {
        match map.get(name) {
            Some(ty) => self.answers.as_bool(&ty),
            None => None,
        }
    }

    /// The literal string that the keyword argument `name` is.
    pub open spec fn keyword_text(self, kws: Seq<Keyword>, name: Seq<char>) -> Option<String> {
        match self.keyword_type(kws, name) {
            Some(ty) => literal_text(ty),
            None => None,
        }
    }

    fn get_text(&self, map: &TypeMap, name: &str, Ghost(kws): Ghost<Seq<Keyword>>) -> (r: Option<
        String,
    >)
        requires
            forall|name: Seq<char>| #[trigger] map.of(name) == self.keyword_type(kws, name),
        ensures
            r == self.keyword_text(kws, name@),
    {
        match map.get(name) {
            Some(ty) => get_literal_text(&ty),
            None => None,
        }
    }

    /// A flag that the type or the default of a parameter gives.
    pub open spec fn flag_from(self, flag: Option<bool>, ty: Type, default: Option<Type>) -> Option<
        bool,
    > {
        if flag is Some {
            flag
        } else if self.answers.truth(ty) is Some {
            self.answers.truth(ty)
        } else {
            match default {
                Some(d) => self.answers.truth(d),
                None => None,
            }
        }
    }

    fn fill_in_flag(&self, flag: Option<bool>, ty: &Type, default: &Option<Type>) -> (r: Option<bool>)
        ensures
            r == self.flag_from(flag, *ty, *default),
    {
        if flag.is_some() {
            return flag;
        }
        if let Some(b) = self.answers.as_bool(ty) {
            return Some(b);
        }
        match default {
            Some(d) => self.answers.as_bool(d),
            None => None,
        }
    }

    /// A text that the type or the default of a parameter gives.
    pub open spec fn text_from(text: Option<String>, ty: Type, default: Option<Type>) -> Option<
        String,
    > {
        if text is Some {
            text
        } else if literal_text(ty) is Some {
            literal_text(ty)
        } else {
            match default {
                Some(d) => literal_text(d),
                None => None,
            }
        }
    }

    fn fill_in_text(text: &Option<String>, ty: &Type, default: &Option<Type>) -> (r: Option<String>)
        ensures
            r == Self::text_from(*text, *ty, *default),
    {
        if text.is_some() {
            return text.clone();
        }
        if let Some(s) = get_literal_text(ty) {
            return Some(s);
        }
        match default {
            Some(d) => get_literal_text(d),
            None => None,
        }
    }

    /// What is known after one more parameter of the specifier was looked at.
    pub open spec fn filled_by(self, known: Fillable, param: Param, alias_keyword: Option<Seq<char>>) -> Fillable {
        match by_name(param) {
            None => known,
            Some((name, ty, default)) => Fillable {
                init: if name@ == "init"@ {
                    self.flag_from(known.init, ty, default)
                } else {
                    known.init
                },
                kw_only: if name@ == "kw_only"@ {
                    self.flag_from(known.kw_only, ty, default)
                } else {
                    known.kw_only
                },
                alias: if alias_keyword == Some(name@) {
                    Self::text_from(known.alias, ty, default)
                } else {
                    known.alias
                },
                converter_param: if known.converter_param is None && name@ == "converter"@ {
                    Some(self.converter_input(ty))
                } else {
                    known.converter_param
                },
            },
        }
    }

    /// What is known after the parameters of the specifier were looked at.
    pub open spec fn filled(
        self,
        known: Fillable,
        params: List<Param>,
        alias_keyword: Option<Seq<char>>,
    ) -> Fillable
        decreases params,
    {
        match params {
            List::Nil => known,
            List::Cons(p, rest) => self.filled(
                self.filled_by(known, p, alias_keyword),
                *rest,
                alias_keyword,
            ),
        }
    }

    fn fill_in_from(&self, known: Fillable, params: &List<Param>, alias_keyword: Option<&str>) -> (r:
        Fillable)
        ensures
            r == self.filled(
                known,
                *params,
                match alias_keyword {
                    Some(k) => Some(k@),
                    None => None,
                },
            ),
        decreases params,
    {
        match params {
            List::Nil => known,
            List::Cons(p, rest) => {
                let next = match get_by_name(p) {
                    None => known,
                    Some((name, ty, default)) => {
                        let init = if is_text(&name, "init") {
                            self.fill_in_flag(known.init, &ty, &default)
                        } else {
                            known.init
                        };
                        let kw_only = if is_text(&name, "kw_only") {
                            self.fill_in_flag(known.kw_only, &ty, &default)
                        } else {
                            known.kw_only
                        };
                        let is_alias = match alias_keyword {
                            Some(k) => is_text(&name, k),
                            None => false,
                        };
                        let alias = if is_alias {
                            Self::fill_in_text(&known.alias, &ty, &default)
                        } else {
                            known.alias.clone()
                        };
                        let converter_param = if known.converter_param.is_none() && is_text(
                            &name,
                            "converter",
                        ) {
                            Some(self.get_converter_param(&ty))
                        } else {
                            dupe_type(&known.converter_param)
                        };
                        Fillable { init, kw_only, alias, converter_param }
                    },
                };
                self.fill_in_from(next, &**rest, alias_keyword)
            },
        }
    }

    /// The signature of a field specifier that a call uses: the only one there is, or the one of
    /// an overload that the call selects.
    pub open spec fn specifier_signature(self, func: Type, call: u64) -> Option<Callable> {
        let callee = self.as_constructor(func);
        let sigs = callee.signatures();
        if sigs.len() == 1 {
            Some(*sigs[0])
        } else if sigs.len() > 1 && callee is Overload {
            Some(self.answers.selected(callee->Overload_0, call))
        } else {
            None
        }
    }

    /// The reports that go with it.
    pub open spec fn specifier_reports(self, func: Type, call: u64) -> Seq<ReportView> {
        let callee = self.as_constructor(func);
        if callee.signatures().len() > 1 && callee is Overload {
            self.answers.selected_reports(callee->Overload_0, call)
        } else {
            Seq::empty()
        }
    }

    /// What is known after the signature of the specifier was looked at.
    pub open spec fn filled_from_signature(
        self,
        known: Fillable,
        func: Type,
        call: u64,
        alias_keyword: Option<Seq<char>>,
    ) -> Fillable {
        match self.specifier_signature(func, call) {
            Some(sig) => match sig.params {
                Params::List(params) => self.filled(known, params, alias_keyword),
                _ => known,
            },
            None => known,
        }
    }

    /// Fills in what the keywords of a field specifier leave open, from the types and defaults
    /// of its parameters.
    fn fill_in_field_keywords_from_function_signature(
        &self,
        func: &Type,
        call: u64,
        errors: &mut ErrorCollector,
        alias_keyword: Option<&str>,
        known: Fillable,
    ) -> (r: Fillable)
        ensures
            r == self.filled_from_signature(
                known,
                *func,
                call,
                match alias_keyword {
                    Some(k) => Some(k@),
                    None => None,
                },
            ),
            final(errors)@ == old(errors)@ + self.specifier_reports(*func, call),
    {
        let callee = self.get_as_constructor(func);
        let sigs = callee.callable_signatures();
        assert(errors@ + Seq::<ReportView>::empty() =~= errors@);
        if sigs.len() == 1 {
            match &sigs[0].params {
                Params::List(params) => self.fill_in_from(known, params, alias_keyword),
                _ => known,
            }
        } else if sigs.len() > 1 {
            match &callee {
                Type::Overload(overload) => {
                    let sig = self.answers.call_overloads(overload, call, errors);
                    match &sig.params {
                        Params::List(params) => self.fill_in_from(known, params, alias_keyword),
                        _ => known,
                    }
                },
                _ => known,
            }
        } else {
            known
        }
    }

    /// Whether the first argument of a field specifier is the default.
    pub open spec fn default_is_positional(self, call: CallExpr, dm: DataclassMetadata) -> bool {
        self.keyword_default(call.keywords@) is None && dm.default_can_be_positional
            && call.args@.len() > 0 && !call.args@[0].is_ellipsis
    }

    /// What the keywords of a field specifier say of the keywords that the signature can fill in.
    pub open spec fn stated_keywords(self, call: CallExpr, dm: DataclassMetadata) -> Fillable {
        let kws = call.keywords@;
        Fillable {
            init: self.keyword_flag(kws, "init"@),
            kw_only: self.keyword_flag(kws, "kw_only"@),
            alias: if dm.init_defaults.init_by_alias {
                match self.keyword_text(kws, dm.alias_keyword@) {
                    Some(s) => Some(s),
                    None => self.keyword_text(kws, "alias"@),
                }
            } else {
                None
            },
            converter_param: match self.keyword_type(kws, "converter"@) {
                Some(ty) => Some(self.converter_input(ty)),
                None => None,
            },
        }
    }

    pub open spec fn complete(known: Fillable) -> bool {
        known.init is Some && known.kw_only is Some && known.alias is Some && known.converter_param
            is Some
    }

    /// The options of a field that a field specifier gives.
    pub open spec fn field_keywords(self, func: Type, call: CallExpr, dm: DataclassMetadata) -> DataclassFieldKeywords {
        let kws = call.keywords@;
        let stated = self.stated_keywords(call, dm);
        let known = if Self::complete(stated) {
            stated
        } else {
            self.filled_from_signature(
                stated,
                func,
                call.expr,
                if dm.init_defaults.init_by_alias {
                    Some(dm.alias_keyword@)
                } else {
                    None
                },
            )
        };
        DataclassFieldKeywords {
            init: known.init != Some(false),
            default: if self.default_is_positional(call, dm) {
                Some(self.answers.inferred(call.args@[0].expr))
            } else {
                self.keyword_default(kws)
            },
            kw_only: known.kw_only,
            init_by_name: dm.init_defaults.init_by_name || known.alias is None,
            init_by_alias: known.alias,
            lt: self.keyword_type(kws, "lt"@),
            gt: self.keyword_type(kws, "gt"@),
            ge: self.keyword_type(kws, "ge"@),
            le: self.keyword_type(kws, "le"@),
            strict: self.keyword_flag(kws, "strict"@),
            converter_param: known.converter_param,
        }
    }

    /// The reports that go with them.
    pub open spec fn field_keywords_reports(self, func: Type, call: CallExpr, dm: DataclassMetadata) -> Seq<
        ReportView,
    > {
        self.keyword_reports(call.keywords@) + (if self.default_is_positional(call, dm) {
            self.answers.inferred_reports(call.args@[0].expr)
        } else {
            Seq::empty()
        }) + (if Self::complete(self.stated_keywords(call, dm)) {
            Seq::empty()
        } else {
            self.specifier_reports(func, call.expr)
        })
    }

    /// The options of a field that a field specifier gives: by its keywords, by a positional
    /// default where that is allowed, and by the defaults of its own signature.
    pub fn dataclass_field_keywords(
        &self,
        func: &Type,
        call: &CallExpr,
        dm: &DataclassMetadata,
        errors: &mut ErrorCollector,
    ) -> (r: DataclassFieldKeywords)
        ensures
            r == self.field_keywords(*func, *call, *dm),
            final(errors)@ == old(errors)@ + self.field_keywords_reports(*func, *call, *dm),
    {
        let map = self.type_map(&call.keywords, errors);
        let ghost kws = call.keywords@;
        let mut default = self.get_default(&map, Ghost(kws));
        if default.is_none() && dm.default_can_be_positional && call.args.len() > 0
            && !call.args[0].is_ellipsis {
            default = Some(self.answers.expr_infer(call.args[0].expr, errors));
        }
        let alias = if dm.init_defaults.init_by_alias {
            match self.get_text(&map, dm.alias_keyword.as_str(), Ghost(kws)) {
                Some(s) => Some(s),
                None => self.get_text(&map, "alias", Ghost(kws)),
            }
        } else {
            None
        };
        let converter_param = match map.get("converter") {
            Some(ty) => Some(self.get_converter_param(&ty)),
            None => None,
        };
        let mut known = Fillable {
            init: self.get_flag(&map, "init", Ghost(kws)),
            kw_only: self.get_flag(&map, "kw_only", Ghost(kws)),
            alias,
            converter_param,
        };
        if known.init.is_none() || known.kw_only.is_none() || known.alias.is_none()
            || known.converter_param.is_none() {
            let alias_keyword = if dm.init_defaults.init_by_alias {
                Some(dm.alias_keyword.as_str())
            } else {
                None
            };
            known = self.fill_in_field_keywords_from_function_signature(
                func,
                call.expr,
                errors,
                alias_keyword,
                known,
            );
        }
        assert(errors@ =~= old(errors)@ + self.field_keywords_reports(*func, *call, *dm));
        let init = match known.init {
            Some(b) => b,
            None => true,
        };
        let init_by_name = dm.init_defaults.init_by_name || known.alias.is_none();
        DataclassFieldKeywords {
            init,
            default,
            kw_only: known.kw_only,
            init_by_name,
            init_by_alias: known.alias,
            lt: map.get("lt"),
            gt: map.get("gt"),
            ge: map.get("ge"),
            le: map.get("le"),
            strict: self.get_flag(&map, "strict", Ghost(kws)),
            converter_param: known.converter_param,
        }
    }

    /// The options of a field, where the call is one of a field specifier of the dataclass.
    pub open spec fn specified(self, call: CallExpr, dm: DataclassMetadata) -> Option<
        DataclassFieldKeywords,
    > {
        let func = self.answers.inferred(call.func);
        match self.answers.callee(func) {
            Some(kind) => if dm.field_specifiers@.contains(kind) {
                Some(self.field_keywords(func, call, dm))
            } else {
                None
            },
            None => None,
        }
    }

    /// The options of a field, where the call is one of a field specifier of the dataclass.
    /// Nothing is reported: the call is checked where the type of the field is computed.
    pub fn compute_dataclass_field_initialization(&self, call: &CallExpr, dm: &DataclassMetadata) -> (r:
        Option<DataclassFieldKeywords>)
        ensures
            r == self.specified(*call, *dm),
    {
        let mut ignored = ErrorCollector::new();
        let func = self.answers.expr_infer(call.func, &mut ignored);
        if let Some(kind) = self.answers.callee_kind(&func) {
            let mut i: usize = 0;
            while i < dm.field_specifiers.len()
                invariant
                    i <= dm.field_specifiers@.len(),
                    self.answers.callee(func) == Some(kind),
                    func == self.answers.inferred(call.func),
                    forall|k: int| 0 <= k < i ==> dm.field_specifiers@[k] != kind,
                decreases dm.field_specifiers@.len() - i,
            {
                if dm.field_specifiers[i] == kind {
                    assert(dm.field_specifiers@[i as int] == kind);
                    return Some(self.dataclass_field_keywords(&func, call, dm, &mut ignored));
                }
                i = i + 1;
            }
        }
        None
    }
}

/// A keyword that a field specifier states is never changed by its signature.
pub proof fn law_stated_keywords_win<Ans: LookupAnswer>(
    solver: AnswersSolver<Ans>,
    func: Type,
    call: CallExpr,
    dm: DataclassMetadata,
)
    ensures
        ({
            let stated = solver.stated_keywords(call, dm);
            let r = solver.field_keywords(func, call, dm);
            &&& stated.init matches Some(b) ==> r.init == b
            &&& stated.kw_only is Some ==> r.kw_only == stated.kw_only
            &&& stated.alias is Some ==> r.init_by_alias == stated.alias
            &&& stated.converter_param is Some ==> r.converter_param == stated.converter_param
        }),
{
    let stated = solver.stated_keywords(call, dm);
    match solver.specifier_signature(func, call.expr) {
        Some(sig) => match sig.params {
            Params::List(params) => {
                lemma_filling_keeps(
                    solver,
                    stated,
                    params,
                    if dm.init_defaults.init_by_alias {
                        Some(dm.alias_keyword@)
                    } else {
                        None
                    },
                );
            },
            _ => {},
        },
        None => {},
    }
}

proof fn lemma_filling_keeps<Ans: LookupAnswer>(
    solver: AnswersSolver<Ans>,
    known: Fillable,
    params: List<Param>,
    alias_keyword: Option<Seq<char>>,
)
    ensures
        ({
            let r = solver.filled(known, params, alias_keyword);
            &&& known.init is Some ==> r.init == known.init
            &&& known.kw_only is Some ==> r.kw_only == known.kw_only
            &&& known.alias is Some ==> r.alias == known.alias
            &&& known.converter_param is Some ==> r.converter_param == known.converter_param
        }),
    decreases params,
{
    match params {
        List::Nil => {},
        List::Cons(p, rest) => lemma_filling_keeps(
            solver,
            solver.filled_by(known, p, alias_keyword),
            *rest,
            alias_keyword,
        ),
    }
}

} // verus!
