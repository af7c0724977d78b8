use std::sync::Arc;

use vstd::prelude::*;

use crate::annotation::DataclassFieldKeywords;
use crate::dataclass_fields::{BaseWithMetadata, FieldEntry};
use crate::dataclass_laws::parameters_of;
use crate::expr::{ArgValue, CallArg, CallExpr, Keyword};
use crate::keywords::keyword_named;
use crate::list::List;
use crate::metadata::{ClassMetadata, DataclassMetadata, PydanticModelKind};
use crate::multiple_inheritance::{GroupView, InheritedFieldInfo};
use crate::pydantic::{Checked, PydanticRangeConstraints};
use crate::pydantic_args::{constrained_names, constrained_positions, own_names};
use crate::pydantic_config::{
    any_gives, gives, model_kind, pydantic_dataclass, ClassKeyword, Decorator, PydanticConfigDict,
    Setting, Trait,
};
use crate::report::{Rule, TextRange};
use crate::solver::{AnswersSolver, LookupAnswer};
use crate::types::{AnyStyle, Class, ClassType, Lit, Literal, Param, Required, Type};

verus! {

/// The number that a literal is.
pub open spec fn number_of(ty: Type) -> Option<int> {
    match ty {
        Type::Literal(lit) => match lit.value {
            Lit::Int(n) => Some(n.value()),
            _ => None,
        },
        _ => None,
    }
}

/// Whether a limit that may be missing is crossed by a number.
pub open spec fn too_low(value: int, limit: Option<Type>, included: bool) -> bool {
    limit matches Some(ty) && (number_of(ty) matches Some(l) && (value < l || (value == l
        && !included)))
}

/// Whether a limit that may be missing is crossed by a number.
pub open spec fn too_high(value: int, limit: Option<Type>, included: bool) -> bool {
    limit matches Some(ty) && (number_of(ty) matches Some(l) && (value > l || (value == l
        && !included)))
}

/// A number is reported once for each limit that it crosses: below `ge` or not above `gt`, above
/// `le` or not below `lt`. What is no known number is not reported.
pub proof fn law_numbers_keep_within_their_limits<Ans: LookupAnswer>(
    solver: AnswersSolver<Ans>,
    what: Checked,
    value: Type,
    constraints: PydanticRangeConstraints,
    field_name: Seq<char>,
    range: TextRange,
)
    ensures
        ({
            let reports = solver.violations(what, value, constraints, field_name, range);
            &&& number_of(value) is None ==> reports.len() == 0
            &&& number_of(value) matches Some(n) ==> reports.len() == (if too_low(
                n,
                constraints.gt,
                false,
            ) {
                1int
            } else {
                0int
            }) + (if too_low(n, constraints.ge, true) {
                1int
            } else {
                0int
            }) + (if too_high(n, constraints.lt, false) {
                1int
            } else {
                0int
            }) + (if too_high(n, constraints.le, true) {
                1int
            } else {
                0int
            })
            &&& forall|i: int|
                0 <= i < reports.len() ==> (#[trigger] reports[i]).rule == Rule::BadArgumentType
                    && reports[i].range == range
        }),
{
}

/// The default of a field keeps within the limits of the field, and the limits must fit its type.
pub proof fn law_defaults_keep_within_the_limits<Ans: LookupAnswer>(
    solver: AnswersSolver<Ans>,
    field_name: Seq<char>,
    field_ty: Type,
    keywords: DataclassFieldKeywords,
    range: TextRange,
    default: Type,
    n: int,
)
    requires
        keywords.default == Some(default),
        number_of(default) == Some(n),
    ensures
        solver.range_reports(field_name, field_ty, keywords, range).len() == 0 <==> {
            &&& !too_low(n, keywords.gt, false)
            &&& !too_low(n, keywords.ge, true)
            &&& !too_high(n, keywords.lt, false)
            &&& !too_high(n, keywords.le, true)
            &&& keywords.gt matches Some(ty) ==> solver.answers.subset(ty, field_ty) is Ok
            &&& keywords.ge matches Some(ty) ==> solver.answers.subset(ty, field_ty) is Ok
            &&& keywords.lt matches Some(ty) ==> solver.answers.subset(ty, field_ty) is Ok
            &&& keywords.le matches Some(ty) ==> solver.answers.subset(ty, field_ty) is Ok
        },
{
}

/// A field without a default is only asked whether its limits fit its type.
pub proof fn law_limits_fit_the_type<Ans: LookupAnswer>(
    solver: AnswersSolver<Ans>,
    field_name: Seq<char>,
    field_ty: Type,
    keywords: DataclassFieldKeywords,
    range: TextRange,
)
    requires
        keywords.default is None,
    ensures
        solver.range_reports(field_name, field_ty, keywords, range).len() == 0 <==> {
            &&& keywords.gt matches Some(ty) ==> solver.answers.subset(ty, field_ty) is Ok
            &&& keywords.ge matches Some(ty) ==> solver.answers.subset(ty, field_ty) is Ok
            &&& keywords.lt matches Some(ty) ==> solver.answers.subset(ty, field_ty) is Ok
            &&& keywords.le matches Some(ty) ==> solver.answers.subset(ty, field_ty) is Ok
        },
{
}

/// A field that takes part in the constructor and has a limit is checked under each of its names;
/// any other field under none.
pub proof fn law_limited_fields_are_checked(entry: FieldEntry)
    ensures
        ({
            let limited = entry.2.init && (entry.2.gt is Some || entry.2.ge is Some || entry.2.lt
                is Some || entry.2.le is Some);
            let names = own_names(entry);
            &&& !limited ==> names.len() == 0
            &&& limited && entry.2.init_by_name ==> names.len() >= 1 && names[0].0 == entry.0
                && names[0].1.field_name == entry.0 && names[0].1.constraints.gt == entry.2.gt
                && names[0].1.constraints.ge == entry.2.ge && names[0].1.constraints.lt
                == entry.2.lt && names[0].1.constraints.le == entry.2.le
            &&& limited ==> (entry.2.init_by_alias matches Some(alias) ==> names.len() >= 1
                && names.last().0 == alias && names.last().1.field_name == entry.0)
        }),
{
}

/// Limits are gathered field by field, and by position only for fields that can be passed by
/// position.
pub proof fn law_limits_are_gathered_in_turn(entries: Seq<FieldEntry>, entry: FieldEntry)
    ensures
        constrained_names(entries.push(entry)) == constrained_names(entries) + own_names(entry),
        entry.2.kw_only == Some(true) ==> constrained_positions(entries.push(entry))
            == constrained_positions(entries),
        entry.2.kw_only != Some(true) ==> constrained_positions(entries.push(entry)).len()
            == constrained_positions(entries).len() + own_names(entry).len(),
{
    assert(entries.push(entry).drop_last() =~= entries);
}

/// Arguments are compared with the limits in order; behind an unpacked argument nothing is known.
pub proof fn law_arguments_are_compared_in_order<Ans: LookupAnswer>(
    solver: AnswersSolver<Ans>,
    value: ArgValue,
    range: TextRange,
    args: Seq<CallArg>,
    limit: crate::pydantic_args::PydanticParamConstraint,
    limits: Seq<crate::pydantic_args::PydanticParamConstraint>,
    expr: u64,
)
    ensures
        solver.positional_violations(seq![CallArg::Star(expr, range)] + args, limits).len() == 0,
        solver.positional_violations(
            seq![CallArg::Arg(value, range)] + args,
            seq![limit] + limits,
        ) == solver.violations(
            Checked::Argument,
            match value {
                ArgValue::Expr(e) => solver.answers.inferred(e),
                ArgValue::Type(t) => t,
            },
            limit.constraints,
            limit.field_name@,
            range,
        ) + solver.positional_violations(args, limits),
{
    assert((seq![CallArg::Arg(value, range)] + args).drop_first() =~= args);
    assert((seq![limit] + limits).drop_first() =~= limits);
}

/// Unknown keywords are taken where that is allowed or they are ignored, and not where they are
/// forbidden; anything else is no choice, and is reported.
pub proof fn law_extra_keywords_are_a_choice<Ans: LookupAnswer>(
    keywords: Seq<ClassKeyword>,
    dict: PydanticConfigDict,
    bases: Seq<BaseWithMetadata>,
    range: TextRange,
    annotation: crate::annotation::Annotation,
    text: String,
    implicit: bool,
)
    requires
        crate::pydantic_config::class_keyword(keywords, "extra"@) == Some(annotation),
        annotation.ty == Some(
            Type::Literal(Arc::new(Literal { value: Lit::Str(text), implicit })),
        ),
    ensures
        ({
            let accepted = AnswersSolver::<Ans>::accepts_extra(keywords, dict, bases);
            let reports = AnswersSolver::<Ans>::extra_report(keywords, range);
            &&& text@ == "allow"@ || text@ == "ignore"@ ==> accepted && reports.len() == 0
            &&& text@ == "forbid"@ ==> !accepted && reports.len() == 0
            &&& text@ != "allow"@ && text@ != "ignore"@ && text@ != "forbid"@ ==> accepted
                && reports.len() == 1 && reports[0].rule == Rule::InvalidLiteral
        }),
{
    reveal_strlit("allow");
    reveal_strlit("ignore");
    reveal_strlit("forbid");
    assert("forbid"@[0] == 'f' && "ignore"@[0] == 'i' && "allow"@[0] == 'a');
}

/// A model that says nothing, and whose bases say nothing, can be changed, takes unknown keywords,
/// converts values, and knows its fields by their other names alone.
pub proof fn law_models_have_defaults<Ans: LookupAnswer>(
    solver: AnswersSolver<Ans>,
    bases: Seq<BaseWithMetadata>,
    dict: PydanticConfigDict,
    decorators: Seq<Decorator>,
)
    requires
        any_gives(bases, Trait::Model),
        forall|i: int| 0 <= i < bases.len() ==> (#[trigger] bases[i]).metadata.dataclass is None,
        dict.frozen is None,
        dict.extra is None,
        dict.strict is None,
        dict.validate_by_name is None,
        dict.validate_by_alias is None,
    ensures
        solver.config(bases, dict, Seq::empty(), decorators) matches Some(config) && {
            &&& config.frozen == Some(false)
            &&& config.extra == Some(true)
            &&& config.strict == Some(false)
            &&& !config.validation_flags.validate_by_name
            &&& config.validation_flags.validate_by_alias
        },
{
    lemma_nothing_inherited(bases, Setting::Frozen);
    lemma_nothing_inherited(bases, Setting::Extra);
    lemma_nothing_inherited(bases, Setting::Strict);
    lemma_nothing_inherited(bases, Setting::ValidateByName);
    lemma_nothing_inherited(bases, Setting::ValidateByAlias);
}

proof fn lemma_nothing_inherited(bases: Seq<BaseWithMetadata>, setting: Setting)
    requires
        forall|i: int| 0 <= i < bases.len() ==> (#[trigger] bases[i]).metadata.dataclass is None,
    ensures
        crate::pydantic_config::inherited_setting(bases, setting) is None,
    decreases bases.len(),
{
    if bases.len() > 0 {
        let rest = bases.drop_first();
        assert forall|i: int| 0 <= i < rest.len() implies (#[trigger] rest[i]).metadata.dataclass
            is None by {
            assert(rest[i] == bases[i + 1]);
        }
        lemma_nothing_inherited(rest, setting);
        assert(bases[0].metadata.dataclass is None);
    }
}

/// What a model says of itself in its configuration holds.
pub proof fn law_configurations_hold<Ans: LookupAnswer>(
    solver: AnswersSolver<Ans>,
    bases: Seq<BaseWithMetadata>,
    dict: PydanticConfigDict,
    decorators: Seq<Decorator>,
)
    requires
        any_gives(bases, Trait::Model),
    ensures
        solver.config(bases, dict, Seq::empty(), decorators) matches Some(config) && {
            &&& dict.frozen is Some ==> config.frozen == dict.frozen
            &&& dict.extra is Some ==> config.extra == dict.extra
            &&& dict.strict is Some ==> config.strict == dict.strict
            &&& dict.validate_by_name matches Some(b) ==> config.validation_flags.validate_by_name
                == b
            &&& dict.validate_by_alias matches Some(b) ==> config.validation_flags.validate_by_alias
                == b
        },
{
}

/// The settings of the first base that is a model are inherited.
pub proof fn law_settings_are_inherited(bases: Seq<BaseWithMetadata>, dm: DataclassMetadata)
    requires
        bases.len() > 0,
        bases[0].metadata.pydantic_model_kind == Some(PydanticModelKind::BaseModel),
        bases[0].metadata.dataclass == Some(dm),
    ensures
        crate::pydantic_config::inherited_setting(bases, Setting::Frozen) == Some(dm.kws.frozen),
        crate::pydantic_config::inherited_setting(bases, Setting::Extra) == Some(dm.kws.extra),
        crate::pydantic_config::inherited_setting(bases, Setting::Strict) == Some(dm.kws.strict),
        crate::pydantic_config::inherited_setting(bases, Setting::ValidateByName) == Some(
            dm.init_defaults.init_by_name,
        ),
        crate::pydantic_config::inherited_setting(bases, Setting::ValidateByAlias) == Some(
            dm.init_defaults.init_by_alias,
        ),
{
}

/// A class is a model where a base makes it one, a model dataclass where a decorator does, and
/// otherwise neither.
pub proof fn law_bases_make_models<Ans: LookupAnswer>(
    solver: AnswersSolver<Ans>,
    bases: Seq<BaseWithMetadata>,
    dict: PydanticConfigDict,
    keywords: Seq<ClassKeyword>,
    decorators: Seq<Decorator>,
)
    ensures
        ({
            let config = solver.config(bases, dict, keywords, decorators);
            let model = any_gives(bases, Trait::Model);
            &&& config is Some == (model || pydantic_dataclass(decorators))
            &&& config matches Some(c) ==> (c.pydantic_model_kind is DataClass == !model)
            &&& config matches Some(c) ==> (model ==> c.pydantic_model_kind == model_kind(bases)
                && c.frozen is Some && c.extra is Some && c.strict is Some)
        }),
{
}

/// A base of the model library, or a base that is a model already, makes a class a model of its
/// kind: root models before settings, and settings before plain models.
pub proof fn law_models_have_the_kind_of_their_base(bases: Seq<BaseWithMetadata>, i: int)
    requires
        0 <= i < bases.len(),
    ensures
        bases[i].metadata.pydantic_model_kind == Some(PydanticModelKind::RootModel) ==> model_kind(
            bases,
        ) is RootModel,
        bases[i].class.toplevel && bases[i].class.module@ == "pydantic.root_model"@
            && bases[i].class.name@ == "RootModel"@ ==> model_kind(bases) is RootModel,
        bases[i].metadata.pydantic_model_kind == Some(PydanticModelKind::BaseSettings) ==> !(
        model_kind(bases) is BaseModel),
        bases[i].class.toplevel && bases[i].class.module@ == "pydantic"@ && bases[i].class.name@
            == "BaseModel"@ ==> any_gives(bases, Trait::Model),
        bases[i].metadata.pydantic_model_kind == Some(PydanticModelKind::BaseModel) ==> any_gives(
            bases,
            Trait::Model,
        ),
        bases.len() == 1 && bases[0].metadata.pydantic_model_kind == Some(
            PydanticModelKind::BaseModel,
        ) && !(bases[0].class.name@ == "RootModel"@) && !(bases[0].class.name@ == "BaseSettings"@)
            ==> model_kind(bases) is BaseModel,
        !(model_kind(bases) is DataClass),
{
    assert(gives(bases[i], Trait::RootModel) ==> any_gives(bases, Trait::RootModel));
    assert(gives(bases[i], Trait::Settings) ==> any_gives(bases, Trait::Settings));
    assert(gives(bases[i], Trait::Model) ==> any_gives(bases, Trait::Model));
}

/// The constructor of a root model takes the receiver and the root value. The value must be given
/// unless nothing is known of its type; it is taken as it is where the model is strict, and converted
/// otherwise.
pub proof fn law_root_models_take_their_root<Ans: LookupAnswer>(
    solver: AnswersSolver<Ans>,
    cls: Class,
    root: Type,
    has_strict: bool,
)
    ensures
        ({
            let unknown = root is Any || root is Quantified;
            parameters_of(solver.root_init(cls, root, has_strict)) matches Some(params)
                && params.len() == 2 && params[1] == Param::Pos(
                solver.dunder.root,
                if has_strict || unknown {
                    root
                } else {
                    Type::Any(AnyStyle::Explicit)
                },
                if unknown {
                    Required::Optional(None)
                } else {
                    Required::Required
                },
            )
        }),
{
    let unknown = root is Any || root is Quantified;
    List::<Param>::view_of(
        seq![
            solver.self_param(cls, false),
            Param::Pos(
                solver.dunder.root,
                if unknown || has_strict {
                    root
                } else {
                    Type::Any(AnyStyle::Explicit)
                },
                if unknown {
                    Required::Optional(None)
                } else {
                    Required::Required
                },
            ),
        ],
    );
}

/// Only root models have a root type.
pub proof fn law_only_root_models_have_roots<Ans: LookupAnswer>(
    solver: AnswersSolver<Ans>,
    class: Class,
    metadata: ClassMetadata,
)
    ensures
        metadata.pydantic_model_kind != Some(PydanticModelKind::RootModel) ==> solver.root_type(
            class,
            metadata,
        ) is None,
        solver.root_type(class, metadata) matches Some((_, strict)) ==> strict == solver.info(
            class,
        ).has_pydantic_strict_metadata,
{
}

/// A keyword counts where it was given last, and unpacked mappings count for none.
pub proof fn law_last_keywords_count(kws: Seq<Keyword>, kw: Keyword, name: Seq<char>)
    ensures
        keyword_named(Seq::empty(), name) is None,
        keyword_named(kws.push(kw), name) == if (kw.arg matches Some(arg) && arg@ == name) {
            Some(kw.expr)
        } else {
            keyword_named(kws, name)
        },
{
    assert(kws.push(kw).drop_last() =~= kws);
}

/// The limits, the strictness and the default of a field are those that are written at it.
pub proof fn law_field_options_are_what_is_written<Ans: LookupAnswer>(
    solver: AnswersSolver<Ans>,
    func: Type,
    call: CallExpr,
    dm: DataclassMetadata,
)
    ensures
        ({
            let kws = call.keywords@;
            let r = solver.field_keywords(func, call, dm);
            &&& r.gt is Some == keyword_named(kws, "gt"@) is Some
            &&& keyword_named(kws, "gt"@) matches Some(e) ==> r.gt == Some(
                solver.answers.inferred(e),
            )
            &&& keyword_named(kws, "ge"@) matches Some(e) ==> r.ge == Some(
                solver.answers.inferred(e),
            )
            &&& keyword_named(kws, "lt"@) matches Some(e) ==> r.lt == Some(
                solver.answers.inferred(e),
            )
            &&& keyword_named(kws, "le"@) matches Some(e) ==> r.le == Some(
                solver.answers.inferred(e),
            )
            &&& r.ge is Some == keyword_named(kws, "ge"@) is Some
            &&& r.lt is Some == keyword_named(kws, "lt"@) is Some
            &&& r.le is Some == keyword_named(kws, "le"@) is Some
            &&& keyword_named(kws, "default"@) matches Some(e) ==> r.default == Some(
                solver.answers.inferred(e),
            )
            &&& keyword_named(kws, "default"@) is None && (keyword_named(kws, "default_factory"@)
                is Some || keyword_named(kws, "factory"@) is Some) ==> r.default is Some
            &&& keyword_named(kws, "default"@) is None && keyword_named(kws, "default_factory"@)
                is None && keyword_named(kws, "factory"@) is None ==> r.default == if (
            dm.default_can_be_positional && call.args@.len() > 0 && !call.args@[0].is_ellipsis) {
                Some(solver.answers.inferred(call.args@[0].expr))
            } else {
                None
            }
            &&& keyword_named(kws, "strict"@) is None ==> r.strict is None
            &&& keyword_named(kws, "strict"@) matches Some(e) ==> r.strict == solver.answers.truth(
                solver.answers.inferred(e),
            )
        }),
{
}

/// A field takes part in the constructor unless it says that it does not, and is known under its own
/// name unless it has another one and the class says otherwise.
pub proof fn law_fields_take_part_unless_they_refuse<Ans: LookupAnswer>(
    solver: AnswersSolver<Ans>,
    func: Type,
    call: CallExpr,
    dm: DataclassMetadata,
)
    ensures
        ({
            let kws = call.keywords@;
            let r = solver.field_keywords(func, call, dm);
            &&& keyword_named(kws, "init"@) matches Some(e) ==> (solver.answers.truth(
                solver.answers.inferred(e),
            ) matches Some(b) ==> r.init == b)
            &&& keyword_named(kws, "kw_only"@) matches Some(e) ==> (solver.answers.truth(
                solver.answers.inferred(e),
            ) matches Some(b) ==> r.kw_only == Some(b))
            &&& r.init_by_alias is None ==> r.init_by_name
            &&& r.init_by_alias is Some ==> r.init_by_name == dm.init_defaults.init_by_name
        }),
{
    crate::keywords::law_stated_keywords_win(solver, func, call, dm);
}

/// A field specifier describes a field exactly where the class knows it as one.
pub proof fn law_only_specifiers_describe_fields<Ans: LookupAnswer>(
    solver: AnswersSolver<Ans>,
    call: CallExpr,
    dm: DataclassMetadata,
)
    ensures
        solver.specified(call, dm) is Some == (solver.answers.callee(
            solver.answers.inferred(call.func),
        ) matches Some(kind) && dm.field_specifiers@.contains(kind)),
{
}

/// Two bases that give a field types without a common value are reported once; so is every base that
/// lets more values be written than the common type takes.
pub proof fn law_bases_agree_on_their_fields<Ans: LookupAnswer>(
    solver: AnswersSolver<Ans>,
    cls: Class,
    group: GroupView,
    a: InheritedFieldInfo,
    b: InheritedFieldInfo,
)
    requires
        group.infos == seq![a, b],
        solver.info(cls).metadata.typed_dict is None,
    ensures
        ({
            let reports = solver.group_reports(cls, group);
            let common = solver.answers.intersection(seq![a.ty, b.ty]);
            let apart = common is Never || common is Intersect;
            let loose_a = !a.read_only && !a.ty.toplevel_callable() && solver.answers.subset(
                a.ty,
                common,
            ) is Err;
            let loose_b = !b.read_only && !b.ty.toplevel_callable() && solver.answers.subset(
                b.ty,
                common,
            ) is Err;
            &&& apart ==> reports.len() == 1
            &&& !apart ==> reports.len() == (if loose_a {
                1int
            } else {
                0int
            }) + (if loose_b {
                1int
            } else {
                0int
            })
            &&& forall|i: int|
                0 <= i < reports.len() ==> (#[trigger] reports[i]).rule
                    == Rule::InconsistentInheritance && reports[i].range == cls.range
        }),
{
    let types = group.infos.map_values(|info: InheritedFieldInfo| info.ty);
    assert(types =~= seq![a.ty, b.ty]);
    let common = solver.answers.intersection(seq![a.ty, b.ty]);
    let name = group.name;
    let range = cls.range;
    assert(group.infos.drop_last() =~= seq![a]);
    assert(group.infos.last() == b);
    assert(seq![a].drop_last() =~= Seq::<InheritedFieldInfo>::empty());
    assert(seq![a].last() == a);
    assert(solver.narrowed_reports(name, Seq::empty(), common, range).len() == 0);
    assert(solver.narrowed_reports(name, seq![a].drop_last(), common, range).len() == 0);
    let first = solver.narrowed_reports(name, seq![a], common, range);
    let both = solver.narrowed_reports(name, group.infos, common, range);
}

/// A field that the class declares itself, or that only one base has, is no matter of multiple
/// inheritance.
pub proof fn law_own_fields_settle_inheritance<Ans: LookupAnswer>(
    solver: AnswersSolver<Ans>,
    cls: Class,
    parent: ClassType,
    name: String,
    group: GroupView,
)
    ensures
        solver.info(cls).declares(name@) ==> solver.passed_on(cls, parent, name) is None,
        solver.member(parent.class, name@) is None ==> solver.passed_on(cls, parent, name) is None,
        group.infos.len() <= 1 ==> solver.group_reports(cls, group).len() == 0,
        solver.passed_on(cls, parent, name) matches Some(info) ==> info.class == parent.class
            && solver.member(parent.class, name@) == Some(info.field),
{
}

} // verus!
