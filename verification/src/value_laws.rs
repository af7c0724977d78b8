use std::sync::Arc;

use vstd::prelude::*;

use crate::annotation::{Annotation, Qualifier};
use crate::ast::{AnnAssign, Callee, ResolvedClass, ResolvedField, SourceExpr, SourceExprKind, Stmt};
use crate::class_field::IsInherited;
use crate::expr::{Expr, ExprOrBinding};
use crate::extract_init::{
    describes_only, dotted_value, field_named, gives_value, has_keyword, names_default, overrides,
    refined, written_annotation, written_default,
};
use crate::extract_types::default_text;
use crate::field_value::{inheritance_of, merged_annotation};
use crate::list::List;
use crate::report::{Rule, TextRange};
use crate::solver::{AnswersSolver, LookupAnswer};
use crate::stub::ParamView;
use crate::types::{AnyStyle, Class, Quantified, Type};
use crate::vars::has_var;

verus! {

/// Of an attribute without an annotation that is `None` or an empty tuple little is concluded, and
/// that is reported where the value stands. `__match_args__` may be empty, and other values have
/// their own types.
pub proof fn law_values_without_types_say_little<Ans: LookupAnswer>(
    solver: AnswersSolver<Ans>,
    e: Expr,
    name: Seq<char>,
)
    ensures
        ({
            let ty = solver.raw_attribute_type(e, None, name);
            let reports = solver.attribute_reports(e, None, name);
            let vague = e.kind is NoneLiteral || (e.kind is EmptyTuple && name
                != "__match_args__"@);
            &&& e.kind is NoneLiteral ==> ty == solver.answers.unioned(
                seq![Type::NoneType, Type::Any(AnyStyle::Implicit)],
            )
            &&& e.kind is EmptyTuple && name != "__match_args__"@ ==> ty == Type::UnboundedTuple(
                Arc::new(Type::Any(AnyStyle::Implicit)),
            )
            &&& !vague ==> ty == solver.answers.inferred(e.id) && reports
                == solver.answers.inferred_reports(e.id)
            &&& vague ==> reports.len() == 1 && reports[0].rule == Rule::ImplicitAnyAttribute
                && reports[0].range == e.range
        }),
{
}

/// A value is checked against the type that an annotation states.
pub proof fn law_annotated_values_are_checked<Ans: LookupAnswer>(
    solver: AnswersSolver<Ans>,
    e: Expr,
    annotation: Annotation,
    name: Seq<char>,
)
    ensures
        solver.raw_attribute_type(e, Some(annotation), name) == solver.answers.hinted(
            e.id,
            annotation.stated_type(),
            name,
        ),
        solver.attribute_reports(e, Some(annotation), name) == solver.answers.hinted_reports(
            e.id,
            annotation.stated_type(),
            name,
        ),
        solver.attribute_type(e, Some(annotation), name) == solver.answers.expanded(
            solver.raw_attribute_type(e, Some(annotation), name),
        ),
{
}

/// An assignment in a method to an inherited attribute is not looked at again; any other value is
/// looked at once, with the inherited annotation where there is one.
pub proof fn law_inherited_attributes_are_looked_at_once<Ans: LookupAnswer>(
    solver: AnswersSolver<Ans>,
    e: Expr,
    class: Class,
    name: Seq<char>,
    range: TextRange,
)
    ensures
        solver.inherited(class, name).0 is Some ==> solver.value_reports(
            ExprOrBinding::Expr(e),
            class,
            name,
            None,
            true,
            range,
        ).len() == 0,
        solver.inherited(class, name).0 is None ==> solver.value_reports(
            ExprOrBinding::Expr(e),
            class,
            name,
            None,
            true,
            range,
        ) == solver.attribute_reports(e, solver.inherited(class, name).1, name),
        solver.value_reports(ExprOrBinding::Expr(e), class, name, None, false, range)
            == solver.attribute_reports(e, solver.inherited(class, name).1, name),
        solver.value_reports(ExprOrBinding::AnyImplicit, class, name, None, false, range).len()
            == 0,
{
}

/// Names that begin with two underscores and do not end with two are private to their class, and not
/// passed on; all others are.
pub proof fn law_private_names_are_not_passed_on(name: Seq<char>)
    ensures
        name.len() >= 3 && name[0] == '_' && name[1] == '_' && name.last() != '_'
            ==> inheritance_of(name) == IsInherited::No,
        name.len() < 2 || name[0] != '_' || name[1] != '_' ==> inheritance_of(name)
            == IsInherited::Maybe,
        name.len() >= 4 && name.last() == '_' && name[name.len() - 2] == '_' ==> inheritance_of(
            name,
        ) == IsInherited::Maybe,
{
}

/// Qualifiers that are written at a field take the place of inherited ones, and the inherited type
/// stays.
pub proof fn law_written_qualifiers_replace_inherited(
    inherited: Option<Annotation>,
    qualifiers: Arc<List<Qualifier>>,
)
    ensures
        merged_annotation(inherited, None) == inherited,
        merged_annotation(inherited, Some(qualifiers)) matches Some(a) && a.qualifiers == qualifiers
            && (match inherited {
            Some(i) => a.ty == i.ty,
            None => a.ty is None,
        }),
{
}

/// The type variables that are out of scope are those that are used and not allowed, each of them
/// once.
pub proof fn law_strays_are_used_and_not_allowed<Ans: LookupAnswer>(
    qs: Seq<Quantified>,
    allowed: Seq<Quantified>,
    id: u64,
)
    ensures
        has_var(AnswersSolver::<Ans>::out_of_scope(qs, allowed), id) <==> has_var(qs, id)
            && !has_var(allowed, id),
        forall|i: int, j: int|
            0 <= i < j < AnswersSolver::<Ans>::out_of_scope(qs, allowed).len() ==> (
            #[trigger] AnswersSolver::<Ans>::out_of_scope(qs, allowed)[i]).id != (
            #[trigger] AnswersSolver::<Ans>::out_of_scope(qs, allowed)[j]).id,
    decreases qs.len(),
{
    let all = AnswersSolver::<Ans>::out_of_scope(qs, allowed);
    if qs.len() > 0 {
        let rest = qs.drop_last();
        let q = qs.last();
        let before = AnswersSolver::<Ans>::out_of_scope(rest, allowed);
        law_strays_are_used_and_not_allowed::<Ans>(rest, allowed, id);
        law_strays_are_used_and_not_allowed::<Ans>(rest, allowed, q.id);
        lemma_has_var_push(rest, q, id);
        assert(rest.push(q) =~= qs);
        lemma_has_var_push(before, q, id);
        if !(has_var(allowed, q.id) || has_var(before, q.id)) {
            assert(all =~= before.push(q));
            assert forall|i: int, j: int| 0 <= i < j < all.len() implies (#[trigger] all[i]).id != (
            #[trigger] all[j]).id by {
                assert(before[i] == all[i]);
                if j == before.len() {
                    assert(all[j] == q);
                } else {
                    assert(before[j] == all[j]);
                }
            }
        } else {
            assert(all =~= before);
        }
    }
}

proof fn lemma_has_var_push(qs: Seq<Quantified>, q: Quantified, id: u64)
    ensures
        has_var(qs.push(q), id) <==> has_var(qs, id) || q.id == id,
{
    let all = qs.push(q);
    if has_var(qs, id) {
        let i = choose|i: int| 0 <= i < qs.len() && #[trigger] qs[i].id == id;
        assert(all[i].id == id);
    }
    if q.id == id {
        assert(all[qs.len() as int].id == id);
    }
    if has_var(all, id) {
        let i = choose|i: int| 0 <= i < all.len() && #[trigger] all[i].id == id;
        if i < qs.len() {
            assert(qs[i].id == id);
        }
    }
}

/// Each stray type variable is reported once, with its name, the attribute and the class.
pub proof fn law_strays_are_reported_by_name<Ans: LookupAnswer>(
    strays: Seq<Quantified>,
    name: Seq<char>,
    class: Class,
    range: TextRange,
    i: int,
)
    requires
        0 <= i < strays.len(),
    ensures
        ({
            let reports = AnswersSolver::<Ans>::stray_reports(strays, name, class, range);
            &&& reports.len() == strays.len()
            &&& reports[i].rule == Rule::InvalidTypeVar
            &&& reports[i].range == range
            &&& reports[i].lines == seq![
                "Attribute `"@ + name + "` cannot depend on type variable `"@ + strays[i].name@
                    + "`, which is not in the scope of class `"@ + class.name@ + "`"@,
            ]
        }),
{
}

/// A qualifier that has no meaning where it stands is named in the one report on it.
pub proof fn law_meaningless_qualifiers_are_named<Ans: LookupAnswer>(
    annotation: Annotation,
    q: Qualifier,
    complaint: Seq<char>,
    range: TextRange,
)
    ensures
        ({
            let reports = AnswersSolver::<Ans>::misplaced(annotation, q, complaint, range);
            &&& reports.len() == if annotation.qualifiers@.contains(q) {
                1int
            } else {
                0int
            }
            &&& reports.len() > 0 ==> reports[0].rule == Rule::InvalidAnnotation
                && reports[0].range == range && reports[0].lines == seq![
                seq!['`'] + q.written() + complaint,
            ]
        }),
{
    reveal_strlit("`");
    assert("`"@ =~= seq!['`']);
}

/// A field is found under its name, the first one first.
pub proof fn law_fields_are_found_by_name(
    fields: Seq<ResolvedField>,
    field: ResolvedField,
    name: Seq<char>,
)
    ensures
        field_named(Seq::empty(), name) is None,
        field_named(seq![field] + fields, name) == if field.name@ == name {
            Some(field)
        } else {
            field_named(fields, name)
        },
{
    assert((seq![field] + fields).drop_first() =~= fields);
    assert((seq![field] + fields)[0] == field);
}

/// A constructor parameter keeps its name and place. Its annotation is the one that the class body
/// writes for its field, and a default that is not known is the one that the class body writes.
pub proof fn law_class_bodies_refine_parameters(
    p: ParamView,
    body: Seq<Stmt>,
    fields: Seq<ResolvedField>,
)
    ensures
        refined(p, body, fields).name == p.name,
        refined(p, body, fields).prefix == p.prefix,
        refined(p, body, fields).annotation == match written_annotation(body, fields, p.name) {
            Some(text) => Some(text),
            None => p.annotation,
        },
        p.default != Some("..."@) ==> refined(p, body, fields).default == p.default,
        p.default == Some("..."@) ==> refined(p, body, fields).default == match written_default(
            body,
            p.name,
        ) {
            Some(e) => Some(default_text(e)),
            None => Some("..."@),
        },
{
}

/// The last declaration of a field that can be passed under a name gives the annotation of the
/// parameter, and the last one that gives a value gives the default.
pub proof fn law_last_declarations_count(
    body: Seq<Stmt>,
    stmt: Stmt,
    a: AnnAssign,
    fields: Seq<ResolvedField>,
    param: Seq<char>,
)
    ensures
        written_annotation(Seq::empty(), fields, param) is None,
        written_default(Seq::empty(), param) is None,
        !(stmt is AnnAssign) ==> written_annotation(body.push(stmt), fields, param)
            == written_annotation(body, fields, param) && written_default(body.push(stmt), param)
            == written_default(body, param),
        written_annotation(body.push(Stmt::AnnAssign(a)), fields, param) == if overrides(
            a,
            fields,
            param,
        ) {
            Some(a.annotation@)
        } else {
            written_annotation(body, fields, param)
        },
        written_default(body.push(Stmt::AnnAssign(a)), param) == if gives_value(a, param) {
            a.value
        } else {
            written_default(body, param)
        },
{
    assert(body.push(stmt).drop_last() =~= body);
    assert(body.push(stmt).last() == stmt);
    let s = Stmt::AnnAssign(a);
    assert(body.push(s).drop_last() =~= body);
    assert(body.push(s).last() == s);
}

/// A declaration belongs to a parameter where its field is passed to the constructor under that name,
/// its own or its alias.
pub proof fn law_declarations_belong_to_parameters(
    a: AnnAssign,
    fields: Seq<ResolvedField>,
    target: String,
    f: ResolvedField,
    param: Seq<char>,
)
    requires
        a.target == Some(target),
        field_named(fields, target@) == Some(f),
    ensures
        f.is_init_var || !f.init ==> !overrides(a, fields, param),
        !f.is_init_var && f.init && f.init_by_name ==> overrides(a, fields, target@),
        !f.is_init_var && f.init ==> (f.init_by_alias matches Some(alias) ==> overrides(
            a,
            fields,
            alias@,
        )),
        !f.init_by_name && f.init_by_alias is None ==> !overrides(a, fields, param),
        overrides(a, fields, param) && f.init_by_alias is None ==> param == target@,
{
}

/// Three dots stand for the value of a field that has a default and can be passed under its own
/// name, unless the value only describes the field.
pub proof fn law_defaults_of_fields_are_dotted(
    c: ResolvedClass,
    name: Seq<char>,
    value: SourceExpr,
    f: ResolvedField,
)
    requires
        field_named(c.fields@, name) == Some(f),
        f.init_by_name,
    ensures
        dotted_value(Some(c), name, value) == (f.has_default && !describes_only(value)),
        !dotted_value(None, name, value),
{
}

/// A field that can be passed only under its alias has no three dots, and neither has a name that is
/// no field.
pub proof fn law_aliased_fields_are_not_dotted(
    c: ResolvedClass,
    name: Seq<char>,
    value: SourceExpr,
)
    ensures
        field_named(c.fields@, name) is None ==> !dotted_value(Some(c), name, value),
        field_named(c.fields@, name) matches Some(f) ==> (f.init_by_alias is Some && !f.init_by_name
            ==> !dotted_value(Some(c), name, value)),
{
}

/// `field()` and `Field()` only describe where they name no default, and where their first argument
/// is `...`.
pub proof fn law_specifiers_without_defaults_describe(e: SourceExpr, func: String)
    requires
        e.kind matches SourceExprKind::Call(call) && (call.func == Callee::Name(func) || call.func
            == Callee::Attribute(func)),
    ensures
        ({
            let call = e.kind->Call_0;
            let dotted = call.args@.len() > 0 && call.args@[0].kind is EllipsisLiteral;
            let bare = call.args@.len() == 0 && !names_default(call.keywords@);
            &&& func@ == "field"@ ==> describes_only(e) == (dotted || bare)
            &&& func@ == "Field"@ ==> describes_only(e) == (dotted || (bare && !has_keyword(
                call.keywords@,
                "validation_alias"@,
            )))
            &&& func@ != "field"@ && func@ != "Field"@ ==> !describes_only(e)
        }),
{
    reveal_strlit("field");
    reveal_strlit("Field");
    assert("field"@[0] == 'f');
    assert("Field"@[0] == 'F');
}

} // verus!
