use std::sync::Arc;

use pyrefly::annotation::{Annotation, DataclassFieldKeywords, Qualifier};
use pyrefly::attribute::{
    ClassAttribute, ClassBase, Descriptor, DescriptorBase, NoAccessReason, ReadOnlyReason,
};
use pyrefly::attributes::SuperObj;
use pyrefly::class_field::{ClassField, ClassFieldInitialization, ClassFieldInner, IsInherited};
use pyrefly::dataclass::ParamTransform;
use pyrefly::dataclass_fields::BaseWithMetadata;
use pyrefly::expr::{
    ArgValue, CallArg, CallExpr, CallKeyword, CalleeKind, ClassFieldDefinition, Expr, ExprKind,
    ExprOrBinding, Keyword, MethodSelfKind, MethodThatSetsAttr,
};
use pyrefly::instance::is_method;
use pyrefly::list::List;
use pyrefly::lit_int::LitInt;
use pyrefly::metadata::{
    ClassInfo, ClassMetadata, DataclassKeywords, DataclassMetadata, DeclaredField, InitDefaults,
    PydanticModelKind, SynthesizedField, TypedDictKey,
};
use pyrefly::names::{is_dunder, is_mangled_attr};
use pyrefly::nominal::{KnownType, NominalAnswers, Variable};
use pyrefly::pydantic_config::{ClassKeyword, Decorator, FunctionId, PydanticConfigDict};
use pyrefly::report::{ErrorCollector, Rule, TextRange};
use pyrefly::same::is_same_type;
use pyrefly::solver::{AnswersSolver, Dunder, LookupAnswer, Stdlib};
use pyrefly::subst::Subst;
use pyrefly::synthesis::InitStyle;
use pyrefly::types::{
    AnyStyle, Callable, Class, ClassType, FuncFlags, FuncMetadata, Function, Lit, Literal, Param,
    Params, PropertyMetadata, PropertyRole, Quantified, Required, Restriction, TArg, Type,
};

type Solver = AnswersSolver<NominalAnswers>;

fn at(start: u32, end: u32) -> TextRange {
    TextRange::new(start, end)
}

fn class(id: u64, name: &str) -> Class {
    Class::new(id, "main", name, at(id as u32, id as u32 + 1), 1000 + id)
}

fn builtin(id: u64, name: &str) -> ClassType {
    ClassType {
        class: Class::new(id, "builtins", name, at(0, 0), 1000 + id),
        targs: Arc::new(List::Nil),
    }
}

fn plain(cls: &Class) -> ClassType {
    ClassType { class: cls.dupe(), targs: Arc::new(List::Nil) }
}

fn object() -> ClassType {
    builtin(1, "object")
}

fn int_type() -> Type {
    Type::ClassType(builtin(2, "int"))
}

fn boolean() -> Type {
    Type::ClassType(builtin(3, "bool"))
}

fn string() -> Type {
    Type::ClassType(builtin(4, "str"))
}

fn int_literal(n: u64) -> Type {
    Type::Literal(Arc::new(Literal { value: Lit::Int(LitInt::from_u64(n)), implicit: false }))
}

fn truth(b: bool) -> Type {
    Type::Literal(Arc::new(Literal { value: Lit::Bool(b), implicit: false }))
}

fn text(s: &str) -> Type {
    Type::Literal(Arc::new(Literal { value: Lit::Str(s.to_owned()), implicit: false }))
}

fn metadata() -> ClassMetadata {
    ClassMetadata {
        is_protocol: false,
        is_enum: false,
        is_django_model: false,
        is_marshmallow_schema: false,
        is_factory_boy_factory: false,
        has_base_any: false,
        pydantic_model_kind: None,
        custom_metaclass: None,
        named_tuple: None,
        typed_dict: None,
        dataclass: None,
        base_class_objects: vec![],
    }
}

fn dataclass_keywords() -> DataclassKeywords {
    DataclassKeywords {
        init: true,
        order: false,
        frozen: false,
        match_args: true,
        kw_only: false,
        eq: true,
        unsafe_hash: false,
        slots: false,
        extra: false,
        strict: true,
    }
}

fn dataclass(fields: &[&str]) -> DataclassMetadata {
    DataclassMetadata {
        fields: fields.iter().map(|f| f.to_string()).collect(),
        kws: dataclass_keywords(),
        init_defaults: InitDefaults { init_by_name: false, init_by_alias: true },
        default_can_be_positional: false,
        alias_keyword: "alias".to_owned(),
        field_specifiers: vec![CalleeKind::Other(70)],
        pydantic_before_validator_fields: vec![],
    }
}

fn info(cls: &Class) -> ClassInfo {
    ClassInfo {
        class: cls.dupe(),
        metadata: metadata(),
        tparams: Arc::new(List::Nil),
        bases: vec![],
        ancestors: vec![],
        fields: Some(vec![]),
        synthesized: vec![],
        extends_any: false,
        is_nn_module: false,
        has_pydantic_strict_metadata: false,
        instance_slots: None,
        instance_type: plain(cls),
    }
}

fn derived(cls: &Class, bases: &[&Class]) -> ClassInfo {
    let mut r = info(cls);
    for base in bases {
        r.bases.push(plain(base));
        r.ancestors.push(plain(base));
    }
    r.ancestors.push(object());
    r
}

fn with_field(mut of: ClassInfo, name: &str, field: ClassField) -> ClassInfo {
    let mut fields = of.fields.take().unwrap();
    let start = 100 + fields.len() as u32;
    fields.push(DeclaredField {
        name: name.to_owned(),
        range: Some(at(start, start + 1)),
        annotated: true,
        field: Some(field),
    });
    of.fields = Some(fields);
    of
}

fn annotation(ty: Type, qualifiers: Vec<Qualifier>) -> Annotation {
    Annotation { ty: Some(ty), qualifiers: Arc::new(List::from_vec(qualifiers)) }
}

fn attribute(ty: Type, initialization: ClassFieldInitialization) -> ClassField {
    ClassField {
        inner: ClassFieldInner::ClassAttribute {
            annotation: Some(annotation(ty.dupe(), vec![])),
            ty,
            initialization,
            read_only_reason: None,
            is_classvar: false,
            is_staticmethod: false,
            is_foreign_key: false,
            has_choices: false,
        },
        is_inherited: IsInherited::Maybe,
    }
}

fn declared(ty: Type) -> ClassField {
    attribute(ty, ClassFieldInitialization::Uninitialized)
}

fn defaulted(ty: Type) -> ClassField {
    let mut keywords = DataclassFieldKeywords::new();
    keywords.default = Some(ty.dupe());
    attribute(ty, ClassFieldInitialization::ClassBody(Some(Arc::new(keywords))))
}

fn final_attribute(ty: Type) -> ClassField {
    ClassField {
        inner: ClassFieldInner::ClassAttribute {
            annotation: Some(annotation(ty.dupe(), vec![Qualifier::Final])),
            ty,
            initialization: ClassFieldInitialization::ClassBody(None),
            read_only_reason: Some(ReadOnlyReason::Final(true)),
            is_classvar: false,
            is_staticmethod: false,
            is_foreign_key: false,
            has_choices: false,
        },
        is_inherited: IsInherited::Maybe,
    }
}

fn function(name: &str, params: Vec<Param>, ret: Type) -> Function {
    Function {
        signature: Arc::new(Callable { params: Params::List(List::from_vec(params)), ret }),
        metadata: Arc::new(FuncMetadata::def(&name.to_owned())),
    }
}

fn method(name: &str, params: Vec<Param>, ret: Type) -> ClassField {
    ClassField {
        inner: ClassFieldInner::Method {
            ty: Type::Function(function(name, params, ret)),
            is_abstract: false,
            is_function_without_return_annotation: false,
        },
        is_inherited: IsInherited::Maybe,
    }
}

fn property(cls: &Class, ret: Type) -> ClassField {
    let getter = function(
        "p",
        vec![Param::Pos("self".to_owned(), Type::ClassType(plain(cls)), Required::Required)],
        ret,
    );
    let metadata = FuncMetadata {
        name: "p".to_owned(),
        flags: FuncFlags::new(),
        property: Some(Arc::new(PropertyMetadata {
            role: PropertyRole::Getter,
            getter: Arc::new(Type::Any(AnyStyle::Implicit)),
            setter: None,
            has_deleter: false,
        })),
    };
    ClassField {
        inner: ClassFieldInner::Property {
            ty: Type::Function(Function {
                signature: getter.signature,
                metadata: Arc::new(metadata),
            }),
            is_abstract: false,
        },
        is_inherited: IsInherited::Maybe,
    }
}

fn answers() -> NominalAnswers {
    NominalAnswers {
        descends: vec![(3, 2), (2, 1), (3, 1), (4, 1)],
        int_class: builtin(2, "int"),
        bool_class: builtin(3, "bool"),
        str_class: builtin(4, "str"),
        expressions: vec![],
        definitions: vec![],
        variables: vec![],
    }
}

fn solver(classes: Vec<ClassInfo>) -> Solver {
    AnswersSolver {
        answers: answers(),
        classes,
        unknown: info(&class(999, "Unknown")),
        stdlib: Stdlib {
            object: object(),
            str_class: builtin(4, "str"),
            int_class: builtin(2, "int"),
            bool_class: builtin(3, "bool"),
            dataclass_fields: builtin(5, "DataclassFields"),
            any_coroutine: builtin(6, "Coroutine"),
        },
        dunder: Dunder::new(),
    }
}

fn lines(errors: &ErrorCollector) -> Vec<Vec<String>> {
    errors.reports.iter().map(|r| r.lines.clone()).collect()
}

fn rules(errors: &ErrorCollector) -> Vec<Rule> {
    errors.reports.iter().map(|r| r.rule).collect()
}

fn shown(s: &Solver, ty: &Type) -> String {
    s.answers.display(ty)
}

fn params_of(field: &ClassField) -> Vec<(String, bool, bool)> {
    let mut out = Vec::new();
    if let Type::Function(f) = field.ty() {
        if let Params::List(params) = &f.signature.params {
            let mut i = 0;
            while let Some(p) = params.get(i) {
                out.push(match p {
                    Param::Pos(n, _, r) => (n.clone(), false, matches!(r, Required::Required)),
                    Param::KwOnly(n, _, r) => (n.clone(), true, matches!(r, Required::Required)),
                    Param::PosOnly(n, _, r) => (
                        format!("{}/", n.clone().unwrap_or_default()),
                        false,
                        matches!(r, Required::Required),
                    ),
                    Param::VarArg(n, _) => (format!("*{:?}", n), false, false),
                    Param::Kwargs(_, _) => ("**".to_owned(), true, false),
                });
                i += 1;
            }
        }
    }
    out
}

fn literal_names(field: &ClassField) -> Vec<String> {
    let mut out = Vec::new();
    if let Type::Tuple(ts) = field.ty() {
        let mut i = 0;
        while let Some(t) = ts.get(i) {
            if let Type::Literal(lit) = t {
                if let Lit::Str(s) = &lit.value {
                    out.push(s.clone());
                }
            }
            i += 1;
        }
    }
    out
}

// Attributes.

#[test]
fn attributes_lose_their_writes_once() {
    let attr = ClassAttribute::read_write(int_type());
    assert!(!attr.is_read_only());
    let once = attr.read_only_equivalent(ReadOnlyReason::ClassVar);
    assert!(once.is_read_only());
    let twice = once.read_only_equivalent(ReadOnlyReason::NamedTuple);
    assert!(matches!(twice, ClassAttribute::ReadOnly(_, ReadOnlyReason::ClassVar)));
    let closed = ClassAttribute::no_access(NoAccessReason::SettingReadOnlyProperty(class(20, "C")))
        .read_only_equivalent(ReadOnlyReason::ClassVar);
    assert!(matches!(closed, ClassAttribute::NoAccess(_)));
}

#[test]
fn properties_with_setters_are_data_descriptors() {
    let with_setter = ClassAttribute::property(int_type(), Some(int_type()), class(20, "C"));
    assert!(with_setter.is_data_descriptor());
    assert!(!with_setter.is_read_only());
    let without = with_setter.read_only_equivalent(ReadOnlyReason::ClassVar);
    assert!(!without.is_data_descriptor());
    assert!(without.is_read_only());
    let descriptor = ClassAttribute::descriptor(
        Descriptor { range: at(0, 0), cls: plain(&class(30, "D")), getter: true, setter: true },
        DescriptorBase::Instance(plain(&class(20, "C"))),
    );
    assert!(descriptor.is_data_descriptor());
}

#[test]
fn attribute_fits_itself_and_writes_ask_for_writes() {
    let s = solver(vec![]);
    let writable = ClassAttribute::read_write(int_type());
    let read_only = ClassAttribute::read_only(int_type(), ReadOnlyReason::Final(true));
    assert!(s.is_class_attribute_subset(&writable, &writable.dupe(), &s.answers).is_ok());
    assert!(s.is_class_attribute_subset(&read_only, &writable, &s.answers).is_err());
    assert!(s.is_class_attribute_subset(&writable, &read_only, &s.answers).is_ok());
    let narrower = ClassAttribute::read_write(boolean());
    assert!(s.is_class_attribute_subset(&narrower, &writable, &s.answers).is_err());
    assert!(s.is_class_attribute_subset(&narrower, &read_only, &s.answers).is_ok());
}

#[test]
fn instance_attributes_bind_methods() {
    let c = class(20, "C");
    let own = with_field(
        with_field(derived(&c, &[]), "x", declared(int_type())),
        "m",
        method(
            "m",
            vec![Param::Pos("self".to_owned(), Type::ClassType(plain(&c)), Required::Required)],
            string(),
        ),
    );
    let s = solver(vec![own]);
    assert!(matches!(
        s.get_instance_attribute(&plain(&c), &"x".to_owned()),
        Some(ClassAttribute::ReadWrite(Type::ClassType(t))) if t.class.name == "int"
    ));
    assert!(matches!(
        s.get_instance_attribute(&plain(&c), &"m".to_owned()),
        Some(ClassAttribute::ReadWrite(Type::BoundMethod(_)))
            | Some(ClassAttribute::ReadOnly(Type::BoundMethod(_), _))
    ));
    assert!(s.get_instance_attribute(&plain(&c), &"y".to_owned()).is_none());
}

#[test]
fn the_nearest_definition_wins() {
    let (a, b, c) = (class(20, "A"), class(21, "B"), class(22, "C"));
    let s = solver(vec![
        with_field(derived(&a, &[]), "x", declared(int_type())),
        with_field(derived(&b, &[]), "x", declared(string())),
        derived(&c, &[&b, &a]),
    ]);
    let found = s.get_class_member_with_defining_class(&c, "x").unwrap();
    assert!(found.is_defined_on("main", "B"));
    assert!(!found.is_defined_on("main", "A"));
    assert_eq!(shown(&s, &found.value.ty()), "str");
    assert!(s.get_class_member(&c, "y").is_none());
    assert!(s.field_is_inherited_from(&c, "x", "main", "B"));
}

#[test]
fn constructors_of_object_are_left_out() {
    let (c, o) = (class(20, "C"), object().class);
    let init = method(
        "__init__",
        vec![Param::Pos("self".to_owned(), Type::ClassType(object()), Required::Required)],
        Type::NoneType,
    );
    let s = solver(vec![derived(&c, &[]), with_field(info(&o), "__init__", init)]);
    assert!(s.get_dunder_init(&plain(&c), false).is_none());
    assert!(matches!(s.get_dunder_init(&plain(&c), true), Some(Type::BoundMethod(_))));
}

// Fields.

#[test]
fn instantiated_fields_keep_their_kind() {
    let t = Quantified { id: 7, name: "T".to_owned(), restriction: Restriction::Unrestricted };
    let field = declared(Type::Quantified(Arc::new(t.dupe())));
    let args = Arc::new(List::single(TArg { param: t, value: int_type() }));
    let out = field.instantiate_helper(&Subst::Args(args));
    assert!(matches!(out.inner, ClassFieldInner::ClassAttribute { .. }));
    assert!(matches!(out.ty(), Type::ClassType(c) if c.class.name == "int"));
    assert_eq!(out.is_class_var(), field.is_class_var());
    assert!(out.has_explicit_annotation());
}

#[test]
fn descriptor_fields_have_one_kind_of_information() {
    let d = plain(&class(30, "D"));
    let mut field = ClassField {
        inner: ClassFieldInner::Descriptor {
            ty: Type::ClassType(d.dupe()),
            annotation: None,
            descriptor: Descriptor { range: at(3, 4), cls: d.dupe(), getter: true, setter: false },
        },
        is_inherited: IsInherited::Maybe,
    };
    assert!(field.non_data_descriptor_info().is_some());
    assert!(field.data_descriptor_info().is_none());
    field.inner = ClassFieldInner::Descriptor {
        ty: Type::ClassType(d.dupe()),
        annotation: None,
        descriptor: Descriptor { range: at(3, 4), cls: d, getter: true, setter: true },
    };
    assert!(field.non_data_descriptor_info().is_none());
    assert!(field.data_descriptor_info().is_some());
    assert!(!field.is_read_only());
}

#[test]
fn nested_classes_are_read_only() {
    let c = class(20, "C");
    let mut s = solver(vec![derived(&c, &[])]);
    s.answers.definitions.push(KnownType { id: 5, ty: Type::ClassDef(class(21, "Inner")) });
    let mut errors = ErrorCollector::new();
    let field = s.calculate_class_field(
        &c,
        &"Inner".to_owned(),
        at(1, 2),
        &ClassFieldDefinition::NestedClass { definition: 5 },
        false,
        &mut errors,
    );
    assert!(matches!(field.inner, ClassFieldInner::NestedClass { .. }));
    assert!(field.is_read_only());
    assert!(errors.is_empty());
}

fn assigned_in(method_name: &str, recognized: bool) -> ClassFieldDefinition {
    ClassFieldDefinition::DefinedInMethod {
        value: ExprOrBinding::Expr(Expr { id: 8, range: at(5, 6), kind: ExprKind::Other }),
        annotation: None,
        method: MethodThatSetsAttr {
            method_name: method_name.to_owned(),
            recognized_attribute_defining_method: recognized,
            instance_or_class: MethodSelfKind::Instance,
        },
    }
}

#[test]
fn assignments_keep_inherited_properties() {
    let (a, c) = (class(20, "A"), class(21, "C"));
    let s = solver(vec![
        with_field(derived(&a, &[]), "p", property(&a, int_type())),
        derived(&c, &[&a]),
    ]);
    let mut errors = ErrorCollector::new();
    let field = s.calculate_class_field(
        &c,
        &"p".to_owned(),
        at(1, 2),
        &assigned_in("update", false),
        false,
        &mut errors,
    );
    assert!(field.is_property());
    assert!(errors.is_empty());
}

#[test]
fn assignments_outside_of_constructors_are_reported() {
    let c = class(20, "C");
    let mut s = solver(vec![derived(&c, &[])]);
    s.answers.expressions.push(KnownType { id: 8, ty: int_type() });
    let mut errors = ErrorCollector::new();
    let field = s.calculate_class_field(
        &c,
        &"x".to_owned(),
        at(1, 2),
        &assigned_in("update", false),
        false,
        &mut errors,
    );
    assert_eq!(shown(&s, &field.ty()), "int");
    assert_eq!(
        lines(&errors),
        vec![vec![
            "Attribute `x` is implicitly defined by assignment in method `update`, which is not a constructor"
        ]]
    );
    assert_eq!(rules(&errors), vec![Rule::ImplicitlyDefinedAttribute]);
    let mut silent = ErrorCollector::new();
    s.calculate_class_field(
        &c,
        &"x".to_owned(),
        at(1, 2),
        &assigned_in("__init__", true),
        false,
        &mut silent,
    );
    assert!(silent.is_empty());
}

#[test]
fn slots_rule_out_other_attributes() {
    let c = class(20, "C");
    let mut own = derived(&c, &[]);
    own.instance_slots = Some(vec!["a".to_owned()]);
    let mut s = solver(vec![own]);
    s.answers.expressions.push(KnownType { id: 8, ty: int_type() });
    let mut errors = ErrorCollector::new();
    for name in ["a", "b"] {
        s.calculate_class_field(
            &c,
            &name.to_owned(),
            at(1, 2),
            &assigned_in("__init__", true),
            false,
            &mut errors,
        );
    }
    assert_eq!(
        lines(&errors),
        vec![vec!["Object of class `C` has no attribute `b` (not declared in `__slots__`)"]]
    );
}

#[test]
fn stray_type_variables_are_replaced() {
    let t = Quantified { id: 7, name: "T".to_owned(), restriction: Restriction::Unrestricted };
    let u = Quantified { id: 8, name: "U".to_owned(), restriction: Restriction::Unrestricted };
    let c = class(20, "C");
    let mut own = derived(&c, &[]);
    own.tparams = Arc::new(List::single(t.dupe()));
    let s = solver(vec![own]);
    let mut errors = ErrorCollector::new();
    let scoped = Type::Quantified(Arc::new(t));
    let kept = s.check_and_sanitize_type_parameters(&c, scoped, "x", at(1, 2), &mut errors);
    assert!(matches!(kept, Type::Quantified(q) if q.id == 7));
    assert!(errors.is_empty());
    let stray = Type::Quantified(Arc::new(u));
    let out = s.check_and_sanitize_type_parameters(&c, stray, "x", at(1, 2), &mut errors);
    assert!(matches!(out, Type::Any(_)));
    assert_eq!(
        lines(&errors),
        vec![vec![
            "Attribute `x` cannot depend on type variable `U`, which is not in the scope of class `C`"
        ]]
    );
    assert_eq!(rules(&errors), vec![Rule::InvalidTypeVar]);
}

#[test]
fn named_tuple_members_take_no_qualifiers() {
    let s = solver(vec![]);
    let mut m = metadata();
    m.named_tuple = Some(vec!["x".to_owned()]);
    let mut errors = ErrorCollector::new();
    s.validate_direct_annotation(
        &annotation(int_type(), vec![Qualifier::Final, Qualifier::ReadOnly]),
        &m,
        &ClassFieldInitialization::Uninitialized,
        "x",
        at(1, 2),
        &mut errors,
    );
    assert_eq!(
        lines(&errors),
        vec![
            vec!["`Final` may not be used for NamedTuple members"],
            vec!["`ReadOnly` may only be used for TypedDict members"],
        ]
    );
}

#[test]
fn enum_members_are_literals() {
    let e = class(20, "Color");
    let member = attribute(
        Type::Literal(Arc::new(Literal {
            value: Lit::Enum(plain(&e), "RED".to_owned()),
            implicit: false,
        })),
        ClassFieldInitialization::ClassBody(None),
    );
    let s = solver(vec![]);
    assert!(matches!(s.as_enum_member(&member, &e), Some(Lit::Enum(_, name)) if name == "RED"));
    assert!(s.as_enum_member(&member, &class(21, "Other")).is_none());
    assert!(s.as_enum_member(&declared(int_type()), &e).is_none());
}

// Writing.

#[test]
fn writes_of_read_only_attributes_are_reported() {
    let c = class(20, "C");
    let s = solver(vec![derived(&c, &[])]);
    let attr = ClassAttribute::read_only(int_type(), ReadOnlyReason::Final(false));
    let mut errors = ErrorCollector::new();
    let mut narrow = true;
    let mut narrowed = Vec::new();
    let value = ArgValue::Type(int_type());
    s.check_class_attr_set_and_infer_narrow(
        &attr,
        Some(&plain(&c)),
        None,
        "x",
        &value,
        false,
        at(1, 2),
        &mut errors,
        &mut narrow,
        &mut narrowed,
    );
    assert!(narrowed.is_empty());
    assert!(!narrow);
    assert_eq!(
        lines(&errors),
        vec![vec!["Cannot set field `x`", "This field is marked as Final"]]
    );
    assert_eq!(rules(&errors), vec![Rule::ReadOnly]);
    let mut allowed = ErrorCollector::new();
    let mut narrow = true;
    s.check_class_attr_set_and_infer_narrow(
        &attr,
        Some(&plain(&c)),
        None,
        "x",
        &value,
        true,
        at(1, 2),
        &mut allowed,
        &mut narrow,
        &mut narrowed,
    );
    assert!(allowed.is_empty());
    assert!(narrow);
    assert_eq!(narrowed.len(), 1);
}

#[test]
fn property_setters_end_narrowing() {
    let c = class(20, "C");
    let s = solver(vec![derived(&c, &[])]);
    let mut errors = ErrorCollector::new();
    let mut narrow = true;
    let mut narrowed = Vec::new();
    let value = ArgValue::Type(string());
    s.check_class_attr_set_and_infer_narrow(
        &ClassAttribute::property(int_type(), Some(string()), c.dupe()),
        Some(&plain(&c)),
        None,
        "p",
        &value,
        false,
        at(1, 2),
        &mut errors,
        &mut narrow,
        &mut narrowed,
    );
    assert!(narrowed.is_empty());
    assert!(!narrow);
    assert!(errors.is_empty());
    let mut narrow = true;
    s.check_class_attr_set_and_infer_narrow(
        &ClassAttribute::property(int_type(), None, c.dupe()),
        Some(&plain(&c)),
        None,
        "p",
        &value,
        false,
        at(1, 2),
        &mut errors,
        &mut narrow,
        &mut narrowed,
    );
    assert!(narrowed.is_empty());
    assert_eq!(rules(&errors), vec![Rule::ReadOnly]);
}

#[test]
fn deleting_read_only_attributes_is_reported() {
    let s = solver(vec![]);
    let mut errors = ErrorCollector::new();
    s.check_class_attr_delete(&ClassAttribute::read_write(int_type()), "x", at(1, 2), &mut errors);
    assert!(errors.is_empty());
    s.check_class_attr_delete(
        &ClassAttribute::read_only(int_type(), ReadOnlyReason::NamedTuple),
        "x",
        at(1, 2),
        &mut errors,
    );
    assert_eq!(
        lines(&errors),
        vec![vec!["Cannot delete field `x`", "This field is an element of a NamedTuple"]]
    );
}

// Overrides.

#[test]
fn overriding_a_final_field_is_reported() {
    let (a, c) = (class(20, "A"), class(21, "C"));
    let s = solver(vec![
        with_field(derived(&a, &[]), "x", final_attribute(int_type())),
        with_field(derived(&c, &[&a]), "x", declared(int_type())),
    ]);
    let mut errors = ErrorCollector::new();
    s.check_consistent_override_for_field(
        &c,
        &"x".to_owned(),
        &declared(int_type()),
        &vec![plain(&a)],
        &mut errors,
    );
    assert_eq!(
        errors.reports[0].lines,
        vec!["`x` is declared as final in parent class `A`".to_owned()]
    );
    assert_eq!(errors.reports[0].rule, Rule::BadOverride);
}

#[test]
fn uninherited_fields_are_not_checked() {
    let (a, c) = (class(20, "A"), class(21, "C"));
    let s = solver(vec![
        with_field(derived(&a, &[]), "x", final_attribute(int_type())),
        with_field(derived(&c, &[&a]), "x", declared(int_type())),
    ]);
    let mut field = declared(int_type());
    field.is_inherited = IsInherited::No;
    let mut errors = ErrorCollector::new();
    s.check_consistent_override_for_field(
        &c,
        &"x".to_owned(),
        &field,
        &vec![plain(&a)],
        &mut errors,
    );
    assert!(errors.is_empty());
}

#[test]
fn inconsistent_overrides_are_reported() {
    let (a, c) = (class(20, "A"), class(21, "C"));
    let s = solver(vec![
        with_field(derived(&a, &[]), "x", declared(int_type())),
        with_field(derived(&c, &[&a]), "x", declared(string())),
    ]);
    let mut errors = ErrorCollector::new();
    s.check_consistent_override_for_field(
        &c,
        &"x".to_owned(),
        &declared(string()),
        &vec![plain(&a)],
        &mut errors,
    );
    assert_eq!(
        errors.reports[0].lines[0],
        "Class member `C.x` overrides parent class `A` in an inconsistent manner"
    );
    assert_eq!(errors.reports[0].rule, Rule::BadOverrideMutableAttribute);
    assert_eq!(errors.reports[0].range, at(100, 101));
}

#[test]
fn overrides_of_nothing_are_reported() {
    let (a, c) = (class(20, "A"), class(21, "C"));
    let mut flags = FuncFlags::new();
    flags.is_override = true;
    let marked = ClassField {
        inner: ClassFieldInner::Method {
            ty: Type::Function(Function {
                signature: function("m", vec![], int_type()).signature,
                metadata: Arc::new(FuncMetadata { name: "m".to_owned(), flags, property: None }),
            }),
            is_abstract: false,
            is_function_without_return_annotation: false,
        },
        is_inherited: IsInherited::Maybe,
    };
    let s = solver(vec![
        derived(&a, &[]),
        with_field(derived(&c, &[&a]), "m", marked.dupe()),
    ]);
    let mut errors = ErrorCollector::new();
    s.check_consistent_override_for_field(
        &c,
        &"m".to_owned(),
        &marked,
        &vec![plain(&a)],
        &mut errors,
    );
    assert_eq!(
        lines(&errors),
        vec![vec![
            "Class member `C.m` is marked as an override, but no parent class has a matching attribute"
        ]]
    );
}

#[test]
fn bases_that_do_not_fit_are_reported() {
    let (a, b, c) = (class(20, "A"), class(21, "B"), class(22, "C"));
    let s = solver(vec![
        with_field(derived(&a, &[]), "x", declared(int_type())),
        with_field(derived(&b, &[]), "x", declared(string())),
        derived(&c, &[&a, &b]),
    ]);
    let mut errors = ErrorCollector::new();
    s.check_consistent_multiple_inheritance(&c, &mut errors);
    assert_eq!(
        lines(&errors),
        vec![vec![
            "Field `x` has inconsistent types inherited from multiple base classes",
            "Inherited types include:",
            "  `int` from `A`",
            "  `str` from `B`",
        ]]
    );
    assert_eq!(rules(&errors), vec![Rule::InconsistentInheritance]);
}

#[test]
fn a_single_base_is_consistent() {
    let (a, c) = (class(20, "A"), class(22, "C"));
    let s = solver(vec![
        with_field(derived(&a, &[]), "x", declared(int_type())),
        derived(&c, &[&a]),
    ]);
    let mut errors = ErrorCollector::new();
    s.check_consistent_multiple_inheritance(&c, &mut errors);
    assert!(errors.is_empty());
}

// Dataclasses.

fn base(cls: &Class, frozen: Option<bool>) -> BaseWithMetadata {
    let mut m = metadata();
    if let Some(frozen) = frozen {
        let mut d = dataclass(&[]);
        d.kws.frozen = frozen;
        m.dataclass = Some(d);
    }
    BaseWithMetadata { class: cls.dupe(), metadata: Arc::new(m) }
}

#[test]
fn frozen_and_other_dataclasses_do_not_mix() {
    let (a, c) = (class(20, "A"), class(21, "C"));
    let s = solver(vec![]);
    let mut d = dataclass(&[]);
    let mut errors = ErrorCollector::new();
    s.validate_frozen_dataclass_inheritance(
        &c,
        &d,
        &vec![base(&a, Some(true)), base(&a, None), base(&a, Some(false))],
        true,
        &mut errors,
    );
    assert_eq!(
        lines(&errors),
        vec![vec!["Cannot inherit non-frozen dataclass `C` from frozen dataclass `A`"]]
    );
    assert_eq!(rules(&errors), vec![Rule::InvalidInheritance]);
    d.kws.frozen = true;
    let mut errors = ErrorCollector::new();
    s.validate_frozen_dataclass_inheritance(
        &c,
        &d,
        &vec![base(&a, Some(false))],
        true,
        &mut errors,
    );
    assert!(errors.is_empty());
    s.validate_frozen_dataclass_inheritance(
        &c,
        &d,
        &vec![base(&a, Some(false))],
        false,
        &mut errors,
    );
    assert_eq!(
        lines(&errors),
        vec![vec!["Cannot inherit frozen dataclass `C` from non-frozen dataclass `A`"]]
    );
}

fn kw_only(ty: Type) -> ClassField {
    let mut keywords = DataclassFieldKeywords::new();
    keywords.kw_only = Some(true);
    attribute(ty, ClassFieldInitialization::ClassBody(Some(Arc::new(keywords))))
}

fn style() -> InitStyle {
    InitStyle {
        strict_default: true,
        transform: ParamTransform::Keep,
        force_optional: false,
        lax_types: None,
    }
}

#[test]
fn positional_fields_come_first() {
    let c = class(20, "C");
    let d = dataclass(&["k", "a", "b"]);
    let mut own = with_field(derived(&c, &[]), "k", kw_only(int_type()));
    own = with_field(own, "a", declared(int_type()));
    own = with_field(own, "b", defaulted(string()));
    own.metadata.dataclass = Some(dataclass(&["k", "a", "b"]));
    let s = solver(vec![own]);
    let sets = s.compute_kw_only_fields_by_class(&c);
    let names: Vec<String> =
        s.iter_fields(&c, &d, true, &sets).into_iter().map(|entry| entry.0).collect();
    assert_eq!(names, vec!["a", "b", "k"]);
    let mut errors = ErrorCollector::new();
    let init = s.get_dataclass_init(&c, &d, &style(), &sets, &mut errors);
    assert_eq!(
        params_of(&init),
        vec![
            ("self".to_owned(), false, true),
            ("a".to_owned(), false, true),
            ("b".to_owned(), false, false),
            ("k".to_owned(), true, true),
        ]
    );
    assert!(errors.is_empty());
    assert_eq!(literal_names(&s.get_dataclass_match_args(&c, &d, &sets)), vec!["a", "b"]);
    assert_eq!(literal_names(&s.get_dataclass_slots(&c, &d, &sets)), vec!["a", "b", "k"]);
    let replace = s.get_dataclass_replace(&c, &d, &sets, &mut errors);
    assert!(errors.is_empty());
    assert_eq!(
        params_of(&replace),
        vec![
            ("self/".to_owned(), false, true),
            ("a".to_owned(), true, false),
            ("b".to_owned(), true, false),
            ("k".to_owned(), true, false),
        ]
    );
}

#[test]
fn fields_without_default_come_before_those_with_one() {
    let c = class(20, "C");
    let d = dataclass(&["a", "b"]);
    let own = with_field(
        with_field(derived(&c, &[]), "a", defaulted(int_type())),
        "b",
        declared(string()),
    );
    let s = solver(vec![own]);
    let sets = s.compute_kw_only_fields_by_class(&c);
    let mut errors = ErrorCollector::new();
    s.get_dataclass_init(&c, &d, &style(), &sets, &mut errors);
    assert_eq!(
        lines(&errors),
        vec![vec!["Dataclass field `b` without a default may not follow dataclass field with a default"]]
    );
    assert_eq!(errors.reports[0].range, at(101, 102));
    assert_eq!(rules(&errors), vec![Rule::BadClassDefinition]);
}

#[test]
fn fields_of_bases_come_first() {
    let (a, b, c) = (class(20, "A"), class(21, "B"), class(22, "C"));
    let mut first = base(&a, None);
    let mut second = base(&b, None);
    Arc::get_mut(&mut first.metadata).unwrap().dataclass = Some(dataclass(&["x", "y"]));
    Arc::get_mut(&mut second.metadata).unwrap().dataclass = Some(dataclass(&["y", "z"]));
    let own = with_field(
        with_field(derived(&c, &[&a, &b]), "z", declared(int_type())),
        "w",
        declared(int_type()),
    );
    let s = solver(vec![own]);
    let fields = s.get_dataclass_fields(&c, &vec![first, second]);
    let names: Vec<String> = fields.iter().cloned().collect();
    assert_eq!(names, vec!["y", "z", "x", "w"]);
}

#[test]
fn ordered_dataclasses_get_all_comparisons() {
    let c = class(20, "C");
    let s = solver(vec![derived(&c, &[])]);
    let methods: Vec<SynthesizedField> = s.get_dataclass_rich_comparison_methods(&c);
    let names: Vec<&str> = methods.iter().map(|m| m.name.as_str()).collect();
    assert_eq!(names.len(), 6);
    for name in ["__lt__", "__le__", "__eq__", "__ne__", "__gt__", "__ge__"] {
        assert!(names.contains(&name));
    }
    let hash = s.get_dataclass_hash(&c);
    assert_eq!(params_of(&hash), vec![("self".to_owned(), false, true)]);
}

fn specifier_call(keywords: Vec<(&str, u64)>) -> CallExpr {
    CallExpr {
        expr: 90,
        func: 91,
        args: vec![],
        keywords: keywords
            .into_iter()
            .map(|(name, expr)| Keyword { arg: Some(name.to_owned()), expr })
            .collect(),
    }
}

#[test]
fn stated_options_of_fields_win() {
    let mut s = solver(vec![]);
    let signature = function(
        "field",
        vec![
            Param::KwOnly(
                "init".to_owned(),
                boolean(),
                Required::Optional(Some(Arc::new(truth(false)))),
            ),
            Param::KwOnly(
                "kw_only".to_owned(),
                boolean(),
                Required::Optional(Some(Arc::new(truth(true)))),
            ),
        ],
        int_type(),
    );
    let func = Type::Function(signature);
    s.answers.expressions.push(KnownType { id: 1, ty: truth(true) });
    s.answers.expressions.push(KnownType { id: 2, ty: text("other") });
    let d = dataclass(&[]);
    let mut errors = ErrorCollector::new();
    let stated = s.dataclass_field_keywords(
        &func,
        &specifier_call(vec![("init", 1), ("alias", 2)]),
        &d,
        &mut errors,
    );
    assert!(stated.init);
    assert_eq!(stated.kw_only, Some(true));
    assert_eq!(stated.init_by_alias, Some("other".to_owned()));
    let unstated =
        s.dataclass_field_keywords(&func, &specifier_call(vec![]), &d, &mut errors);
    assert!(!unstated.init);
    assert!(errors.is_empty());
}

// Pydantic.

#[test]
fn defaults_keep_to_their_range() {
    let s = solver(vec![]);
    let mut keywords = DataclassFieldKeywords::new();
    keywords.ge = Some(int_literal(3));
    keywords.le = Some(int_literal(10));
    for (value, expected) in [(3, 0), (10, 0), (2, 1), (11, 1)] {
        keywords.default = Some(int_literal(value));
        let mut errors = ErrorCollector::new();
        s.check_pydantic_range_constraints("age", &int_type(), &keywords, at(1, 2), &mut errors);
        assert_eq!(errors.reports.len(), expected);
    }
    keywords.default = Some(int_literal(2));
    let mut errors = ErrorCollector::new();
    s.check_pydantic_range_constraints("age", &int_type(), &keywords, at(1, 2), &mut errors);
    assert_eq!(
        lines(&errors),
        vec![vec![
            "Default value `Literal[2]` violates Pydantic `ge` constraint `Literal[3]` for field `age`"
        ]]
    );
    let mut errors = ErrorCollector::new();
    keywords.default = None;
    keywords.le = None;
    s.check_pydantic_range_constraints("age", &string(), &keywords, at(1, 2), &mut errors);
    assert_eq!(
        lines(&errors),
        vec![vec![
            "Pydantic `ge` value has type `Literal[3]`, which is not assignable to field type `str`"
        ]]
    );
}

#[test]
fn arguments_keep_to_their_range() {
    let c = class(20, "C");
    let mut keywords = DataclassFieldKeywords::new();
    keywords.gt = Some(int_literal(5));
    let field = attribute(int_type(), ClassFieldInitialization::ClassBody(Some(Arc::new(keywords))));
    let s = solver(vec![with_field(derived(&c, &[]), "n", field)]);
    let d = dataclass(&["n"]);
    let mut errors = ErrorCollector::new();
    s.check_pydantic_argument_range_constraints(
        &c,
        &d,
        &vec![CallArg::Arg(ArgValue::Type(int_literal(5)), at(1, 2))],
        &vec![],
        &mut errors,
    );
    s.check_pydantic_argument_range_constraints(
        &c,
        &d,
        &vec![],
        &vec![CallKeyword {
            arg: Some("n".to_owned()),
            value: ArgValue::Type(int_literal(4)),
            range: at(3, 4),
        }],
        &mut errors,
    );
    s.check_pydantic_argument_range_constraints(
        &c,
        &d,
        &vec![CallArg::Arg(ArgValue::Type(int_literal(6)), at(1, 2))],
        &vec![],
        &mut errors,
    );
    assert_eq!(
        lines(&errors),
        vec![
            vec!["Argument value `Literal[5]` violates Pydantic `gt` constraint `Literal[5]` for field `n`"],
            vec!["Argument value `Literal[4]` violates Pydantic `gt` constraint `Literal[5]` for field `n`"],
        ]
    );
    assert_eq!(errors.reports[1].range, at(3, 4));
}

fn no_settings() -> PydanticConfigDict {
    PydanticConfigDict {
        frozen: None,
        extra: None,
        strict: None,
        validate_by_name: None,
        validate_by_alias: None,
    }
}

fn base_model() -> BaseWithMetadata {
    BaseWithMetadata {
        class: Class::new(40, "pydantic.main", "BaseModel", at(0, 0), 1040),
        metadata: Arc::new(metadata()),
    }
}

#[test]
fn nearer_settings_of_models_win() {
    let s = solver(vec![]);
    let mut dict = no_settings();
    dict.frozen = Some(true);
    let mut errors = ErrorCollector::new();
    let from_dict = s
        .pydantic_config(&vec![base_model()], &dict, &vec![], &vec![], &mut errors, at(0, 1))
        .unwrap();
    assert_eq!(from_dict.frozen, Some(true));
    assert_eq!(from_dict.pydantic_model_kind, PydanticModelKind::BaseModel);
    let keyword =
        ClassKeyword { name: "frozen".to_owned(), annotation: annotation(truth(false), vec![]) };
    let from_keyword = s
        .pydantic_config(&vec![base_model()], &dict, &vec![keyword], &vec![], &mut errors, at(0, 1))
        .unwrap();
    assert_eq!(from_keyword.frozen, Some(false));
    assert!(errors.is_empty());
}

#[test]
fn unknown_extra_settings_are_reported() {
    let s = solver(vec![]);
    let mut errors = ErrorCollector::new();
    let forbid =
        ClassKeyword { name: "extra".to_owned(), annotation: annotation(text("forbid"), vec![]) };
    let config = s
        .pydantic_config(
            &vec![base_model()],
            &no_settings(),
            &vec![forbid],
            &vec![],
            &mut errors,
            at(0, 1),
        )
        .unwrap();
    assert_eq!(config.extra, Some(false));
    assert!(errors.is_empty());
    let wrong =
        ClassKeyword { name: "extra".to_owned(), annotation: annotation(text("maybe"), vec![]) };
    s.pydantic_config(
        &vec![base_model()],
        &no_settings(),
        &vec![wrong],
        &vec![],
        &mut errors,
        at(0, 1),
    );
    assert_eq!(
        lines(&errors),
        vec![vec!["Invalid value for `extra`. Expected one of 'allow', 'ignore', or 'forbid'"]]
    );
}

#[test]
fn other_classes_have_no_model_settings() {
    let s = solver(vec![]);
    let mut errors = ErrorCollector::new();
    let a = base(&class(20, "A"), None);
    assert!(s
        .pydantic_config(&vec![a], &no_settings(), &vec![], &vec![], &mut errors, at(0, 1))
        .is_none());
    let decorator = Decorator {
        function: Some(FunctionId {
            module: "pydantic.dataclasses".to_owned(),
            name: "dataclass".to_owned(),
        }),
        called: None,
    };
    let config = s
        .pydantic_config(
            &vec![],
            &no_settings(),
            &vec![],
            &vec![decorator],
            &mut errors,
            at(0, 1),
        )
        .unwrap();
    assert_eq!(config.pydantic_model_kind, PydanticModelKind::DataClass);
    assert_eq!(config.frozen, None);
}

#[test]
fn root_models_unfold() {
    let root_model = Class::new(50, "pydantic.root_model", "RootModel", at(0, 0), 1050);
    let t = Quantified { id: 7, name: "T".to_owned(), restriction: Restriction::Unrestricted };
    let of = |value: Type| ClassType {
        class: Class::new(50, "pydantic.root_model", "RootModel", at(0, 0), 1050),
        targs: Arc::new(List::single(TArg { param: t.dupe(), value })),
    };
    let s = solver(vec![info(&root_model)]);
    let inner = Type::ClassType(of(int_type()));
    let one = s.extract_root_model_inner_type(&inner).unwrap();
    assert_eq!(shown(&s, &one), "int");
    let two = s.extract_root_model_inner_type(&Type::ClassType(of(inner))).unwrap();
    assert_eq!(shown(&s, &two), "RootModel | int");
    assert!(s.extract_root_model_inner_type(&int_type()).is_none());
}

#[test]
fn replacing_keeps_what_is_no_dataclass() {
    let c = class(20, "C");
    let s = solver(vec![derived(&c, &[])]);
    let mut errors = ErrorCollector::new();
    let args = vec![CallArg::Arg(ArgValue::Type(int_type()), at(1, 2))];
    let replace = Type::Function(function("replace", vec![], string()));
    let out = s.call_dataclasses_replace(&replace, &args, &vec![], 3, &mut errors);
    assert_eq!(shown(&s, &out), "str");
}

// Numbers and names.

#[test]
fn literals_compare_by_value() {
    let two = LitInt::from_u64(2);
    let ten = LitInt::from_u64(10);
    assert!(two.less(&ten));
    assert!(!ten.less(&two));
    assert!(ten.negated().less(&two.negated()));
    assert!(ten.negated().less(&two));
    assert!(!two.less(&two.dupe()));
    assert!(!LitInt::from_u64(0).negated().less(&LitInt::from_u64(0)));
    assert_eq!(LitInt::from_u64(u64::MAX).text(), "18446744073709551615");
    assert_eq!(ten.negated().text(), "-10");
}

#[test]
fn private_names_are_mangled() {
    assert!(is_mangled_attr("__x"));
    assert!(!is_mangled_attr("__x__"));
    assert!(!is_mangled_attr("_x"));
    assert!(is_dunder("__x__"));
    assert!(!is_dunder("__x"));
}

#[test]
fn class_bases_name_their_class() {
    let c = class(20, "C");
    let as_type = ClassBase::ClassType(plain(&c));
    assert_eq!(as_type.class_object().name, "C");
    assert!(matches!(as_type.to_type(), Type::TypeOf(_)));
    assert!(matches!(ClassBase::ClassDef(plain(&c)).to_type(), Type::ClassDef(_)));
}

// Lookups on other receivers.

fn self_param(cls: &Class) -> Param {
    Param::Pos("self".to_owned(), Type::ClassType(plain(cls)), Required::Required)
}

#[test]
fn methods_of_literal_strings_are_bound_to_them() {
    let str_class = builtin(4, "str").class;
    let upper = method("upper", vec![self_param(&str_class)], string());
    let s = solver(vec![with_field(info(&str_class), "upper", upper)]);
    match s.get_literal_string_attribute(&"upper".to_owned()) {
        Some(ClassAttribute::ReadWrite(Type::BoundMethod(m)))
        | Some(ClassAttribute::ReadOnly(Type::BoundMethod(m), _)) => {
            assert!(matches!(m.obj, Type::LiteralString));
        }
        _ => panic!("not a bound method"),
    }
    assert!(s.get_literal_string_attribute(&"lower".to_owned()).is_none());
}

#[test]
fn keys_are_no_attributes_of_typed_dictionaries() {
    let td = class(20, "Movie");
    let mut own = with_field(derived(&td, &[]), "name", declared(string()));
    own = with_field(own, "m", method("m", vec![self_param(&td)], int_type()));
    own.metadata.typed_dict = Some(vec![TypedDictKey { name: "name".to_owned(), is_total: true }]);
    let s = solver(vec![own]);
    assert!(s.get_typed_dict_attribute(&plain(&td), &"name".to_owned()).is_none());
    assert!(s.get_typed_dict_attribute(&plain(&td), &"m".to_owned()).is_some());
    assert!(matches!(
        s.get_typed_dict_dunder_init(&plain(&td)),
        Type::Any(AnyStyle::Error)
    ));
}

#[test]
fn super_skips_the_class_itself() {
    let (a, b) = (class(20, "A"), class(21, "B"));
    let s = solver(vec![
        with_field(derived(&a, &[]), "x", declared(int_type())),
        with_field(derived(&b, &[&a]), "x", declared(string())),
    ]);
    let attr = s
        .get_super_attribute(&plain(&a), &SuperObj::Instance(plain(&b)), &"x".to_owned())
        .unwrap();
    assert!(matches!(attr, ClassAttribute::ReadWrite(t) if shown(&s, &t) == "int"));
    assert!(s
        .get_super_attribute(&plain(&a), &SuperObj::Instance(plain(&b)), &"y".to_owned())
        .is_none());
}

#[test]
fn super_tells_arguments_apart() {
    let t = Quantified { id: 7, name: "T".to_owned(), restriction: Restriction::Unrestricted };
    let (a, b) = (class(20, "A"), class(21, "B"));
    let of = |value: Type| ClassType {
        class: a.dupe(),
        targs: Arc::new(List::single(TArg { param: t.dupe(), value })),
    };
    let mut own = derived(&b, &[]);
    own.ancestors = vec![of(int_type()), object()];
    let s = solver(vec![with_field(derived(&a, &[]), "x", declared(int_type())), own]);
    let found = |start: ClassType| s.get_super_class_member(&b, Some(&start), "x").is_some();
    assert!(found(of(int_type())));
    assert!(!found(of(string())));
    assert!(!found(plain(&a)));
    assert!(s.get_super_class_member(&b, None, "x").is_some());
}

#[test]
fn types_are_the_same_when_built_alike() {
    let c = class(20, "C");
    let of = |name: &str, ret: Type| Type::Function(function(name, vec![self_param(&c)], ret));
    assert!(is_same_type(&of("m", string()), &of("m", string())));
    assert!(!is_same_type(&of("m", string()), &of("n", string())));
    assert!(!is_same_type(&of("m", string()), &of("m", int_type())));
    assert!(is_same_type(&int_literal(3), &int_literal(3)));
    assert!(!is_same_type(&int_literal(3), &int_literal(4)));
    assert!(!is_same_type(&Type::NoneType, &Type::Never));
}

#[test]
fn super_needs_an_implementation() {
    let (a, b) = (class(20, "A"), class(21, "B"));
    let mut flags = FuncFlags::new();
    flags.is_abstract = true;
    flags.lacks_runtime_implementation = true;
    let stub = ClassField {
        inner: ClassFieldInner::Method {
            ty: Type::Function(Function {
                signature: function("m", vec![self_param(&a)], int_type()).signature,
                metadata: Arc::new(FuncMetadata { name: "m".to_owned(), flags, property: None }),
            }),
            is_abstract: true,
            is_function_without_return_annotation: false,
        },
        is_inherited: IsInherited::Maybe,
    };
    let s = solver(vec![with_field(derived(&a, &[]), "m", stub), derived(&b, &[&a])]);
    assert!(matches!(
        s.get_super_attribute(&plain(&a), &SuperObj::Instance(plain(&b)), &"m".to_owned()),
        Some(ClassAttribute::NoAccess(NoAccessReason::SuperMethodNeedsImplementation(_)))
    ));
}

#[test]
fn calls_of_plain_classes_construct() {
    let (c, type_class) = (class(20, "C"), builtin(8, "type"));
    let call = method("__call__", vec![self_param(&type_class.class)], int_type());
    let mut own = derived(&c, &[]);
    own.metadata.custom_metaclass = Some(type_class.dupe());
    let s = solver(vec![own, with_field(info(&type_class.class), "__call__", call)]);
    let attr = s.get_metaclass_attribute(
        &ClassBase::ClassDef(plain(&c)),
        &type_class,
        &"__call__".to_owned(),
    );
    assert!(matches!(attr, Some(ClassAttribute::ReadWrite(Type::Callable(_)))));
    assert!(s.get_metaclass_dunder_call(&plain(&c)).is_none());
}

#[test]
fn calls_of_other_metaclasses_are_bound() {
    let (c, meta) = (class(20, "C"), class(30, "Meta"));
    let call = method("__call__", vec![self_param(&meta)], int_type());
    let mut own = derived(&c, &[]);
    own.metadata.custom_metaclass = Some(plain(&meta));
    let s = solver(vec![own, with_field(info(&meta), "__call__", call)]);
    assert!(matches!(s.get_metaclass_dunder_call(&plain(&c)), Some(Type::BoundMethod(_))));
}

#[test]
fn constructors_are_those_of_the_class() {
    let c = class(20, "C");
    let own = with_field(
        derived(&c, &[]),
        "__new__",
        method("__new__", vec![self_param(&c)], Type::ClassType(plain(&c))),
    );
    let s = solver(vec![own]);
    assert!(matches!(s.get_dunder_new(&plain(&c), false), Some(Type::Function(_))));
    assert!(s.get_dunder_new(&plain(&class(21, "D")), false).is_none());
}

#[test]
fn instances_are_called_through_their_class() {
    let (c, net) = (class(20, "C"), class(21, "Net"));
    let callable = with_field(
        derived(&c, &[]),
        "__call__",
        method("__call__", vec![self_param(&c)], int_type()),
    );
    let mut module = with_field(
        derived(&net, &[]),
        "forward",
        method("forward", vec![self_param(&net)], string()),
    );
    module.is_nn_module = true;
    let s = solver(vec![callable, module]);
    assert!(matches!(s.instance_as_dunder_call(&plain(&c)), Some(Type::BoundMethod(_))));
    assert!(matches!(s.self_as_dunder_call(&plain(&net)), Some(Type::BoundMethod(_))));
    assert!(s.instance_as_dunder_call(&plain(&class(22, "D"))).is_none());
}

#[test]
fn named_tuple_elements_are_read_only_members() {
    let c = class(20, "Point");
    let mut element = declared(int_type());
    if let ClassFieldInner::ClassAttribute { read_only_reason, .. } = &mut element.inner {
        *read_only_reason = Some(ReadOnlyReason::NamedTuple);
    }
    let own = with_field(
        with_field(derived(&c, &[]), "x", element),
        "other",
        declared(int_type()),
    );
    let s = solver(vec![own]);
    let ty = s.resolve_named_tuple_element(&plain(&c), "x").unwrap();
    assert_eq!(shown(&s, &ty), "int");
    assert!(s.resolve_named_tuple_element(&plain(&c), "other").is_none());
}

#[test]
fn methods_inherit_signatures() {
    let (a, c) = (class(20, "A"), class(21, "C"));
    let s = solver(vec![
        with_field(
            derived(&a, &[]),
            "m",
            method(
                "m",
                vec![
                    self_param(&a),
                    Param::Pos("x".to_owned(), int_type(), Required::Required),
                ],
                string(),
            ),
        ),
        derived(&c, &[&a]),
    ]);
    let (signature, _) = s.inherited_method_signature(&c, "m").unwrap();
    match &signature.params {
        Params::List(params) => {
            assert!(matches!(params.get(1), Some(Param::Pos(name, _, _)) if name == "x"));
        }
        _ => panic!("no parameters"),
    }
    assert!(s.inherited_method_signature(&a, "m").is_none());
}

#[test]
fn fields_are_described() {
    let c = class(20, "C");
    let s = solver(vec![]);
    assert_eq!(s.describe_field(&property(&c, int_type())), "... (property)");
    let m = method("m", vec![], int_type());
    assert_eq!(m.describe_kind(), "method");
    let nested = ClassField {
        inner: ClassFieldInner::NestedClass { ty: Type::ClassDef(class(21, "Inner")) },
        is_inherited: IsInherited::No,
    };
    assert_eq!(s.describe_field(&nested), "type[Inner] (nested class)");
}

#[test]
fn dataclasses_get_their_methods() {
    let c = class(20, "C");
    let mut own = with_field(derived(&c, &[]), "a", declared(int_type()));
    let mut d = dataclass(&["a"]);
    d.kws.slots = true;
    own.metadata.dataclass = Some(d);
    let s = solver(vec![own]);
    let mut errors = ErrorCollector::new();
    let fields = s.get_dataclass_synthesized_fields(&c, &mut errors).unwrap();
    let names: Vec<&str> = fields.iter().map(|f| f.name.as_str()).collect();
    for name in ["__init__", "__dataclass_fields__", "__match_args__", "__slots__", "__replace__"] {
        assert!(names.contains(&name));
    }
    assert!(!names.contains(&"__lt__"));
    assert!(errors.is_empty());
    assert!(s.get_dataclass_synthesized_fields(&class(21, "D"), &mut errors).is_none());
}

#[test]
fn slots_are_not_given_twice() {
    let c = class(20, "C");
    let mut own = with_field(derived(&c, &[]), "__slots__", declared(int_type()));
    let mut d = dataclass(&[]);
    d.kws.slots = true;
    own.metadata.dataclass = Some(d);
    let s = solver(vec![own]);
    let mut errors = ErrorCollector::new();
    let fields = s.get_dataclass_synthesized_fields(&c, &mut errors).unwrap();
    assert!(fields.iter().all(|f| f.name != "__slots__"));
    assert_eq!(
        lines(&errors),
        vec![vec!["Cannot specify both `slots=True` and `__slots__`"]]
    );
}

#[test]
fn descriptors_without_setter_are_no_dataclass_values() {
    let (c, d_cls) = (class(20, "C"), class(30, "D"));
    let descriptor = ClassField {
        inner: ClassFieldInner::Descriptor {
            ty: Type::ClassType(plain(&d_cls)),
            annotation: Some(annotation(Type::ClassType(plain(&d_cls)), vec![])),
            descriptor: Descriptor {
                range: at(3, 4),
                cls: plain(&d_cls),
                getter: true,
                setter: false,
            },
        },
        is_inherited: IsInherited::Maybe,
    };
    let mut own = with_field(derived(&c, &[]), "x", descriptor);
    own.metadata.dataclass = Some(dataclass(&["x"]));
    let s = solver(vec![own, derived(&d_cls, &[])]);
    let mut errors = ErrorCollector::new();
    s.get_dataclass_synthesized_fields(&c, &mut errors);
    assert_eq!(
        lines(&errors),
        vec![vec![
            "Cannot set field `x` to non-data descriptor `D`",
            "Hint: add a `__set__` method to make `D` a data descriptor",
        ]]
    );
}

#[test]
fn long_literals_keep_all_digits() {
    let digits = |text: &str| {
        List::from_vec(text.bytes().map(|b| b - b'0').collect())
    };
    let big = LitInt::from_digits(false, digits("123456789012345678901234567890")).unwrap();
    assert_eq!(big.text(), "123456789012345678901234567890");
    assert!(LitInt::from_u64(u64::MAX).less(&big));
    assert!(big.negated().less(&LitInt::from_u64(0)));
    assert!(LitInt::from_digits(false, List::single(10)).is_none());
}

fn descriptor(getter: bool, setter: bool) -> Descriptor {
    Descriptor { range: at(3, 4), cls: plain(&class(30, "D")), getter, setter }
}

#[test]
fn a_descriptor_without_a_getter_has_neither_kind_of_information() {
    for setter in [false, true] {
        let field = ClassField {
            inner: ClassFieldInner::Descriptor {
                ty: Type::ClassType(plain(&class(30, "D"))),
                annotation: None,
                descriptor: descriptor(false, setter),
            },
            is_inherited: IsInherited::Maybe,
        };
        assert!(field.data_descriptor_info().is_none());
        assert!(field.non_data_descriptor_info().is_none());
        assert!(!field.is_non_data_descriptor());
    }
}

#[test]
fn unions_with_a_method_are_bound() {
    let callable = Type::Callable(Arc::new(Callable {
        params: Params::List(List::Nil),
        ret: int_type(),
    }));
    let union = Type::Union(Arc::new(List::from_vec(vec![callable, Type::NoneType])));
    let body = ClassFieldInitialization::ClassBody(None);
    assert!(is_method(&union, &body, "__add__", &None));
    assert!(!is_method(&union, &ClassFieldInitialization::Method, "__add__", &None));
    assert!(!is_method(&union, &ClassFieldInitialization::Uninitialized, "__add__", &None));
    assert!(!is_method(&union, &body, "add", &None));
    let marked = Some(annotation(union.dupe(), vec![Qualifier::ClassVar]));
    assert!(is_method(&union, &body, "add", &marked));
    let numbers = Type::Union(Arc::new(List::from_vec(vec![int_type(), Type::NoneType])));
    assert!(!is_method(&numbers, &body, "__add__", &None));
}

#[test]
fn descriptors_are_read_through_their_method() {
    let d = class(30, "D");
    let getter = method(
        "__get__",
        vec![Param::Pos("self".to_owned(), Type::ClassType(plain(&d)), Required::Required)],
        string(),
    );
    let s = solver(vec![with_field(derived(&d, &[]), "__get__", getter)]);
    let base = || DescriptorBase::Instance(plain(&class(20, "C")));
    let mut errors = ErrorCollector::new();
    let read = |getter: bool, errors: &mut ErrorCollector| {
        let attr = ClassAttribute::Descriptor(descriptor(getter, false), base());
        match s.resolve_get_class_attr(&attr, at(1, 2), errors) {
            Ok(ty) => shown(&s, &ty),
            Err(_) => "no access".to_owned(),
        }
    };
    assert_eq!(read(true, &mut errors), "str");
    assert_eq!(read(false, &mut errors), "D");
    assert!(errors.is_empty());
    let refused = ClassAttribute::no_access(NoAccessReason::SettingReadOnlyProperty(d.dupe()));
    assert!(s.resolve_get_class_attr(&refused, at(1, 2), &mut errors).is_err());
    assert!(errors.is_empty());
}

#[test]
fn fields_come_once() {
    let c = class(20, "C");
    let d = dataclass(&["a", "b", "a"]);
    let mut own = with_field(derived(&c, &[]), "a", declared(int_type()));
    own = with_field(own, "b", declared(string()));
    let s = solver(vec![own]);
    let sets = s.compute_kw_only_fields_by_class(&c);
    let names: Vec<String> =
        s.iter_fields(&c, &d, true, &sets).into_iter().map(|entry| entry.0).collect();
    assert_eq!(names, vec!["a", "b"]);
}

#[test]
fn keyword_only_fields_are_listed_by_class() {
    let (a, c) = (class(20, "A"), class(21, "C"));
    let marker = Type::ClassType(ClassType {
        class: Class::new(60, "dataclasses", "KW_ONLY", at(0, 0), 1060),
        targs: Arc::new(List::Nil),
    });
    let mut first = with_field(derived(&a, &[]), "x", declared(int_type()));
    first = with_field(first, "_", declared(marker));
    first = with_field(first, "y", declared(int_type()));
    let s = solver(vec![first, derived(&c, &[&a])]);
    let sets = s.compute_kw_only_fields_by_class(&c);
    let classes: Vec<&str> = sets.iter().map(|set| set.class.name.as_str()).collect();
    assert_eq!(classes, vec!["C", "A"]);
    assert_eq!(sets[0].names.len(), 0);
    assert_eq!(sets[1].names.iter().collect::<Vec<_>>(), vec!["y"]);
}

#[test]
fn assigned_values_are_checked() {
    let c = class(20, "C");
    let s = solver(vec![derived(&c, &[])]);
    let mut errors = ErrorCollector::new();
    let mut narrow = true;
    let mut narrowed = Vec::new();
    let mut set = |value: Type, errors: &mut ErrorCollector| {
        s.check_class_attr_set_and_infer_narrow(
            &ClassAttribute::read_write(int_type()),
            Some(&plain(&c)),
            None,
            "x",
            &ArgValue::Type(value),
            false,
            at(1, 2),
            errors,
            &mut narrow,
            &mut narrowed,
        );
    };
    set(boolean(), &mut errors);
    assert!(errors.is_empty());
    set(string(), &mut errors);
    assert_eq!(
        lines(&errors),
        vec![vec!["`str` is not assignable to attribute `x` with type `int`"]]
    );
    assert_eq!(errors.reports[0].range, at(1, 2));
    assert!(narrow);
    let shown_types: Vec<String> = narrowed.iter().map(|ty| shown(&s, ty)).collect();
    assert_eq!(shown_types, vec!["bool", "int"]);
}

#[test]
fn classes_of_one_name_are_told_apart() {
    let c = class(20, "C");
    let other = Class::new(21, "other", "C", at(0, 0), 1021);
    let s = solver(vec![derived(&c, &[])]);
    let mut errors = ErrorCollector::new();
    s.validate_frozen_dataclass_inheritance(
        &c,
        &dataclass(&[]),
        &vec![base(&other, Some(true))],
        false,
        &mut errors,
    );
    assert_eq!(
        lines(&errors),
        vec![vec!["Cannot inherit non-frozen dataclass `main.C` from frozen dataclass `other.C`"]]
    );
}

fn outside_init(ty: Type) -> ClassField {
    let mut keywords = DataclassFieldKeywords::new();
    keywords.init = false;
    attribute(ty, ClassFieldInitialization::ClassBody(Some(Arc::new(keywords))))
}

#[test]
fn parameters_stand_for_fields_of_the_constructor() {
    let c = class(20, "C");
    let mut d = dataclass(&["a", "b"]);
    let own = || {
        with_field(
            with_field(derived(&c, &[]), "a", outside_init(int_type())),
            "b",
            declared(string()),
        )
    };
    let s = solver(vec![own()]);
    let sets = s.compute_kw_only_fields_by_class(&c);
    let mut errors = ErrorCollector::new();
    let init = s.get_dataclass_init(&c, &d, &style(), &sets, &mut errors);
    assert_eq!(
        params_of(&init),
        vec![("self".to_owned(), false, true), ("b".to_owned(), false, true)]
    );
    d.kws.kw_only = true;
    let init = s.get_dataclass_init(&c, &d, &style(), &sets, &mut errors);
    assert_eq!(
        params_of(&init),
        vec![("self".to_owned(), false, true), ("b".to_owned(), true, true)]
    );
    assert!(errors.is_empty());
}

// Variables of inference.

fn solved(id: u64, ty: Type) -> Variable {
    Variable { id, solution: Some(ty) }
}

#[test]
fn attributes_are_written_out_where_they_are_read() {
    let c = class(20, "C");
    let own = with_field(
        with_field(derived(&c, &[]), "x", declared(Type::Other(90))),
        "y",
        defaulted(Type::Other(90)),
    );
    let mut s = solver(vec![own]);
    s.answers.variables.push(solved(90, string()));
    for name in ["x", "y"] {
        assert!(matches!(
            s.get_instance_attribute(&plain(&c), &name.to_owned()),
            Some(ClassAttribute::ReadWrite(Type::ClassType(t))) if t.class.name == "str"
        ));
    }
    assert_eq!(shown(&s, &s.normalize_attr_ty(&Type::Other(90))), "str");
    assert!(matches!(s.normalize_attr_ty(&Type::Other(91)), Type::Other(91)));
}

#[test]
fn methods_are_found_behind_variables() {
    let c = class(20, "C");
    let bound = function("m", vec![self_param(&c)], string());
    let own = with_field(
        derived(&c, &[]),
        "m",
        ClassField {
            inner: ClassFieldInner::Method {
                ty: Type::Other(90),
                is_abstract: false,
                is_function_without_return_annotation: false,
            },
            is_inherited: IsInherited::Maybe,
        },
    );
    let mut s = solver(vec![own]);
    s.answers.variables.push(solved(90, Type::Function(bound)));
    assert!(matches!(
        s.get_instance_attribute(&plain(&c), &"m".to_owned()),
        Some(ClassAttribute::ReadWrite(Type::BoundMethod(_)))
            | Some(ClassAttribute::ReadOnly(Type::BoundMethod(_), _))
    ));
}

#[test]
fn fields_hold_no_variables() {
    let c = class(20, "C");
    let mut s = solver(vec![derived(&c, &[])]);
    s.answers.expressions.push(KnownType { id: 8, ty: Type::Other(90) });
    let field = |s: &Solver| {
        let mut errors = ErrorCollector::new();
        s.calculate_class_field(
            &c,
            &"x".to_owned(),
            at(1, 2),
            &assigned_in("__init__", true),
            false,
            &mut errors,
        )
    };
    s.answers.variables = vec![solved(90, int_type())];
    assert_eq!(shown(&s, &field(&s).ty()), "int");
    s.answers.variables = vec![Variable { id: 90, solution: None }];
    assert!(matches!(field(&s).ty(), Type::Any(AnyStyle::Implicit)));
    s.answers.variables = vec![];
    assert!(matches!(field(&s).ty(), Type::Other(90)));
}

#[test]
fn values_of_attributes_are_written_out() {
    let mut s = solver(vec![]);
    s.answers.expressions.push(KnownType { id: 8, ty: Type::Other(90) });
    s.answers.variables.push(solved(90, boolean()));
    let value = Expr { id: 8, range: at(5, 6), kind: ExprKind::Other };
    let mut errors = ErrorCollector::new();
    let ty = s.attribute_expr_infer(&value, &None, "x", &mut errors);
    assert_eq!(shown(&s, &ty), "bool");
    assert!(errors.is_empty());
}

#[test]
fn replacing_looks_through_variables() {
    let (c, d) = (class(20, "C"), class(21, "D"));
    let own = |cls: &Class| {
        let mut r = with_field(derived(cls, &[]), "x", declared(int_type()));
        r.metadata.dataclass = Some(dataclass(&["x"]));
        r
    };
    let mut s = solver(vec![own(&c), own(&d)]);
    let either =
        List::from_vec(vec![Type::ClassType(plain(&c)), Type::ClassType(plain(&d))]);
    s.answers.variables.push(solved(90, Type::Union(Arc::new(either))));
    let mut errors = ErrorCollector::new();
    let args = vec![CallArg::Arg(ArgValue::Type(Type::Other(90)), at(1, 2))];
    let replace = Type::Function(function("replace", vec![], string()));
    let out = s.call_dataclasses_replace(&replace, &args, &vec![], 3, &mut errors);
    assert_eq!(shown(&s, &out), "C | D");
    assert!(errors.is_empty());
}

#[test]
fn instances_of_typed_dictionaries_are_typed_dictionaries() {
    let (c, d) = (class(20, "C"), class(21, "D"));
    let mut dictionary = derived(&d, &[]);
    dictionary.metadata.typed_dict = Some(vec![]);
    let s = solver(vec![derived(&c, &[]), dictionary]);
    assert!(matches!(s.instantiate(&c), Type::ClassType(t) if t.class.name == "C"));
    assert!(matches!(s.instantiate(&d), Type::TypedDict(t) if t.class.name == "D"));
}
