use vstd::prelude::*;

use crate::annotation::Annotation;
use crate::attribute::{DescriptorBase, NoAccessReason, ReadOnlyReason};
use crate::class_field::{ClassField, ClassFieldInitialization};
use crate::expr::{ArgValue, CallArg, CallKeyword, CalleeKind, ClassFieldDefinition};
use crate::list::List;
use crate::metadata::{
    find_synthesized, synthesized_named, ClassInfo, ClassMetadata,
};
use crate::overrides::AttrSubsetError;
use crate::report::{ErrorCollector, ReportView, TextRange};
use crate::same::{is_same_class_type, same_class_type};
use crate::subst::Subst;
use crate::text::texts;
use crate::types::{
    AnyStyle, BoundMethod, Callable, Class, ClassType, Overload, Quantified, Type,
};

verus! {

/// Why one type is not a subtype of another.
pub enum SubsetError {
    /// A parameter that can be passed by position has another name: the name found, and the name
    /// wanted.
    PosParamName(String, String),
    Other,
}

impl SubsetError {
    pub fn dupe(&self) -> (r: SubsetError)
        ensures
            r == *self,
    {
        match self {
            SubsetError::PosParamName(a, b) => SubsetError::PosParamName(a.clone(), b.clone()),
            SubsetError::Other => SubsetError::Other,
        }
    }
}

/// The questions about types that class rules ask. Each is a function of the types asked about.
pub trait LookupAnswer {
    /// Whether `got` is a subtype of `want`, and why not.
    spec fn subset(&self, got: Type, want: Type) -> Result<(), SubsetError>;

    fn is_subset_eq_with_reason(&self, got: &Type, want: &Type) -> (r: Result<(), SubsetError>)
        ensures
            r == self.subset(*got, *want),
    ;

    /// A type with the variables in it that are solved written out.
    spec fn expanded(&self, ty: Type) -> Type;

    fn expand_vars(&self, ty: &Type) -> (r: Type)
        ensures
            r == self.expanded(*ty),
    ;

    /// A type in which what inference has left open of callables is settled.
    spec fn finalized(&self, ty: Type) -> Type;

    fn finalize_callable_residuals_at_boundary(&self, ty: &Type) -> (r: Type)
        ensures
            r == self.finalized(*ty),
    ;

    /// A type in which every variable has been given a solution for good.
    spec fn forced(&self, ty: Type) -> Type;

    fn deep_force(&self, ty: &Type) -> (r: Type)
        ensures
            r == self.forced(*ty),
    ;

    /// The members of a type that is a union once its variables are written out, or else the type
    /// itself.
    spec fn members(&self, ty: Type) -> Seq<Type>;

    fn get_members(&self, ty: &Type) -> (r: Vec<Type>)
        ensures
            r@ == self.members(*ty),
    ;

    /// A class as it is shown by itself.
    spec fn class_shown(&self, cls: Class) -> Seq<char>;

    fn display_class(&self, cls: &Class) -> (r: String)
        ensures
            r@ == self.class_shown(*cls),
    ;

    /// A type as it is shown to the user.
    spec fn shown(&self, ty: Type) -> Seq<char>;

    fn display(&self, ty: &Type) -> (r: String)
        ensures
            r@ == self.shown(*ty),
    ;

    /// A type as it stands, with the variables in it that are not solved.
    spec fn as_it_stands(&self, ty: Type) -> Seq<char>;

    fn display_as_it_stands(&self, ty: &Type) -> (r: String)
        ensures
            r@ == self.as_it_stands(*ty),
    ;

    /// The name of a class as it is shown next to another class.
    spec fn class_beside(&self, cls: Class, other: Class) -> Seq<char>;

    fn display_class_beside(&self, cls: &Class, other: &Class) -> (r: String)
        ensures
            r@ == self.class_beside(*cls, *other),
    ;

    /// The intersection of types: one of them where it is below all the others.
    spec fn intersection(&self, types: Seq<Type>) -> Type;

    fn intersects(&self, types: &Vec<Type>) -> (r: Type)
        ensures
            r == self.intersection(types@),
    ;

    /// A function type as a signature, as it is shown next to the other one of two.
    spec fn signature_shown(&self, ty: Type, got: Type, want: Type) -> Seq<char>;

    fn signature_text(&self, ty: &Type, got: &Type, want: &Type) -> (r: String)
        ensures
            r@ == self.signature_shown(*ty, *got, *want),
    ;

    /// The lines that show how two signatures differ.
    spec fn diff_lines(&self, want: Seq<char>, got: Seq<char>) -> Seq<Seq<char>>;

    fn render_signature_diff(&self, want: &str, got: &str) -> (r: Vec<String>)
        ensures
            texts(r@) == self.diff_lines(want@, got@),
    ;

    /// The constructor of a class as a callable.
    spec fn constructor(&self, cls: ClassType) -> Type;

    fn constructor_to_callable(&self, cls: &ClassType) -> (r: Type)
        ensures
            r == self.constructor(*cls),
    ;

    /// What the `__get__` method of a descriptor gives when it is called.
    spec fn descriptor_result(&self, getter: Type, base: DescriptorBase) -> Type;

    /// The reports that go with it, at the place where the descriptor is read.
    spec fn descriptor_reports(&self, getter: Type, base: DescriptorBase, range: TextRange) -> Seq<
        ReportView,
    >;

    fn call_descriptor_getter(
        &self,
        getter: &Type,
        base: &DescriptorBase,
        range: TextRange,
        errors: &mut ErrorCollector,
    ) -> (r: Type)
        ensures
            r == self.descriptor_result(*getter, *base),
            final(errors)@ == old(errors)@ + self.descriptor_reports(*getter, *base, range),
    ;

    /// What calling the getter of a property gives.
    spec fn getter_result(&self, getter: Type) -> Type;

    /// The reports that go with it, at the place where the property is read.
    spec fn getter_reports(&self, getter: Type, range: TextRange) -> Seq<ReportView>;

    fn call_property_getter(
        &self,
        getter: &Type,
        range: TextRange,
        errors: &mut ErrorCollector,
    ) -> (r: Type)
        ensures
            r == self.getter_result(*getter),
            final(errors)@ == old(errors)@ + self.getter_reports(*getter, range),
    ;

    /// The reports on giving the attribute `name` a value where `attr_ty` is wanted.
    spec fn assign_reports(
        &self,
        attr_ty: Type,
        name: Seq<char>,
        got: ArgValue,
        range: TextRange,
    ) -> Seq<ReportView>;

    /// The types that the attribute is known to have afterwards; none where it is not narrowed.
    spec fn assign_narrowed(
        &self,
        attr_ty: Type,
        name: Seq<char>,
        got: ArgValue,
        should_narrow: bool,
    ) -> Seq<Type>;

    fn check_set_read_write_and_infer_narrow(
        &self,
        attr_ty: &Type,
        attr_name: &str,
        got: &ArgValue,
        range: TextRange,
        errors: &mut ErrorCollector,
        should_narrow: bool,
        narrowed_types: &mut Vec<Type>,
    )
        ensures
            final(errors)@ == old(errors)@ + self.assign_reports(*attr_ty, attr_name@, *got, range),
            final(narrowed_types)@ == old(narrowed_types)@ + self.assign_narrowed(
                *attr_ty,
                attr_name@,
                *got,
                should_narrow,
            ),
    ;

    /// The reports on calling the setter of a property with a value.
    spec fn setter_reports(&self, setter: Type, got: ArgValue, range: TextRange) -> Seq<ReportView>;

    fn call_property_setter(
        &self,
        setter: &Type,
        got: &ArgValue,
        range: TextRange,
        errors: &mut ErrorCollector,
    )
        ensures
            final(errors)@ == old(errors)@ + self.setter_reports(*setter, *got, range),
    ;

    /// The reports on calling the `__set__` method of a descriptor with a value.
    spec fn descriptor_setter_reports(
        &self,
        setter: Type,
        base: DescriptorBase,
        got: ArgValue,
        range: TextRange,
    ) -> Seq<ReportView>;

    fn call_descriptor_setter(
        &self,
        setter: &Type,
        base: &DescriptorBase,
        got: &ArgValue,
        range: TextRange,
        errors: &mut ErrorCollector,
    )
        ensures
            final(errors)@ == old(errors)@ + self.descriptor_setter_reports(
                *setter,
                *base,
                *got,
                range,
            ),
    ;

    /// The explanation of why something is read-only.
    spec fn read_only_text(&self, reason: ReadOnlyReason) -> Seq<char>;

    fn read_only_message(&self, reason: ReadOnlyReason) -> (r: String)
        ensures
            r@ == self.read_only_text(reason),
    ;

    /// The explanation of why the attribute `name` cannot be used.
    spec fn no_access_text(&self, reason: NoAccessReason, name: Seq<char>) -> Seq<char>;

    fn no_access_message(&self, reason: &NoAccessReason, name: &str) -> (r: String)
        ensures
            r@ == self.no_access_text(*reason, name@),
    ;

    /// The explanation of why the attribute `field` of `child` does not fit that of `parent`.
    spec fn subset_text(
        &self,
        error: AttrSubsetError,
        child: Seq<char>,
        parent: Seq<char>,
        field: Seq<char>,
    ) -> Seq<char>;

    fn subset_message(
        &self,
        error: &AttrSubsetError,
        child: &str,
        parent: &str,
        field: &str,
    ) -> (r: String)
        ensures
            r@ == self.subset_text(*error, child@, parent@, field@),
    ;

    /// The union of types, simplified.
    spec fn unioned(&self, types: Seq<Type>) -> Type;

    fn unions(&self, types: &Vec<Type>) -> (r: Type)
        ensures
            r == self.unioned(types@),
    ;

    /// Whether a value of the type is known to be true or false.
    spec fn truth(&self, ty: Type) -> Option<bool>;

    fn as_bool(&self, ty: &Type) -> (r: Option<bool>)
        ensures
            r == self.truth(*ty),
    ;

    /// The type of an expression on its own.
    spec fn inferred(&self, expr: u64) -> Type;

    /// The reports that go with the type of an expression on its own.
    spec fn inferred_reports(&self, expr: u64) -> Seq<ReportView>;

    fn expr_infer(&self, expr: u64, errors: &mut ErrorCollector) -> (r: Type)
        ensures
            r == self.inferred(expr),
            final(errors)@ == old(errors)@ + self.inferred_reports(expr),
    ;

    /// The type of an expression where a value of type `hint` is wanted for `attribute`.
    spec fn hinted(&self, expr: u64, hint: Type, attribute: Seq<char>) -> Type;

    /// The reports that go with it.
    spec fn hinted_reports(&self, expr: u64, hint: Type, attribute: Seq<char>) -> Seq<ReportView>;

    fn expr(&self, expr: u64, hint: &Type, attribute: &str, errors: &mut ErrorCollector) -> (r: Type)
        ensures
            r == self.hinted(expr, *hint, attribute@),
            final(errors)@ == old(errors)@ + self.hinted_reports(expr, *hint, attribute@),
    ;

    /// The type of a definition.
    spec fn solved(&self, definition: u64) -> Type;

    /// The reports that go with it, at the place where it is asked for.
    spec fn solved_reports(&self, definition: u64, range: TextRange) -> Seq<ReportView>;

    fn solve_binding(&self, definition: u64, range: TextRange, errors: &mut ErrorCollector) -> (r:
        Type)
        ensures
            r == self.solved(definition),
            final(errors)@ == old(errors)@ + self.solved_reports(definition, range),
    ;

    /// A type with its implicit literals widened to their classes.
    spec fn promoted(&self, ty: Type) -> Type;

    fn promote_implicit_literals(&self, ty: &Type) -> (r: Type)
        ensures
            r == self.promoted(*ty),
    ;

    /// What stands for a type variable that has no meaning where it is used.
    spec fn gradual(&self, q: Quantified) -> Type;

    fn as_gradual_type(&self, q: &Quantified) -> (r: Type)
        ensures
            r == self.gradual(*q),
    ;

    /// What the function or class that a type stands for is recognized as.
    spec fn callee(&self, ty: Type) -> Option<CalleeKind>;

    fn callee_kind(&self, ty: &Type) -> (r: Option<CalleeKind>)
        ensures
            r == self.callee(*ty),
    ;

    /// The type of a field of an enumeration, where it gets one of its own.
    spec fn enum_field(
        &self,
        class: Class,
        name: Seq<char>,
        annotation: Option<Annotation>,
        ty: Type,
        definition: ClassFieldDefinition,
        is_descriptor: bool,
    ) -> Option<Type>;

    /// The reports that go with it.
    spec fn enum_field_reports(
        &self,
        class: Class,
        name: Seq<char>,
        annotation: Option<Annotation>,
        ty: Type,
        definition: ClassFieldDefinition,
        is_descriptor: bool,
        range: TextRange,
    ) -> Seq<ReportView>;

    fn get_enum_class_field_type(
        &self,
        class: &Class,
        name: &str,
        annotation: &Option<Annotation>,
        ty: &Type,
        definition: &ClassFieldDefinition,
        is_descriptor: bool,
        range: TextRange,
        errors: &mut ErrorCollector,
    ) -> (r: Option<Type>)
        ensures
            r == self.enum_field(*class, name@, *annotation, *ty, *definition, is_descriptor),
            final(errors)@ == old(errors)@ + self.enum_field_reports(
                *class,
                name@,
                *annotation,
                *ty,
                *definition,
                is_descriptor,
                range,
            ),
    ;

    /// The type of a field of a Django model, where it gets one of its own.
    spec fn django_field(&self, ty: Type, class: Class, name: Seq<char>, value: Option<u64>) -> Option<
        Type,
    >;

    fn get_django_field_type(&self, ty: &Type, class: &Class, name: &str, value: Option<u64>) -> (r:
        Option<Type>)
        ensures
            r == self.django_field(*ty, *class, name@, value),
    ;

    /// Whether a Django field of the class refers to another model.
    spec fn foreign_key_like(&self, class: Class) -> bool;

    fn is_foreign_key_like_field(&self, class: &Class) -> (r: bool)
        ensures
            r == self.foreign_key_like(*class),
    ;

    /// Whether a call that makes a Django field lists the choices of the field.
    spec fn lists_choices(&self, call: u64) -> bool;

    fn has_django_field_choices(&self, call: u64) -> (r: bool)
        ensures
            r == self.lists_choices(call),
    ;

    /// The field that a key of a typed dictionary becomes.
    spec fn key_field(&self, class: Class, name: Seq<char>, definition: ClassFieldDefinition) -> ClassField;

    /// The reports that go with it.
    spec fn key_field_reports(
        &self,
        class: Class,
        name: Seq<char>,
        definition: ClassFieldDefinition,
        range: TextRange,
    ) -> Seq<ReportView>;

    fn calculate_typed_dict_field(
        &self,
        class: &Class,
        name: &str,
        definition: &ClassFieldDefinition,
        range: TextRange,
        errors: &mut ErrorCollector,
    ) -> (r: ClassField)
        ensures
            r == self.key_field(*class, name@, *definition),
            final(errors)@ == old(errors)@ + self.key_field_reports(
                *class,
                name@,
                *definition,
                range,
            ),
    ;

    /// The type of an instance of a class that is named without arguments.
    spec fn named(&self, cls: Class) -> Type;

    fn promote_silently(&self, cls: &Class) -> (r: Type)
        ensures
            r == self.named(*cls),
    ;

    /// A bound method as a callable without its receiver.
    spec fn received(&self, method: BoundMethod) -> Option<Type>;

    fn bind_boundmethod(&self, method: &BoundMethod) -> (r: Option<Type>)
        ensures
            r == self.received(*method),
    ;

    /// What calling a type returns.
    spec fn returned(&self, ty: Type) -> Option<Type>;

    fn callable_return_type(&self, ty: &Type) -> (r: Option<Type>)
        ensures
            r == self.returned(*ty),
    ;

    /// The type of the first parameter of a callable.
    spec fn first_parameter(&self, ty: Type) -> Option<Type>;

    fn callable_first_param(&self, ty: &Type) -> (r: Option<Type>)
        ensures
            r == self.first_parameter(*ty),
    ;

    /// The signature of an overload that a call selects.
    spec fn selected(&self, overload: Overload, call: u64) -> Callable;

    /// The reports that go with it.
    spec fn selected_reports(&self, overload: Overload, call: u64) -> Seq<ReportView>;

    fn call_overloads(&self, overload: &Overload, call: u64, errors: &mut ErrorCollector) -> (r:
        Callable)
        ensures
            r == self.selected(*overload, call),
            final(errors)@ == old(errors)@ + self.selected_reports(*overload, call),
    ;

    /// The reports on a `__post_init__` that is not what is called.
    spec fn post_init_reports(&self, got: Type, want: Type, range: TextRange) -> Seq<ReportView>;

    fn check_post_init(&self, got: &Type, want: &Type, range: TextRange, errors: &mut ErrorCollector)
        ensures
            final(errors)@ == old(errors)@ + self.post_init_reports(*got, *want, range),
    ;

    /// What a pydantic field of type `ty` accepts when values are converted, for a model with
    /// fields of the given types.
    spec fn lax(&self, field_types: Seq<Type>, ty: Type) -> Option<Type>;

    fn lax_conversion(&self, field_types: &List<Type>, ty: &Type) -> (r: Option<Type>)
        ensures
            r == self.lax(field_types@, *ty),
    ;

    /// What a call returns.
    spec fn called(&self, callee: Type, args: Seq<CallArg>, kws: Seq<CallKeyword>, call: u64) -> Type;

    /// The reports that go with it.
    spec fn called_reports(
        &self,
        callee: Type,
        args: Seq<CallArg>,
        kws: Seq<CallKeyword>,
        call: u64,
    ) -> Seq<ReportView>;

    fn freeform_call_infer(
        &self,
        callee: &Type,
        args: &Vec<CallArg>,
        kws: &Vec<CallKeyword>,
        call: u64,
        errors: &mut ErrorCollector,
    ) -> (r: Type)
        ensures
            r == self.called(*callee, args@, kws@, call),
            final(errors)@ == old(errors)@ + self.called_reports(*callee, args@, kws@, call),
    ;

    /// What calling the `__replace__` method of an object returns, where it has one.
    spec fn replaced(&self, obj: Type, args: Seq<CallArg>, kws: Seq<CallKeyword>, call: u64) -> Option<
        Type,
    >;

    /// The reports that go with it.
    spec fn replaced_reports(
        &self,
        obj: Type,
        args: Seq<CallArg>,
        kws: Seq<CallKeyword>,
        call: u64,
    ) -> Seq<ReportView>;

    fn call_replace_method(
        &self,
        obj: &Type,
        args: &Vec<CallArg>,
        kws: &Vec<CallKeyword>,
        call: u64,
        errors: &mut ErrorCollector,
    ) -> (r: Option<Type>)
        ensures
            r == self.replaced(*obj, args@, kws@, call),
            final(errors)@ == old(errors)@ + self.replaced_reports(*obj, args@, kws@, call),
    ;
}

/// The classes of the standard library that class rules name.
pub struct Stdlib {
    pub object: ClassType,
    pub str_class: ClassType,
    pub int_class: ClassType,
    pub bool_class: ClassType,
    /// `dict[str, Any]`.
    pub dataclass_fields: ClassType,
    /// `Coroutine[Any, Any, Any]`.
    pub any_coroutine: ClassType,
}

/// The names that class rules look up and give to what they add.
pub struct Dunder {
    pub get: String,
    pub set: String,
    pub new: String,
    pub init: String,
    pub call: String,
    pub forward: String,
    pub hash: String,
    pub replace: String,
    pub dataclass_fields: String,
    pub lt: String,
    pub le: String,
    pub eq: String,
    pub ne: String,
    pub gt: String,
    pub ge: String,
    pub match_args: String,
    pub slots: String,
    pub self_name: String,
    pub root: String,
    pub other: String,
}

impl Dunder {
    /// Every name is what its field says.
    pub open spec fn wf(self) -> bool {
        &&& self.get@ == "__get__"@
        &&& self.set@ == "__set__"@
        &&& self.new@ == "__new__"@
        &&& self.init@ == "__init__"@
        &&& self.call@ == "__call__"@
        &&& self.forward@ == "forward"@
        &&& self.hash@ == "__hash__"@
        &&& self.replace@ == "__replace__"@
        &&& self.dataclass_fields@ == "__dataclass_fields__"@
        &&& self.lt@ == "__lt__"@
        &&& self.le@ == "__le__"@
        &&& self.eq@ == "__eq__"@
        &&& self.ne@ == "__ne__"@
        &&& self.gt@ == "__gt__"@
        &&& self.ge@ == "__ge__"@
        &&& self.match_args@ == "__match_args__"@
        &&& self.slots@ == "__slots__"@
        &&& self.self_name@ == "self"@
        &&& self.root@ == "root"@
        &&& self.other@ == "other"@
    }

    /// The special names.
    pub fn new() -> (r: Dunder)
        ensures
            r.wf(),
    {
        Dunder {
            get: "__get__".to_owned(),
            set: "__set__".to_owned(),
            new: "__new__".to_owned(),
            init: "__init__".to_owned(),
            call: "__call__".to_owned(),
            forward: "forward".to_owned(),
            hash: "__hash__".to_owned(),
            replace: "__replace__".to_owned(),
            dataclass_fields: "__dataclass_fields__".to_owned(),
            lt: "__lt__".to_owned(),
            le: "__le__".to_owned(),
            eq: "__eq__".to_owned(),
            ne: "__ne__".to_owned(),
            gt: "__gt__".to_owned(),
            ge: "__ge__".to_owned(),
            match_args: "__match_args__".to_owned(),
            slots: "__slots__".to_owned(),
            self_name: "self".to_owned(),
            root: "root".to_owned(),
            other: "other".to_owned(),
        }
    }
}

/// Answers questions about the fields of classes, from what is known of each class and from the
/// answers to questions about types.
pub struct AnswersSolver<Ans> {
    pub answers: Ans,
    pub classes: Vec<ClassInfo>,
    /// What is taken to hold of a class that is not among `classes`.
    pub unknown: ClassInfo,
    pub stdlib: Stdlib,
    pub dunder: Dunder,
}

/// A member of a class together with the class that defines it, which may be an ancestor.
pub struct WithDefiningClass<T> {
    pub value: T,
    pub defining_class: Class,
}

impl<T> WithDefiningClass<T> {
    /// Whether the top-level class `cls` of `module` defines the member.
    pub fn is_defined_on(&self, module: &str, cls: &str) -> (r: bool)
        ensures
            r == self.defining_class.is_qname(module@, cls@),
    {
        self.defining_class.has_toplevel_qname(module, cls)
    }
}

/// Which fields of a class a lookup finds.
#[derive(Clone, Copy, Debug, PartialEq, Eq, Structural)]
pub enum Search {
    /// Declared and added ones.
    All,
    /// Declared and added ones, but no init variables.
    AllButInitVars,
    /// Declared ones, but no init variables.
    DeclaredButInitVars,
    /// Declared ones that are more than an assignment in a method.
    DeclaredInBody,
    /// Added ones where the name is a key of the typed dictionary that the class is; all
    /// otherwise.
    NotTypedDictKeys,
}

/// The field that a lookup finds in a single class.
pub open spec fn found_in(info: ClassInfo, name: Seq<char>, how: Search) -> Option<ClassField> {
    match how {
        Search::All => info.own_field(name),
        Search::AllButInitVars => match info.own_field(name) {
            Some(f) => if f.init_var() {
                None
            } else {
                Some(f)
            },
            None => None,
        },
        Search::DeclaredButInitVars => match info.declared_field(name) {
            Some(f) => if f.init_var() {
                None
            } else {
                Some(f)
            },
            None => None,
        },
        Search::DeclaredInBody => match info.declared_field(name) {
            Some(f) => if f.initialized() is Method || f.initialized() is ClassMethod {
                None
            } else {
                Some(f)
            },
            None => None,
        },
        Search::NotTypedDictKeys => if info.metadata.typed_dict_total(name) is Some {
            synthesized_named(info.synthesized@, name)
        } else {
            info.own_field(name)
        },
    }
}

/// The field that a lookup finds in a single class.
pub fn find_in(info: &ClassInfo, name: &str, how: Search) -> (r: Option<ClassField>)
    ensures
        r == found_in(*info, name@, how),
{
    match how {
        Search::All => info.get_own(name),
        Search::AllButInitVars => match info.get_own(name) {
            Some(f) => if f.is_init_var() {
                None
            } else {
                Some(f)
            },
            None => None,
        },
        Search::DeclaredButInitVars => match info.get_declared(name) {
            Some(f) => if f.is_init_var() {
                None
            } else {
                Some(f)
            },
            None => None,
        },
        Search::DeclaredInBody => match info.get_declared(name) {
            Some(f) => match f.initialization() {
                ClassFieldInitialization::Method => None,
                ClassFieldInitialization::ClassMethod => None,
                _ => Some(f),
            },
            None => None,
        },
        Search::NotTypedDictKeys => if info.metadata.typed_dict_field(name).is_some() {
            find_synthesized(&info.synthesized, name)
        } else {
            info.get_own(name)
        },
    }
}

/// The first class with the given id, or else `unknown`.
pub open spec fn info_for(classes: Seq<ClassInfo>, unknown: ClassInfo, id: u64) -> ClassInfo
    decreases classes.len(),
{
    if classes.len() == 0 {
        unknown
    } else if classes[0].class.id == id {
        classes[0]
    } else {
        info_for(classes.drop_first(), unknown, id)
    }
}

/// Whether a name is one of the two constructor methods.
pub open spec fn constructor_name(name: Seq<char>) -> bool {
    name == "__new__"@ || name == "__init__"@
}

impl<Ans> AnswersSolver<Ans> {
    /// What is known of a class.
    pub open spec fn info(self, cls: Class) -> ClassInfo {
        info_for(self.classes@, self.unknown, cls.id)
    }

    /// What is known of a class.
    pub fn get_info(&self, cls: &Class) -> (r: &ClassInfo)
        ensures
            *r == self.info(*cls),
    {
        let mut i: usize = 0;
        assert(self.classes@.skip(0) =~= self.classes@);
        while i < self.classes.len()
            invariant
                i <= self.classes@.len(),
                self.info(*cls) == info_for(self.classes@.skip(i as int), self.unknown, cls.id),
            decreases self.classes@.len() - i,
        {
            assert(self.classes@.skip(i as int).drop_first() =~= self.classes@.skip(i + 1));
            if self.classes[i].class.id == cls.id {
                return &self.classes[i];
            }
            i = i + 1;
        }
        &self.unknown
    }

    /// What is known of a class as a whole.
    pub fn get_metadata_for_class(&self, cls: &Class) -> (r: &ClassMetadata)
        ensures
            *r == self.info(*cls).metadata,
    {
        &self.get_info(cls).metadata
    }

    /// Whether the constructor methods of `object` are hidden from `cls` by an unknown ancestor.
    pub open spec fn hidden_constructor(
        self,
        cls: Class,
        ancestor: ClassType,
        name: Seq<char>,
    ) -> bool {
        ancestor.class.is_qname("builtins"@, "object"@) && constructor_name(name) && self.info(
            cls,
        ).extends_any
    }

    /// The field that an ancestor contributes, with the type arguments of the ancestor. An unknown
    /// ancestor may define the constructor methods in any way, so that those of `object` are not
    /// taken.
    pub open spec fn contributed(
        self,
        cls: Class,
        ancestor: ClassType,
        name: Seq<char>,
        how: Search,
    ) -> Option<WithDefiningClass<ClassField>> {
        let field = if self.hidden_constructor(cls, ancestor, name) {
            Some(ClassField::synthesized(Type::Any(AnyStyle::Implicit), false))
        } else {
            found_in(self.info(ancestor.class), name, how)
        };
        match field {
            Some(f) => Some(
                WithDefiningClass {
                    value: f.substituted(Subst::Args(ancestor.targs)),
                    defining_class: ancestor.class,
                },
            ),
            None => None,
        }
    }

    /// The field that the first of the given ancestors contributes that contributes one.
    pub open spec fn from_ancestors(
        self,
        cls: Class,
        ancestors: Seq<ClassType>,
        name: Seq<char>,
        how: Search,
    ) -> Option<WithDefiningClass<ClassField>>
        decreases ancestors.len(),
    {
        if ancestors.len() == 0 {
            None
        } else {
            match self.contributed(cls, ancestors[0], name, how) {
                Some(member) => Some(member),
                None => self.from_ancestors(cls, ancestors.drop_first(), name, how),
            }
        }
    }

    /// Looks a field up in the ancestors from position `from` on.
    pub fn get_field_from_ancestors(
        &self,
        cls: &Class,
        ancestors: &Vec<ClassType>,
        from: usize,
        name: &str,
        how: Search,
    ) -> (r: Option<WithDefiningClass<ClassField>>)
        requires
            from <= ancestors@.len(),
        ensures
            r == self.from_ancestors(*cls, ancestors@.skip(from as int), name@, how),
    {
        let mut i: usize = from;
        while i < ancestors.len()
            invariant
                from <= i <= ancestors@.len(),
                self.from_ancestors(*cls, ancestors@.skip(from as int), name@, how)
                    == self.from_ancestors(*cls, ancestors@.skip(i as int), name@, how),
            decreases ancestors@.len() - i,
        {
            assert(ancestors@.skip(i as int).drop_first() =~= ancestors@.skip(i + 1));
            let ancestor = &ancestors[i];
            let name_is_constructor = crate::text::same_text(name, "__new__")
                || crate::text::same_text(name, "__init__");
            let field = if ancestor.is_builtin("object") && name_is_constructor && self.get_info(
                cls,
            ).extends_any {
                Some(ClassField::new_synthesized(Type::Any(AnyStyle::Implicit)))
            } else {
                find_in(self.get_info(&ancestor.class), name, how)
            };
            if let Some(f) = field {
                return Some(
                    WithDefiningClass {
                        value: f.instantiate_helper(&Subst::Args(ancestor.targs.clone())),
                        defining_class: ancestor.class.dupe(),
                    },
                );
            }
            i = i + 1;
        }
        None
    }

    /// The field that a class has: its own, or else the one that its ancestors contribute.
    pub open spec fn from_mro(self, cls: Class, name: Seq<char>, how: Search) -> Option<
        WithDefiningClass<ClassField>,
    > {
        match found_in(self.info(cls), name, how) {
            Some(f) => Some(WithDefiningClass { value: f, defining_class: cls }),
            None => self.from_ancestors(cls, self.info(cls).ancestors@, name, how),
        }
    }

    /// Looks a field up in a class and its ancestors.
    pub fn get_field_from_mro(&self, cls: &Class, name: &str, how: Search) -> (r: Option<
        WithDefiningClass<ClassField>,
    >)
        ensures
            r == self.from_mro(*cls, name@, how),
    {
        let info = self.get_info(cls);
        match find_in(info, name, how) {
            Some(f) => Some(WithDefiningClass { value: f, defining_class: cls.dupe() }),
            None => {
                assert(info.ancestors@.skip(0) =~= info.ancestors@);
                self.get_field_from_ancestors(cls, &info.ancestors, 0, name, how)
            },
        }
    }

    /// The declared field of the class itself.
    pub fn get_non_synthesized_field_from_current_class_only(&self, cls: &Class, name: &str) -> (r:
        Option<ClassField>)
        ensures
            r == self.info(*cls).declared_field(name@),
    {
        self.get_info(cls).get_declared(name)
    }

    /// The added field of the class itself.
    pub fn get_synthesized_field_from_current_class_only(&self, cls: &Class, name: &str) -> (r:
        Option<ClassField>)
        ensures
            r == synthesized_named(self.info(*cls).synthesized@, name@),
    {
        find_synthesized(&self.get_info(cls).synthesized, name)
    }

    /// The field of the class itself, declared or added.
    pub fn get_field_from_current_class_only(&self, cls: &Class, name: &str) -> (r: Option<
        ClassField,
    >)
        ensures
            r == self.info(*cls).own_field(name@),
    {
        self.get_info(cls).get_own(name)
    }

    /// The declared member of a class, with the class that defines it.
    pub fn get_non_synthesized_class_member_and_defining_class(&self, cls: &Class, name: &str) -> (r:
        Option<WithDefiningClass<ClassField>>)
        ensures
            r == self.from_mro(*cls, name@, Search::DeclaredButInitVars),
    {
        self.get_field_from_mro(cls, name, Search::DeclaredButInitVars)
    }

    /// The declared member of a class.
    pub fn get_non_synthesized_class_member(&self, cls: &Class, name: &str) -> (r: Option<
        ClassField,
    >)
        ensures
            r == match self.from_mro(*cls, name@, Search::DeclaredButInitVars) {
                Some(member) => Some(member.value),
                None => None,
            },
    {
        match self.get_non_synthesized_class_member_and_defining_class(cls, name) {
            Some(member) => Some(member.value),
            None => None,
        }
    }

    /// The member of a class, with the class that defines it. The first field with the name
    /// decides: where it is an init variable, there is no member.
    pub open spec fn member_and_class(self, cls: Class, name: Seq<char>) -> Option<
        WithDefiningClass<ClassField>,
    > {
        match self.from_mro(cls, name, Search::All) {
            Some(member) => if member.value.init_var() {
                None
            } else {
                Some(member)
            },
            None => None,
        }
    }

    /// The member of a class, with the class that defines it.
    pub fn get_class_member_with_defining_class(&self, cls: &Class, name: &str) -> (r: Option<
        WithDefiningClass<ClassField>,
    >)
        ensures
            r == self.member_and_class(*cls, name@),
    {
        match self.get_field_from_mro(cls, name, Search::All) {
            Some(member) => if member.value.is_init_var() {
                None
            } else {
                Some(member)
            },
            None => None,
        }
    }

    /// The member of a class.
    pub open spec fn member(self, cls: Class, name: Seq<char>) -> Option<ClassField> {
        match self.member_and_class(cls, name) {
            Some(member) => Some(member.value),
            None => None,
        }
    }

    /// The member of a class.
    pub fn get_class_member(&self, cls: &Class, name: &str) -> (r: Option<ClassField>)
        ensures
            r == self.member(*cls, name@),
    {
        match self.get_class_member_with_defining_class(cls, name) {
            Some(member) => Some(member.value),
            None => None,
        }
    }

    /// Whether the field of a class comes from the top-level class `class_name` of `module`.
    pub fn field_is_inherited_from(
        &self,
        cls: &Class,
        field: &str,
        module: &str,
        class_name: &str,
    ) -> (r: bool)
        ensures
            r == (self.member_and_class(*cls, field@) matches Some(member)
                && member.defining_class.is_qname(module@, class_name@)),
    {
        match self.get_class_member_with_defining_class(cls, field) {
            Some(member) => member.is_defined_on(module, class_name),
            None => false,
        }
    }
}

/// The ancestors from the first one on that is `start`, with the same arguments; all of them
/// without a start.
pub open spec fn ancestors_from(ancestors: Seq<ClassType>, start: Option<ClassType>) -> Seq<
    ClassType,
>
    decreases ancestors.len(),
{
    if start is None || ancestors.len() == 0 || same_class_type(ancestors[0], start->0) {
        ancestors
    } else {
        ancestors_from(ancestors.drop_first(), start)
    }
}

impl<Ans> AnswersSolver<Ans> {
    /// The member that `super` finds: the first one in the ancestors from `start` on.
    pub open spec fn super_member(
        self,
        cls: Class,
        start: Option<ClassType>,
        name: Seq<char>,
    ) -> Option<WithDefiningClass<ClassField>> {
        self.from_ancestors(
            cls,
            ancestors_from(self.info(cls).ancestors@, start),
            name,
            Search::AllButInitVars,
        )
    }

    /// The member that `super` finds.
    pub fn get_super_class_member(
        &self,
        cls: &Class,
        start_lookup_cls: Option<&ClassType>,
        name: &str,
    ) -> (r: Option<WithDefiningClass<ClassField>>)
        ensures
            r == self.super_member(
                *cls,
                match start_lookup_cls {
                    Some(c) => Some(*c),
                    None => None,
                },
                name@,
            ),
    {
        let info = self.get_info(cls);
        let mut from: usize = 0;
        assert(info.ancestors@.skip(0) =~= info.ancestors@);
        if let Some(start) = start_lookup_cls {
            while from < info.ancestors.len() && !is_same_class_type(&info.ancestors[from], start)
                invariant
                    from <= info.ancestors@.len(),
                    ancestors_from(info.ancestors@, Some(*start)) == ancestors_from(
                        info.ancestors@.skip(from as int),
                        Some(*start),
                    ),
                decreases info.ancestors@.len() - from,
            {
                assert(info.ancestors@.skip(from as int).drop_first() =~= info.ancestors@.skip(
                    from + 1,
                ));
                from = from + 1;
            }
        }
        self.get_field_from_ancestors(cls, &info.ancestors, from, name, Search::AllButInitVars)
    }
}

/// A class's own field hides the fields of its ancestors, and the first ancestor that contributes
/// a field hides those behind it.
pub proof fn law_nearest_definition_wins<Ans>(
    solver: AnswersSolver<Ans>,
    cls: Class,
    name: Seq<char>,
    how: Search,
    k: int,
)
    requires
        found_in(solver.info(cls), name, how) is None,
        0 <= k < solver.info(cls).ancestors@.len(),
        forall|j: int|
            0 <= j < k ==> solver.contributed(
                cls,
                #[trigger] solver.info(cls).ancestors@[j],
                name,
                how,
            ) is None,
        solver.contributed(cls, solver.info(cls).ancestors@[k], name, how) is Some,
    ensures
        solver.from_mro(cls, name, how) == solver.contributed(
            cls,
            solver.info(cls).ancestors@[k],
            name,
            how,
        ),
{
    lemma_first_contributor(solver, cls, solver.info(cls).ancestors@, name, how, k);
}

proof fn lemma_first_contributor<Ans>(
    solver: AnswersSolver<Ans>,
    cls: Class,
    ancestors: Seq<ClassType>,
    name: Seq<char>,
    how: Search,
    k: int,
)
    requires
        0 <= k < ancestors.len(),
        forall|j: int|
            0 <= j < k ==> solver.contributed(cls, #[trigger] ancestors[j], name, how) is None,
        solver.contributed(cls, ancestors[k], name, how) is Some,
    ensures
        solver.from_ancestors(cls, ancestors, name, how) == solver.contributed(
            cls,
            ancestors[k],
            name,
            how,
        ),
    decreases k,
{
    if k > 0 {
        let rest = ancestors.drop_first();
        assert(forall|j: int| 0 <= j < k - 1 ==> #[trigger] rest[j] == ancestors[j + 1]);
        assert(rest[k - 1] == ancestors[k]);
        assert(ancestors[0] == ancestors[0]);
        lemma_first_contributor(solver, cls, rest, name, how, k - 1);
    }
}

} // verus!
