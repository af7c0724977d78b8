use std::sync::Arc;

use vstd::prelude::*;

use crate::annotation::{dupe_type, Annotation};
use crate::attribute::{DescriptorBase, NoAccessReason, ReadOnlyReason};
use crate::class_field::{ClassField, ClassFieldInitialization};
use crate::expr::{ArgValue, CallArg, CallKeyword, CalleeKind, ClassFieldDefinition};
use crate::list::List;
use crate::overrides::AttrSubsetError;
use crate::report::{report1, ErrorCollector, ReportView, Rule, TextRange};
use crate::solver::{LookupAnswer, SubsetError};
use crate::text::{cat2, cat3, cat4, cat5, cat7, same_text, texts};
use crate::types::{
    union_of, unions, AnyStyle, BoundMethod, Callable, Class, ClassType, Lit, Overload, Params,
    Quantified, Type,
};

verus! {

/// The type of an expression or a definition that is known by a number.
pub struct KnownType {
    pub id: u64,
    pub ty: Type,
}

/// The type with the given number, or else an unknown type.
pub open spec fn known(types: Seq<KnownType>, id: u64) -> Type
    decreases types.len(),
{
    if types.len() == 0 {
        Type::Any(AnyStyle::Error)
    } else if types[0].id == id {
        types[0].ty
    } else {
        known(types.drop_first(), id)
    }
}

fn find_known(types: &Vec<KnownType>, id: u64) -> (r: Type)
    ensures
        r == known(types@, id),
{
    let mut i: usize = 0;
    assert(types@.skip(0) =~= types@);
    while i < types.len()
        invariant
            i <= types@.len(),
            known(types@, id) == known(types@.skip(i as int), id),
        decreases types@.len() - i,
    {
        assert(types@.skip(i as int).drop_first() =~= types@.skip(i + 1));
        if types[i].id == id {
            return types[i].ty.dupe();
        }
        i = i + 1;
    }
    Type::Any(AnyStyle::Error)
}

/// The members of a union, or the type itself where it is none.
pub open spec fn union_members(ty: Type) -> Seq<Type> {
    match ty {
        Type::Union(ts) => ts@,
        _ => seq![ty],
    }
}

fn append_types(ts: &List<Type>, acc: &mut Vec<Type>)
    ensures
        final(acc)@ == old(acc)@ + ts@,
    decreases ts,
{
    match ts {
        List::Nil => {},
        List::Cons(t, rest) => {
            acc.push(t.dupe());
            append_types(&**rest, acc);
        },
    }
    assert(acc@ =~= old(acc)@ + ts@);
}

/// The members of a union, or the type itself where it is none.
fn get_union_members(ty: &Type) -> (r: Vec<Type>)
    ensures
        r@ == union_members(*ty),
{
    let mut members: Vec<Type> = Vec::new();
    match ty {
        Type::Union(ts) => append_types(&**ts, &mut members),
        _ => members.push(ty.dupe()),
    }
    assert(members@ =~= union_members(*ty));
    members
}

/// A variable of inference that is known by a number.
pub struct Variable {
    pub id: u64,
    pub solution: Option<Type>,
}

/// The solution of the variable with the given number, where there is such a variable.
pub open spec fn solution_of(variables: Seq<Variable>, id: u64) -> Option<Option<Type>>
    decreases variables.len(),
{
    if variables.len() == 0 {
        None
    } else if variables[0].id == id {
        Some(variables[0].solution)
    } else {
        solution_of(variables.drop_first(), id)
    }
}

fn find_solution(variables: &Vec<Variable>, id: u64) -> (r: Option<Option<Type>>)
    ensures
        r == solution_of(variables@, id),
{
    let mut i: usize = 0;
    assert(variables@.skip(0) =~= variables@);
    while i < variables.len()
        invariant
            i <= variables@.len(),
            solution_of(variables@, id) == solution_of(variables@.skip(i as int), id),
        decreases variables@.len() - i,
    {
        assert(variables@.skip(i as int).drop_first() =~= variables@.skip(i + 1));
        if variables[i].id == id {
            return Some(dupe_type(&variables[i].solution));
        }
        i = i + 1;
    }
    None
}

/// Answers that go by the names of classes: a class is a subtype of the classes it is said to
/// descend from, type arguments are not looked at, and expressions have the types that are listed.
/// A type that is a variable is looked up among the variables; those inside other types are not.
pub struct NominalAnswers {
    /// Pairs of the ids of a class and of one that it descends from.
    pub descends: Vec<(u64, u64)>,
    pub int_class: ClassType,
    pub bool_class: ClassType,
    pub str_class: ClassType,
    pub expressions: Vec<KnownType>,
    pub definitions: Vec<KnownType>,
    pub variables: Vec<Variable>,
}

impl NominalAnswers {
    /// Whether one class is another or descends from it.
    pub open spec fn below(self, got: Class, want: Class) -> bool {
        got.id == want.id || want.is_qname("builtins"@, "object"@) || self.descends@.contains(
            (got.id, want.id),
        )
    }

    fn is_below(&self, got: &Class, want: &Class) -> (r: bool)
        ensures
            r == self.below(*got, *want),
    {
        if got.id == want.id || want.has_toplevel_qname("builtins", "object") {
            return true;
        }
        let mut i: usize = 0;
        while i < self.descends.len()
            invariant
                i <= self.descends@.len(),
                forall|k: int| 0 <= k < i ==> self.descends@[k] != (got.id, want.id),
            decreases self.descends@.len() - i,
        {
            if self.descends[i].0 == got.id && self.descends[i].1 == want.id {
                assert(self.descends@[i as int] == (got.id, want.id));
                return true;
            }
            i = i + 1;
        }
        false
    }

    /// The class of a literal.
    pub open spec fn class_of(self, value: Lit) -> Option<ClassType> {
        match value {
            Lit::Int(_) => Some(self.int_class),
            Lit::Bool(_) => Some(self.bool_class),
            Lit::Str(_) => Some(self.str_class),
            Lit::Enum(c, _) => Some(c),
            Lit::Other(_) => None,
        }
    }

    fn get_class_of(&self, value: &Lit) -> (r: Option<ClassType>)
        ensures
            r == self.class_of(*value),
    {
        match value {
            Lit::Int(_) => Some(self.int_class.dupe()),
            Lit::Bool(_) => Some(self.bool_class.dupe()),
            Lit::Str(_) => Some(self.str_class.dupe()),
            Lit::Enum(c, _) => Some(c.dupe()),
            Lit::Other(_) => None,
        }
    }

    /// The class whose instances the values of a type are.
    pub open spec fn nominal_class(self, ty: Type) -> Option<ClassType> {
        match ty {
            Type::ClassType(c) => Some(c),
            Type::SelfType(c) => Some(c),
            Type::TypedDict(c) => Some(c),
            Type::Literal(lit) => self.class_of(lit.value),
            Type::LiteralString => Some(self.str_class),
            _ => None,
        }
    }

    fn get_nominal_class(&self, ty: &Type) -> (r: Option<ClassType>)
        ensures
            r == self.nominal_class(*ty),
    {
        match ty {
            Type::ClassType(c) => Some(c.dupe()),
            Type::SelfType(c) => Some(c.dupe()),
            Type::TypedDict(c) => Some(c.dupe()),
            Type::Literal(lit) => self.get_class_of(&lit.value),
            Type::LiteralString => Some(self.str_class.dupe()),
            _ => None,
        }
    }

    /// Whether every value of one type has another type that is no union.
    pub open spec fn fits_one(self, got: Type, want: Type) -> bool {
        match (got, want) {
            (_, Type::Any(_)) => true,
            (Type::Any(_), _) => true,
            (Type::Never, _) => true,
            (Type::NoneType, Type::NoneType) => true,
            (Type::Callable(_), Type::Callable(_)) => true,
            (Type::Function(_), Type::Callable(_)) => true,
            (Type::BoundMethod(_), Type::Callable(_)) => true,
            (_, Type::ClassType(w)) => match self.nominal_class(got) {
                Some(g) => self.below(g.class, w.class),
                None => w.class.is_qname("builtins"@, "object"@),
            },
            _ => false,
        }
    }

    fn check_fits_one(&self, got: &Type, want: &Type) -> (r: bool)
        ensures
            r == self.fits_one(*got, *want),
    {
        match (got, want) {
            (_, Type::Any(_)) => true,
            (Type::Any(_), _) => true,
            (Type::Never, _) => true,
            (Type::NoneType, Type::NoneType) => true,
            (Type::Callable(_), Type::Callable(_)) => true,
            (Type::Function(_), Type::Callable(_)) => true,
            (Type::BoundMethod(_), Type::Callable(_)) => true,
            (_, Type::ClassType(w)) => match self.get_nominal_class(got) {
                Some(g) => self.is_below(&g.class, &w.class),
                None => w.class.has_toplevel_qname("builtins", "object"),
            },
            _ => false,
        }
    }

    pub open spec fn fits_some(self, got: Type, wants: List<Type>) -> bool
        decreases wants,
    {
        match wants {
            List::Nil => false,
            List::Cons(want, rest) => self.fits_one(got, want) || self.fits_some(got, *rest),
        }
    }

    fn check_fits_some(&self, got: &Type, wants: &List<Type>) -> (r: bool)
        ensures
            r == self.fits_some(*got, *wants),
        decreases wants,
    {
        match wants {
            List::Nil => false,
            List::Cons(want, rest) => self.check_fits_one(got, want) || self.check_fits_some(
                got,
                &**rest,
            ),
        }
    }

    /// Whether every value of a type that is no union has another type.
    pub open spec fn member_fits(self, got: Type, want: Type) -> bool {
        match want {
            Type::Union(wants) => self.fits_some(got, *wants),
            _ => self.fits_one(got, want),
        }
    }

    fn check_member_fits(&self, got: &Type, want: &Type) -> (r: bool)
        ensures
            r == self.member_fits(*got, *want),
    {
        match want {
            Type::Union(wants) => self.check_fits_some(got, &**wants),
            _ => self.check_fits_one(got, want),
        }
    }

    pub open spec fn all_fit(self, gots: List<Type>, want: Type) -> bool
        decreases gots,
    {
        match gots {
            List::Nil => true,
            List::Cons(got, rest) => self.member_fits(got, want) && self.all_fit(*rest, want),
        }
    }

    fn check_all_fit(&self, gots: &List<Type>, want: &Type) -> (r: bool)
        ensures
            r == self.all_fit(*gots, *want),
        decreases gots,
    {
        match gots {
            List::Nil => true,
            List::Cons(got, rest) => self.check_member_fits(got, want) && self.check_all_fit(
                &**rest,
                want,
            ),
        }
    }

    /// Whether every value of one type has another.
    pub open spec fn fits(self, got: Type, want: Type) -> bool {
        match got {
            Type::Union(gots) => self.all_fit(*gots, want),
            _ => self.member_fits(got, want),
        }
    }

    fn check_fits(&self, got: &Type, want: &Type) -> (r: bool)
        ensures
            r == self.fits(*got, *want),
    {
        match got {
            Type::Union(gots) => self.check_all_fit(&**gots, want),
            _ => self.check_member_fits(got, want),
        }
    }

    pub open spec fn below_all(self, ty: Type, types: Seq<Type>) -> bool {
        forall|i: int| 0 <= i < types.len() ==> self.fits(ty, #[trigger] types[i])
    }

    fn is_below_all(&self, ty: &Type, types: &Vec<Type>) -> (r: bool)
        ensures
            r == self.below_all(*ty, types@),
    {
        let mut i: usize = 0;
        while i < types.len()
            invariant
                i <= types@.len(),
                forall|k: int| 0 <= k < i ==> self.fits(*ty, #[trigger] types@[k]),
            decreases types@.len() - i,
        {
            if !self.check_fits(ty, &types[i]) {
                assert(!self.fits(*ty, types@[i as int]));
                return false;
            }
            i = i + 1;
        }
        true
    }

    /// The first of the candidates that is below all types.
    pub open spec fn lowest(self, candidates: Seq<Type>, types: Seq<Type>) -> Type
        decreases candidates.len(),
    {
        if candidates.len() == 0 {
            Type::Never
        } else if self.below_all(candidates[0], types) {
            candidates[0]
        } else {
            self.lowest(candidates.drop_first(), types)
        }
    }

    /// What the first signature of a type returns.
    pub open spec fn first_return(ty: Type) -> Option<Type> {
        if ty.signatures().len() > 0 {
            Some(ty.signatures()[0].ret)
        } else {
            None
        }
    }

    fn get_first_return(ty: &Type) -> (r: Option<Type>)
        ensures
            r == Self::first_return(*ty),
    {
        let sigs = ty.callable_signatures();
        if sigs.len() > 0 {
            Some(sigs[0].ret.dupe())
        } else {
            None
        }
    }

    /// What calling a type gives, or else an unknown type.
    pub open spec fn call_result(ty: Type) -> Type {
        match Self::first_return(ty) {
            Some(t) => t,
            None => Type::Any(AnyStyle::Implicit),
        }
    }

    fn get_call_result(ty: &Type) -> (r: Type)
        ensures
            r == Self::call_result(*ty),
    {
        match Self::get_first_return(ty) {
            Some(t) => t,
            None => Type::Any(AnyStyle::Implicit),
        }
    }

    /// The type that a variable stands for: where it has no solution, `unsolved` for a variable
    /// that has to be solved, or else the variable itself.
    pub open spec fn written_out(self, ty: Type, unsolved: Option<Type>) -> Type {
        match ty {
            Type::Other(id) => match solution_of(self.variables@, id) {
                Some(Some(t)) => t,
                Some(None) => match unsolved {
                    Some(t) => t,
                    None => ty,
                },
                None => ty,
            },
            _ => ty,
        }
    }

    fn write_out(&self, ty: &Type, unsolved: Option<Type>) -> (r: Type)
        ensures
            r == self.written_out(*ty, unsolved),
    {
        match ty {
            Type::Other(id) => match find_solution(&self.variables, *id) {
                Some(Some(t)) => t,
                Some(None) => match unsolved {
                    Some(t) => t,
                    None => ty.dupe(),
                },
                None => ty.dupe(),
            },
            _ => ty.dupe(),
        }
    }

    /// The type of a value that is assigned.
    pub open spec fn assigned_type(self, got: ArgValue) -> Type {
        match got {
            ArgValue::Expr(e) => known(self.expressions@, e),
            ArgValue::Type(t) => t,
        }
    }

    fn get_assigned_type(&self, got: &ArgValue) -> (r: Type)
        ensures
            r == self.assigned_type(*got),
    {
        match got {
            ArgValue::Expr(e) => find_known(&self.expressions, *e),
            ArgValue::Type(t) => t.dupe(),
        }
    }

    /// That a type does not fit an attribute, in words.
    pub open spec fn mismatch(self, got: Type, attribute: Seq<char>, want: Type) -> Seq<char> {
        "`"@ + self.words(got) + "` is not assignable to attribute `"@ + attribute
            + "` with type `"@ + self.words(want) + "`"@
    }

    fn write_mismatch(&self, got: &Type, attribute: &str, want: &Type) -> (r: String)
        ensures
            r@ == self.mismatch(*got, attribute@, *want),
    {
        let shown = self.get_words(got);
        let shown_want = self.get_words(want);
        cat7(
            "`",
            shown.as_str(),
            "` is not assignable to attribute `",
            attribute,
            "` with type `",
            shown_want.as_str(),
            "`",
        )
    }

    /// A type in words.
    pub open spec fn words(self, ty: Type) -> Seq<char> {
        match ty {
            Type::ClassType(c) => c.class.name@,
            Type::SelfType(_) => "Self"@,
            Type::TypedDict(c) => c.class.name@,
            Type::ClassDef(c) => "type["@ + c.name@ + "]"@,
            Type::Quantified(q) => q.name@,
            Type::Never => "Never"@,
            Type::NoneType => "None"@,
            Type::Any(_) => "Any"@,
            Type::LiteralString => "LiteralString"@,
            Type::Literal(lit) => match lit.value {
                Lit::Int(n) => "Literal["@ + n.written() + "]"@,
                Lit::Bool(b) => if b {
                    "Literal[True]"@
                } else {
                    "Literal[False]"@
                },
                Lit::Str(s) => "Literal['"@ + s@ + "']"@,
                Lit::Enum(c, name) => "Literal["@ + c.class.name@ + "."@ + name@ + "]"@,
                Lit::Other(_) => "Literal[...]"@,
            },
            Type::Union(ts) => self.words_of(*ts),
            _ => "..."@,
        }
    }

    pub open spec fn words_of(self, ts: List<Type>) -> Seq<char>
        decreases ts,
    {
        match ts {
            List::Nil => ""@,
            List::Cons(t, rest) => match *rest {
                List::Nil => self.simple_words(t),
                List::Cons(_, _) => self.simple_words(t) + " | "@ + self.words_of(*rest),
            },
        }
    }

    /// A member of a union in words.
    pub open spec fn simple_words(self, ty: Type) -> Seq<char> {
        match ty {
            Type::ClassType(c) => c.class.name@,
            Type::NoneType => "None"@,
            Type::Any(_) => "Any"@,
            _ => "..."@,
        }
    }

    fn get_simple_words(&self, ty: &Type) -> (r: String)
        ensures
            r@ == self.simple_words(*ty),
    {
        match ty {
            Type::ClassType(c) => c.class.name.clone(),
            Type::NoneType => "None".to_owned(),
            Type::Any(_) => "Any".to_owned(),
            _ => "...".to_owned(),
        }
    }

    fn get_words_of(&self, ts: &List<Type>) -> (r: String)
        ensures
            r@ == self.words_of(*ts),
        decreases ts,
    {
        match ts {
            List::Nil => "".to_owned(),
            List::Cons(t, rest) => {
                let first = self.get_simple_words(t);
                match &**rest {
                    List::Nil => first,
                    List::Cons(_, _) => {
                        let others = self.get_words_of(&**rest);
                        cat3(first.as_str(), " | ", others.as_str())
                    },
                }
            },
        }
    }

    fn get_words(&self, ty: &Type) -> (r: String)
        ensures
            r@ == self.words(*ty),
    {
        match ty {
            Type::ClassType(c) => c.class.name.clone(),
            Type::SelfType(_) => "Self".to_owned(),
            Type::TypedDict(c) => c.class.name.clone(),
            Type::ClassDef(c) => cat3("type[", c.name.as_str(), "]"),
            Type::Quantified(q) => q.name.clone(),
            Type::Never => "Never".to_owned(),
            Type::NoneType => "None".to_owned(),
            Type::Any(_) => "Any".to_owned(),
            Type::LiteralString => "LiteralString".to_owned(),
            Type::Literal(lit) => match &lit.value {
                Lit::Int(n) => {
                    let text = n.text();
                    cat3("Literal[", text.as_str(), "]")
                },
                Lit::Bool(b) => if *b {
                    "Literal[True]".to_owned()
                } else {
                    "Literal[False]".to_owned()
                },
                Lit::Str(s) => cat3("Literal['", s.as_str(), "']"),
                Lit::Enum(c, name) => cat5(
                    "Literal[",
                    c.class.name.as_str(),
                    ".",
                    name.as_str(),
                    "]",
                ),
                Lit::Other(_) => "Literal[...]".to_owned(),
            },
            Type::Union(ts) => self.get_words_of(&**ts),
            _ => "...".to_owned(),
        }
    }

    pub open spec fn reason_words(reason: ReadOnlyReason) -> Seq<char> {
        match reason {
            ReadOnlyReason::Final(_) => "This field is marked as Final"@,
            ReadOnlyReason::ReadOnlyQualifier => "This field is marked as ReadOnly"@,
            ReadOnlyReason::NamedTuple => "This field is an element of a NamedTuple"@,
            ReadOnlyReason::FrozenDataclass => "This field belongs to a frozen dataclass"@,
            ReadOnlyReason::PydanticFrozen => "This field belongs to a frozen Pydantic model"@,
            ReadOnlyReason::ClassVar => "A ClassVar may not be set from an instance"@,
            ReadOnlyReason::ClassObjectInitializedOnBody => "This is a nested class"@,
        }
    }

    pub open spec fn access_words(reason: NoAccessReason) -> Seq<char> {
        match reason {
            NoAccessReason::ClassUseOfInstanceAttribute(c) =>
                "Instance-only attribute of class `"@ + c.name@ + "`"@,
            NoAccessReason::ClassAttributeIsGeneric(c) => "Generic attribute of class `"@ + c.name@
                + "`"@,
            NoAccessReason::SettingReadOnlyProperty(c) => "Read-only property of class `"@ + c.name@
                + "`"@,
            NoAccessReason::SettingReadOnlyDescriptor(c) => "Read-only descriptor of class `"@
                + c.name@ + "`"@,
            NoAccessReason::SuperMethodNeedsImplementation(c) =>
                "Method without implementation of class `"@ + c.name@ + "`"@,
        }
    }
}

impl LookupAnswer for NominalAnswers {
    open spec fn subset(&self, got: Type, want: Type) -> Result<(), SubsetError> {
        if self.fits(got, want) {
            Ok(())
        } else {
            Err(SubsetError::Other)
        }
    }

    fn is_subset_eq_with_reason(&self, got: &Type, want: &Type) -> (r: Result<(), SubsetError>) {
        if self.check_fits(got, want) {
            Ok(())
        } else {
            Err(SubsetError::Other)
        }
    }

    open spec fn shown(&self, ty: Type) -> Seq<char> {
        self.words(self.written_out(ty, None))
    }

    fn display(&self, ty: &Type) -> (r: String) {
        self.get_words(&self.write_out(ty, None))
    }

    open spec fn expanded(&self, ty: Type) -> Type {
        self.written_out(ty, None)
    }

    fn expand_vars(&self, ty: &Type) -> (r: Type) {
        self.write_out(ty, None)
    }

    open spec fn finalized(&self, ty: Type) -> Type {
        ty
    }

    fn finalize_callable_residuals_at_boundary(&self, ty: &Type) -> (r: Type) {
        ty.dupe()
    }

    open spec fn forced(&self, ty: Type) -> Type {
        self.written_out(ty, Some(Type::Any(AnyStyle::Implicit)))
    }

    fn deep_force(&self, ty: &Type) -> (r: Type) {
        self.write_out(ty, Some(Type::Any(AnyStyle::Implicit)))
    }

    open spec fn members(&self, ty: Type) -> Seq<Type> {
        union_members(self.written_out(ty, None))
    }

    fn get_members(&self, ty: &Type) -> (r: Vec<Type>) {
        get_union_members(&self.write_out(ty, None))
    }

    open spec fn class_shown(&self, cls: Class) -> Seq<char> {
        cls.name@
    }

    fn display_class(&self, cls: &Class) -> (r: String) {
        cls.name.clone()
    }

    open spec fn as_it_stands(&self, ty: Type) -> Seq<char> {
        self.words(ty)
    }

    fn display_as_it_stands(&self, ty: &Type) -> (r: String) {
        self.get_words(ty)
    }

    open spec fn class_beside(&self, cls: Class, other: Class) -> Seq<char> {
        if cls.id != other.id && cls.name@ == other.name@ {
            cls.module@ + "."@ + cls.name@
        } else {
            cls.name@
        }
    }

    fn display_class_beside(&self, cls: &Class, other: &Class) -> (r: String) {
        if cls.id != other.id && same_text(cls.name.as_str(), other.name.as_str()) {
            cat3(cls.module.as_str(), ".", cls.name.as_str())
        } else {
            cls.name.clone()
        }
    }

    open spec fn intersection(&self, types: Seq<Type>) -> Type {
        self.lowest(types, types)
    }

    fn intersects(&self, types: &Vec<Type>) -> (r: Type) {
        let mut i: usize = 0;
        assert(types@.skip(0) =~= types@);
        while i < types.len()
            invariant
                i <= types@.len(),
                self.lowest(types@, types@) == self.lowest(types@.skip(i as int), types@),
            decreases types@.len() - i,
        {
            assert(types@.skip(i as int).drop_first() =~= types@.skip(i + 1));
            if self.is_below_all(&types[i], types) {
                return types[i].dupe();
            }
            i = i + 1;
        }
        Type::Never
    }

    open spec fn signature_shown(&self, ty: Type, got: Type, want: Type) -> Seq<char> {
        self.words(ty)
    }

    fn signature_text(&self, ty: &Type, got: &Type, want: &Type) -> (r: String) {
        self.get_words(ty)
    }

    open spec fn diff_lines(&self, want: Seq<char>, got: Seq<char>) -> Seq<Seq<char>> {
        seq!["- "@ + want, "+ "@ + got]
    }

    fn render_signature_diff(&self, want: &str, got: &str) -> (r: Vec<String>) {
        let mut lines: Vec<String> = Vec::new();
        lines.push(cat2("- ", want));
        lines.push(cat2("+ ", got));
        assert(texts(lines@) =~= seq!["- "@ + want@, "+ "@ + got@]);
        lines
    }

    open spec fn constructor(&self, cls: ClassType) -> Type {
        Type::any_call(Type::ClassType(cls))
    }

    fn constructor_to_callable(&self, cls: &ClassType) -> (r: Type) {
        Type::callable_ellipsis(Type::ClassType(cls.dupe()))
    }

    open spec fn descriptor_result(&self, getter: Type, base: DescriptorBase) -> Type {
        Self::call_result(getter)
    }

    open spec fn descriptor_reports(
        &self,
        getter: Type,
        base: DescriptorBase,
        range: TextRange,
    ) -> Seq<ReportView> {
        Seq::empty()
    }

    fn call_descriptor_getter(
        &self,
        getter: &Type,
        base: &DescriptorBase,
        range: TextRange,
        errors: &mut ErrorCollector,
    ) -> (r: Type) {
        assert(errors@ + Seq::<ReportView>::empty() =~= errors@);
        Self::get_call_result(getter)
    }

    open spec fn getter_result(&self, getter: Type) -> Type {
        Self::call_result(getter)
    }

    open spec fn getter_reports(&self, getter: Type, range: TextRange) -> Seq<ReportView> {
        Seq::empty()
    }

    fn call_property_getter(
        &self,
        getter: &Type,
        range: TextRange,
        errors: &mut ErrorCollector,
    ) -> (r: Type) {
        assert(errors@ + Seq::<ReportView>::empty() =~= errors@);
        Self::get_call_result(getter)
    }

    open spec fn assign_reports(
        &self,
        attr_ty: Type,
        name: Seq<char>,
        got: ArgValue,
        range: TextRange,
    ) -> Seq<ReportView> {
        if self.fits(self.assigned_type(got), attr_ty) {
            Seq::empty()
        } else {
            seq![
                report1(
                    range,
                    Rule::BadArgumentType,
                    self.mismatch(self.assigned_type(got), name, attr_ty),
                ),
            ]
        }
    }

    open spec fn assign_narrowed(
        &self,
        attr_ty: Type,
        name: Seq<char>,
        got: ArgValue,
        should_narrow: bool,
    ) -> Seq<Type> {
        if !should_narrow {
            Seq::empty()
        } else if self.fits(self.assigned_type(got), attr_ty) {
            seq![self.assigned_type(got)]
        } else {
            seq![attr_ty]
        }
    }

    fn check_set_read_write_and_infer_narrow(
        &self,
        attr_ty: &Type,
        attr_name: &str,
        got: &ArgValue,
        range: TextRange,
        errors: &mut ErrorCollector,
        should_narrow: bool,
        narrowed_types: &mut Vec<Type>,
    ) {
        assert(errors@ + Seq::<ReportView>::empty() =~= errors@);
        let ty = self.get_assigned_type(got);
        let fits = self.check_fits(&ty, attr_ty);
        if !fits {
            let line = self.write_mismatch(&ty, attr_name, attr_ty);
            errors.error(range, Rule::BadArgumentType, line);
        }
        if should_narrow {
            narrowed_types.push(
                if fits {
                    ty
                } else {
                    attr_ty.dupe()
                },
            );
        }
        assert(narrowed_types@ =~= old(narrowed_types)@ + self.assign_narrowed(
            *attr_ty,
            attr_name@,
            *got,
            should_narrow,
        ));
    }

    open spec fn setter_reports(&self, setter: Type, got: ArgValue, range: TextRange) -> Seq<ReportView> {
        Seq::empty()
    }

    fn call_property_setter(
        &self,
        setter: &Type,
        got: &ArgValue,
        range: TextRange,
        errors: &mut ErrorCollector,
    ) {
        assert(errors@ + Seq::<ReportView>::empty() =~= errors@);
    }

    open spec fn descriptor_setter_reports(
        &self,
        setter: Type,
        base: DescriptorBase,
        got: ArgValue,
        range: TextRange,
    ) -> Seq<ReportView> {
        Seq::empty()
    }

    fn call_descriptor_setter(
        &self,
        setter: &Type,
        base: &DescriptorBase,
        got: &ArgValue,
        range: TextRange,
        errors: &mut ErrorCollector,
    ) {
        assert(errors@ + Seq::<ReportView>::empty() =~= errors@);
    }

    open spec fn read_only_text(&self, reason: ReadOnlyReason) -> Seq<char> {
        Self::reason_words(reason)
    }

    fn read_only_message(&self, reason: ReadOnlyReason) -> (r: String) {
        match reason {
            ReadOnlyReason::Final(_) => "This field is marked as Final".to_owned(),
            ReadOnlyReason::ReadOnlyQualifier => "This field is marked as ReadOnly".to_owned(),
            ReadOnlyReason::NamedTuple => "This field is an element of a NamedTuple".to_owned(),
            ReadOnlyReason::FrozenDataclass => "This field belongs to a frozen dataclass".to_owned(),
            ReadOnlyReason::PydanticFrozen =>
            "This field belongs to a frozen Pydantic model".to_owned(),
            ReadOnlyReason::ClassVar => "A ClassVar may not be set from an instance".to_owned(),
            ReadOnlyReason::ClassObjectInitializedOnBody => "This is a nested class".to_owned(),
        }
    }

    open spec fn no_access_text(&self, reason: NoAccessReason, name: Seq<char>) -> Seq<char> {
        "Attribute `"@ + name + "`: "@ + Self::access_words(reason)
    }

    fn no_access_message(&self, reason: &NoAccessReason, name: &str) -> (r: String) {
        let words = match reason {
            NoAccessReason::ClassUseOfInstanceAttribute(c) => cat3(
                "Instance-only attribute of class `",
                c.name.as_str(),
                "`",
            ),
            NoAccessReason::ClassAttributeIsGeneric(c) => cat3(
                "Generic attribute of class `",
                c.name.as_str(),
                "`",
            ),
            NoAccessReason::SettingReadOnlyProperty(c) => cat3(
                "Read-only property of class `",
                c.name.as_str(),
                "`",
            ),
            NoAccessReason::SettingReadOnlyDescriptor(c) => cat3(
                "Read-only descriptor of class `",
                c.name.as_str(),
                "`",
            ),
            NoAccessReason::SuperMethodNeedsImplementation(c) => cat3(
                "Method without implementation of class `",
                c.name.as_str(),
                "`",
            ),
        };
        cat4("Attribute `", name, "`: ", words.as_str())
    }

    open spec fn subset_text(
        &self,
        error: AttrSubsetError,
        child: Seq<char>,
        parent: Seq<char>,
        field: Seq<char>,
    ) -> Seq<char> {
        "`"@ + child + "."@ + field + "` does not fit `"@ + parent + "`"@
    }

    fn subset_message(
        &self,
        error: &AttrSubsetError,
        child: &str,
        parent: &str,
        field: &str,
    ) -> (r: String) {
        cat7("`", child, ".", field, "` does not fit `", parent, "`")
    }

    open spec fn unioned(&self, types: Seq<Type>) -> Type {
        union_of(types)
    }

    fn unions(&self, types: &Vec<Type>) -> (r: Type) {
        let mut copy: Vec<Type> = Vec::new();
        let mut i: usize = 0;
        while i < types.len()
            invariant
                i <= types@.len(),
                copy@ == types@.take(i as int),
            decreases types@.len() - i,
        {
            copy.push(types[i].dupe());
            assert(copy@ =~= types@.take(i + 1));
            i = i + 1;
        }
        assert(types@.take(i as int) =~= types@);
        unions(copy)
    }

    open spec fn truth(&self, ty: Type) -> Option<bool> {
        match ty {
            Type::Literal(lit) => match lit.value {
                Lit::Bool(b) => Some(b),
                _ => None,
            },
            Type::NoneType => Some(false),
            _ => None,
        }
    }

    fn as_bool(&self, ty: &Type) -> (r: Option<bool>) {
        match ty {
            Type::Literal(lit) => match &lit.value {
                Lit::Bool(b) => Some(*b),
                _ => None,
            },
            Type::NoneType => Some(false),
            _ => None,
        }
    }

    open spec fn inferred(&self, expr: u64) -> Type {
        known(self.expressions@, expr)
    }

    open spec fn inferred_reports(&self, expr: u64) -> Seq<ReportView> {
        Seq::empty()
    }

    fn expr_infer(&self, expr: u64, errors: &mut ErrorCollector) -> (r: Type) {
        assert(errors@ + Seq::<ReportView>::empty() =~= errors@);
        find_known(&self.expressions, expr)
    }

    open spec fn hinted(&self, expr: u64, hint: Type, attribute: Seq<char>) -> Type {
        known(self.expressions@, expr)
    }

    open spec fn hinted_reports(&self, expr: u64, hint: Type, attribute: Seq<char>) -> Seq<ReportView> {
        let got = known(self.expressions@, expr);
        if self.fits(got, hint) {
            Seq::empty()
        } else {
            seq![
                report1(
                    TextRange { start: 0, end: 0 },
                    Rule::BadArgumentType,
                    self.mismatch(got, attribute, hint),
                ),
            ]
        }
    }

    fn expr(&self, expr: u64, hint: &Type, attribute: &str, errors: &mut ErrorCollector) -> (r: Type) {
        assert(errors@ + Seq::<ReportView>::empty() =~= errors@);
        let got = find_known(&self.expressions, expr);
        if !self.check_fits(&got, hint) {
            let line = self.write_mismatch(&got, attribute, hint);
            errors.error(TextRange { start: 0, end: 0 }, Rule::BadArgumentType, line);
        }
        got
    }

    open spec fn solved(&self, definition: u64) -> Type {
        known(self.definitions@, definition)
    }

    open spec fn solved_reports(&self, definition: u64, range: TextRange) -> Seq<ReportView> {
        Seq::empty()
    }

    fn solve_binding(&self, definition: u64, range: TextRange, errors: &mut ErrorCollector) -> (r:
        Type) {
        assert(errors@ + Seq::<ReportView>::empty() =~= errors@);
        find_known(&self.definitions, definition)
    }

    open spec fn promoted(&self, ty: Type) -> Type {
        match ty {
            Type::Literal(lit) => if lit.implicit && self.class_of(lit.value) is Some {
                Type::ClassType(self.class_of(lit.value)->0)
            } else {
                ty
            },
            _ => ty,
        }
    }

    fn promote_implicit_literals(&self, ty: &Type) -> (r: Type) {
        if let Type::Literal(lit) = ty {
            if lit.implicit {
                if let Some(c) = self.get_class_of(&lit.value) {
                    return Type::ClassType(c);
                }
            }
        }
        ty.dupe()
    }

    open spec fn gradual(&self, q: Quantified) -> Type {
        Type::Any(AnyStyle::Implicit)
    }

    fn as_gradual_type(&self, q: &Quantified) -> (r: Type) {
        Type::Any(AnyStyle::Implicit)
    }

    open spec fn callee(&self, ty: Type) -> Option<CalleeKind> {
        match ty {
            Type::ClassDef(c) => if c.is_qname("builtins"@, "property"@) {
                Some(CalleeKind::Property)
            } else {
                Some(CalleeKind::Other(c.id))
            },
            _ => None,
        }
    }

    fn callee_kind(&self, ty: &Type) -> (r: Option<CalleeKind>) {
        match ty {
            Type::ClassDef(c) => if c.has_toplevel_qname("builtins", "property") {
                Some(CalleeKind::Property)
            } else {
                Some(CalleeKind::Other(c.id))
            },
            _ => None,
        }
    }

    open spec fn enum_field(
        &self,
        class: Class,
        name: Seq<char>,
        annotation: Option<Annotation>,
        ty: Type,
        definition: ClassFieldDefinition,
        is_descriptor: bool,
    ) -> Option<Type> {
        None
    }

    open spec fn enum_field_reports(
        &self,
        class: Class,
        name: Seq<char>,
        annotation: Option<Annotation>,
        ty: Type,
        definition: ClassFieldDefinition,
        is_descriptor: bool,
        range: TextRange,
    ) -> Seq<ReportView> {
        Seq::empty()
    }

    fn get_enum_class_field_type(
        &self,
        class: &Class,
        name: &str,
        annotation: &Option<Annotation>,
        ty: &Type,
        definition: &ClassFieldDefinition,
        is_descriptor: bool,
        range: TextRange,
        errors: &mut ErrorCollector,
    ) -> (r: Option<Type>) {
        assert(errors@ + Seq::<ReportView>::empty() =~= errors@);
        None
    }

    open spec fn django_field(&self, ty: Type, class: Class, name: Seq<char>, value: Option<u64>) -> Option<
        Type,
    > {
        None
    }

    fn get_django_field_type(&self, ty: &Type, class: &Class, name: &str, value: Option<u64>) -> (r:
        Option<Type>) {
        None
    }

    open spec fn foreign_key_like(&self, class: Class) -> bool {
        class.name@ == "ForeignKey"@
    }

    fn is_foreign_key_like_field(&self, class: &Class) -> (r: bool) {
        crate::text::is_text(&class.name, "ForeignKey")
    }

    open spec fn lists_choices(&self, call: u64) -> bool {
        false
    }

    fn has_django_field_choices(&self, call: u64) -> (r: bool) {
        false
    }

    open spec fn key_field(&self, class: Class, name: Seq<char>, definition: ClassFieldDefinition) -> ClassField {
        ClassField::attribute(
            Type::Any(AnyStyle::Error),
            None,
            ClassFieldInitialization::Magic,
            None,
        )
    }

    open spec fn key_field_reports(
        &self,
        class: Class,
        name: Seq<char>,
        definition: ClassFieldDefinition,
        range: TextRange,
    ) -> Seq<ReportView> {
        Seq::empty()
    }

    fn calculate_typed_dict_field(
        &self,
        class: &Class,
        name: &str,
        definition: &ClassFieldDefinition,
        range: TextRange,
        errors: &mut ErrorCollector,
    ) -> (r: ClassField) {
        assert(errors@ + Seq::<ReportView>::empty() =~= errors@);
        ClassField::invalid_typed_dict_field()
    }

    open spec fn named(&self, cls: Class) -> Type {
        Type::ClassType(ClassType { class: cls, targs: Arc::new(List::Nil) })
    }

    fn promote_silently(&self, cls: &Class) -> (r: Type) {
        Type::ClassType(ClassType { class: cls.dupe(), targs: Arc::new(List::Nil) })
    }

    open spec fn received(&self, method: BoundMethod) -> Option<Type> {
        None
    }

    fn bind_boundmethod(&self, method: &BoundMethod) -> (r: Option<Type>) {
        None
    }

    open spec fn returned(&self, ty: Type) -> Option<Type> {
        Self::first_return(ty)
    }

    fn callable_return_type(&self, ty: &Type) -> (r: Option<Type>) {
        Self::get_first_return(ty)
    }

    open spec fn first_parameter(&self, ty: Type) -> Option<Type> {
        if ty.signatures().len() > 0 {
            ty.signatures()[0].first_param()
        } else {
            None
        }
    }

    fn callable_first_param(&self, ty: &Type) -> (r: Option<Type>) {
        let sigs = ty.callable_signatures();
        if sigs.len() > 0 {
            match sigs[0].get_first_param() {
                Some(t) => Some(t.dupe()),
                None => None,
            }
        } else {
            None
        }
    }

    open spec fn selected(&self, overload: Overload, call: u64) -> Callable {
        Callable { params: Params::Ellipsis, ret: Type::Any(AnyStyle::Implicit) }
    }

    open spec fn selected_reports(&self, overload: Overload, call: u64) -> Seq<ReportView> {
        Seq::empty()
    }

    fn call_overloads(&self, overload: &Overload, call: u64, errors: &mut ErrorCollector) -> (r:
        Callable) {
        assert(errors@ + Seq::<ReportView>::empty() =~= errors@);
        Callable { params: Params::Ellipsis, ret: Type::Any(AnyStyle::Implicit) }
    }

    open spec fn post_init_reports(&self, got: Type, want: Type, range: TextRange) -> Seq<ReportView> {
        if self.fits(got, want) {
            Seq::empty()
        } else {
            seq![
                report1(
                    range,
                    Rule::BadClassDefinition,
                    "`__post_init__` cannot be called with the init variables"@,
                ),
            ]
        }
    }

    fn check_post_init(&self, got: &Type, want: &Type, range: TextRange, errors: &mut ErrorCollector) {
        assert(errors@ + Seq::<ReportView>::empty() =~= errors@);
        if !self.check_fits(got, want) {
            errors.error(
                range,
                Rule::BadClassDefinition,
                "`__post_init__` cannot be called with the init variables".to_owned(),
            );
        }
    }

    open spec fn lax(&self, field_types: Seq<Type>, ty: Type) -> Option<Type> {
        None
    }

    fn lax_conversion(&self, field_types: &List<Type>, ty: &Type) -> (r: Option<Type>) {
        None
    }

    open spec fn called(
        &self,
        callee: Type,
        args: Seq<CallArg>,
        kws: Seq<CallKeyword>,
        call: u64,
    ) -> Type {
        Self::call_result(callee)
    }

    open spec fn called_reports(
        &self,
        callee: Type,
        args: Seq<CallArg>,
        kws: Seq<CallKeyword>,
        call: u64,
    ) -> Seq<ReportView> {
        Seq::empty()
    }

    fn freeform_call_infer(
        &self,
        callee: &Type,
        args: &Vec<CallArg>,
        kws: &Vec<CallKeyword>,
        call: u64,
        errors: &mut ErrorCollector,
    ) -> (r: Type) {
        assert(errors@ + Seq::<ReportView>::empty() =~= errors@);
        Self::get_call_result(callee)
    }

    open spec fn replaced(
        &self,
        obj: Type,
        args: Seq<CallArg>,
        kws: Seq<CallKeyword>,
        call: u64,
    ) -> Option<Type> {
        None
    }

    open spec fn replaced_reports(
        &self,
        obj: Type,
        args: Seq<CallArg>,
        kws: Seq<CallKeyword>,
        call: u64,
    ) -> Seq<ReportView> {
        Seq::empty()
    }

    fn call_replace_method(
        &self,
        obj: &Type,
        args: &Vec<CallArg>,
        kws: &Vec<CallKeyword>,
        call: u64,
        errors: &mut ErrorCollector,
    ) -> (r: Option<Type>) {
        assert(errors@ + Seq::<ReportView>::empty() =~= errors@);
        None
    }
}

} // verus!
