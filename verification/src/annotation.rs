use std::sync::Arc;

use vstd::prelude::*;

use crate::attribute::ReadOnlyReason;
use crate::list::List;
use crate::types::{AnyStyle, Type};

verus! {

/// A word around the type of an annotation.
#[derive(Clone, Copy, Debug, PartialEq, Eq, Structural)]
pub enum Qualifier {
    Required,
    NotRequired,
    ReadOnly,
    ClassVar,
    Final,
    InitVar,
    TypeAlias,
    Annotated,
}

impl Qualifier {
    /// The qualifier as it is written.
    pub open spec fn written(self) -> Seq<char> {
        match self {
            Qualifier::Required => "Required"@,
            Qualifier::NotRequired => "NotRequired"@,
            Qualifier::ReadOnly => "ReadOnly"@,
            Qualifier::ClassVar => "ClassVar"@,
            Qualifier::Final => "Final"@,
            Qualifier::InitVar => "InitVar"@,
            Qualifier::TypeAlias => "TypeAlias"@,
            Qualifier::Annotated => "Annotated"@,
        }
    }

    /// The qualifier as it is written.
    pub fn as_str(&self) -> (r: &'static str)
        ensures
            r@ == self.written(),
    {
        match self {
            Qualifier::Required => "Required",
            Qualifier::NotRequired => "NotRequired",
            Qualifier::ReadOnly => "ReadOnly",
            Qualifier::ClassVar => "ClassVar",
            Qualifier::Final => "Final",
            Qualifier::InitVar => "InitVar",
            Qualifier::TypeAlias => "TypeAlias",
            Qualifier::Annotated => "Annotated",
        }
    }
}

fn list_has(qualifiers: &List<Qualifier>, q: Qualifier) -> (r: bool)
    ensures
        r == qualifiers@.contains(q),
    decreases qualifiers,
{
    match qualifiers {
        List::Nil => false,
        List::Cons(head, tail) => {
            if *head == q {
                assert(qualifiers@[0] == q);
                true
            } else {
                let found = list_has(&**tail, q);
                proof {
                    if found {
                        let i = choose|i: int| 0 <= i < tail@.len() && tail@[i] == q;
                        assert(qualifiers@[i + 1] == q);
                    } else if qualifiers@.contains(q) {
                        let i = choose|i: int| 0 <= i < qualifiers@.len() && qualifiers@[i] == q;
                        assert(tail@[i - 1] == q);
                    }
                }
                found
            }
        },
    }
}

/// An annotation: a type, which may be left out, and the qualifiers around it, outermost first.
pub struct Annotation {
    pub ty: Option<Type>,
    pub qualifiers: Arc<List<Qualifier>>,
}

impl Annotation {
    pub fn dupe(&self) -> (r: Annotation)
        ensures
            r == *self,
    {
        Annotation {
            ty: match &self.ty {
                Some(t) => Some(t.dupe()),
                None => None,
            },
            qualifiers: self.qualifiers.clone(),
        }
    }

    pub open spec fn qualified(self, q: Qualifier) -> bool {
        self.qualifiers@.contains(q)
    }

    /// Whether the annotation has the given qualifier.
    pub fn has_qualifier(&self, q: Qualifier) -> (r: bool)
        ensures
            r == self.qualified(q),
    {
        list_has(&*self.qualifiers, q)
    }

    /// Whether the annotation declares a class variable.
    pub fn is_class_var(&self) -> (r: bool)
        ensures
            r == self.qualified(Qualifier::ClassVar),
    {
        self.has_qualifier(Qualifier::ClassVar)
    }

    /// Whether the annotation declares something final.
    pub fn is_final(&self) -> (r: bool)
        ensures
            r == self.qualified(Qualifier::Final),
    {
        self.has_qualifier(Qualifier::Final)
    }

    /// Whether the annotation declares a constructor argument that is no field.
    pub fn is_init_var(&self) -> (r: bool)
        ensures
            r == self.qualified(Qualifier::InitVar),
    {
        self.has_qualifier(Qualifier::InitVar)
    }

    /// The annotated type; without one, anything.
    pub open spec fn stated_type(self) -> Type {
        match self.ty {
            Some(t) => t,
            None => Type::Any(AnyStyle::Implicit),
        }
    }

    /// The annotated type; without one, anything.
    pub fn get_type(&self) -> (r: Type)
        ensures
            r == self.stated_type(),
    {
        match &self.ty {
            Some(t) => t.dupe(),
            None => Type::Any(AnyStyle::Implicit),
        }
    }
}

/// Whether an optional annotation has the given qualifier.
pub open spec fn annotated_as(annotation: Option<Annotation>, q: Qualifier) -> bool {
    annotation is Some && annotation->0.qualified(q)
}

/// Whether an optional annotation has the given qualifier.
pub fn is_annotated_as(annotation: &Option<Annotation>, q: Qualifier) -> (r: bool)
    ensures
        r == annotated_as(*annotation, q),
{
    match annotation {
        Some(a) => a.has_qualifier(q),
        None => false,
    }
}

/// A copy of an optional annotation.
pub fn dupe_annotation(annotation: &Option<Annotation>) -> (r: Option<Annotation>)
    ensures
        r == *annotation,
{
    match annotation {
        Some(a) => Some(a.dupe()),
        None => None,
    }
}

/// A copy of an optional type.
pub fn dupe_type(ty: &Option<Type>) -> (r: Option<Type>)
    ensures
        r == *ty,
{
    match ty {
        Some(t) => Some(t.dupe()),
        None => None,
    }
}

/// The options that control how a field of a dataclass behaves.
pub struct DataclassFieldKeywords {
    /// Whether the field is an argument of the constructor.
    pub init: bool,
    /// The type of the default, where there is one.
    pub default: Option<Type>,
    /// Whether the argument can only be passed by keyword, where the field itself says so.
    pub kw_only: Option<bool>,
    /// Whether the argument can be passed under the name of the field.
    pub init_by_name: bool,
    /// The other name under which the argument can be passed.
    pub init_by_alias: Option<String>,
    pub lt: Option<Type>,
    pub gt: Option<Type>,
    pub ge: Option<Type>,
    pub le: Option<Type>,
    /// Whether values are taken as they are, where the field itself says so.
    pub strict: Option<bool>,
    /// The type that the converter of the field accepts.
    pub converter_param: Option<Type>,
}

impl DataclassFieldKeywords {
    /// The options of a field that sets none.
    pub open spec fn unset() -> DataclassFieldKeywords {
        DataclassFieldKeywords {
            init: true,
            default: None,
            kw_only: None,
            init_by_name: true,
            init_by_alias: None,
            lt: None,
            gt: None,
            ge: None,
            le: None,
            strict: None,
            converter_param: None,
        }
    }

    /// The options of a field that sets none.
    pub fn new() -> (r: DataclassFieldKeywords)
        ensures
            r == DataclassFieldKeywords::unset(),
    {
        DataclassFieldKeywords {
            init: true,
            default: None,
            kw_only: None,
            init_by_name: true,
            init_by_alias: None,
            lt: None,
            gt: None,
            ge: None,
            le: None,
            strict: None,
            converter_param: None,
        }
    }

    pub fn dupe(&self) -> (r: DataclassFieldKeywords)
        ensures
            r == *self,
    {
        DataclassFieldKeywords {
            init: self.init,
            default: dupe_type(&self.default),
            kw_only: self.kw_only,
            init_by_name: self.init_by_name,
            init_by_alias: self.init_by_alias.clone(),
            lt: dupe_type(&self.lt),
            gt: dupe_type(&self.gt),
            ge: dupe_type(&self.ge),
            le: dupe_type(&self.le),
            strict: self.strict,
            converter_param: dupe_type(&self.converter_param),
        }
    }

    pub open spec fn keyword_only(self) -> bool {
        self.kw_only == Some(true)
    }

    /// Whether the argument can only be passed by keyword.
    pub fn is_kw_only(&self) -> (r: bool)
        ensures
            r == self.keyword_only(),
    {
        match self.kw_only {
            Some(b) => b,
            None => false,
        }
    }
}

/// A key of a typed dictionary.
pub struct TypedDictField {
    pub ty: Type,
    pub read_only_reason: Option<ReadOnlyReason>,
    pub required: bool,
}

impl TypedDictField {
    /// Whether the value of the key cannot be changed.
    pub fn is_read_only(&self) -> (r: bool)
        ensures
            r == self.read_only_reason is Some,
    {
        self.read_only_reason.is_some()
    }
}

} // verus!
