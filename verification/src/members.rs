use vstd::prelude::*;

use crate::class_field::{ClassField, ClassFieldInner};
use crate::solver::{AnswersSolver, LookupAnswer};
use crate::subst::{subst_class, Subst};
use crate::text::cat4;
use crate::types::{Class, Lit, Type};

verus! {

impl ClassField {
    /// The kind of the field in words.
    pub open spec fn kind_in_words(self) -> Seq<char> {
        match self.inner {
            ClassFieldInner::Property { .. } => "property"@,
            ClassFieldInner::Descriptor { .. } => "descriptor"@,
            ClassFieldInner::Method { .. } => "method"@,
            ClassFieldInner::NestedClass { .. } => "nested class"@,
            ClassFieldInner::ClassAttribute { initialization, .. } => initialization.in_words(),
            ClassFieldInner::InstanceAttribute { .. } => "instance attribute"@,
        }
    }

    /// The kind of the field in words.
    pub fn describe_kind(&self) -> (r: &'static str)
        ensures
            r@ == self.kind_in_words(),
    {
        match &self.inner {
            ClassFieldInner::Property { .. } => "property",
            ClassFieldInner::Descriptor { .. } => "descriptor",
            ClassFieldInner::Method { .. } => "method",
            ClassFieldInner::NestedClass { .. } => "nested class",
            ClassFieldInner::ClassAttribute { initialization, .. } => initialization.describe(),
            ClassFieldInner::InstanceAttribute { .. } => "instance attribute",
        }
    }
}

impl<Ans: LookupAnswer> AnswersSolver<Ans> {
    /// A field in words: its type and its kind.
    pub fn describe_field(&self, field: &ClassField) -> (r: String)
        ensures
            r@ == self.answers.as_it_stands(field.field_type()) + " ("@ + field.kind_in_words()
                + ")"@,
    {
        let shown = self.answers.display_as_it_stands(&field.ty());
        cat4(shown.as_str(), " (", field.describe_kind(), ")")
    }

    /// The member of an enumeration that a field is.
    pub open spec fn enum_member(self, field: ClassField, enum_cls: Class) -> Option<Lit> {
        match field.inner {
            ClassFieldInner::ClassAttribute { ty: Type::Literal(lit), .. } => match lit.value {
                Lit::Enum(c, name) => if c.class.id == enum_cls.id {
                    Some(
                        Lit::Enum(
                            subst_class(c, Subst::SelfType(self.instance_of(enum_cls))),
                            name,
                        ),
                    )
                } else {
                    None
                },
                _ => None,
            },
            _ => None,
        }
    }

    /// The member of an enumeration that a field is.
    pub fn as_enum_member(&self, field: &ClassField, enum_cls: &Class) -> (r: Option<Lit>)
        ensures
            r == self.enum_member(*field, *enum_cls),
    {
        match &field.inner {
            ClassFieldInner::ClassAttribute { ty: Type::Literal(lit), .. } => match &lit.value {
                Lit::Enum(c, name) => if c.class.id == enum_cls.id {
                    let s = Subst::SelfType(self.instantiate(enum_cls));
                    Some(Lit::Enum(s.apply_class(c), name.clone()))
                } else {
                    None
                },
                _ => None,
            },
            _ => None,
        }
    }

    /// Whether the class that defines a field satisfies a predicate; never for a field that does
    /// not exist.
    pub fn field_defining_class_matches<F: Fn(&Class) -> bool>(
        &self,
        cls: &Class,
        field: &str,
        predicate: F,
    ) -> (r: bool)
        requires
            forall|c: Class| #[trigger] predicate.requires((&c,)),
        ensures
            match self.member_and_class(*cls, field@) {
                Some(member) => predicate.ensures((&member.defining_class,), r),
                None => !r,
            },
    {
        match self.get_class_member_with_defining_class(cls, field) {
            Some(member) => predicate(&member.defining_class),
            None => false,
        }
    }
}

} // verus!
