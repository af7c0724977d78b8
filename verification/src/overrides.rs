use vstd::prelude::*;

use crate::attribute::{ClassAttribute, ReadOnlyReason};
use crate::solver::{AnswersSolver, LookupAnswer, SubsetError};
use crate::types::Type;

verus! {

/// Why an attribute cannot stand in for another.
pub enum AttrSubsetError {
    /// The attribute cannot be accessed.
    NoAccess,
    /// One is a class variable and the other is not.
    ClassVarMismatch { got_is_classvar: bool },
    /// A property stands for a plain attribute.
    Property,
    /// The attribute cannot be written.
    ReadOnly,
    /// What is read has the wrong type.
    Covariant {
        got: Type,
        want: Type,
        got_is_property: bool,
        want_is_property: bool,
        subset_error: SubsetError,
    },
    /// What is read and written does not have the same type.
    Invariant { got: Type, want: Type, subset_error: SubsetError },
    /// What can be written is too little.
    Contravariant {
        want: Type,
        got: Type,
        got_is_property: bool,
        want_is_property: bool,
        subset_error: SubsetError,
    },
    /// A descriptor meets something else.
    Descriptor,
}

/// Whether an attribute belongs to the class rather than to its instances.
pub open spec fn class_level(attr: ClassAttribute) -> bool {
    attr matches ClassAttribute::ReadOnly(_, reason) && (reason is ClassVar
        || reason is ClassObjectInitializedOnBody)
}

fn is_class_level(attr: &ClassAttribute) -> (r: bool)
    ensures
        r == class_level(*attr),
{
    match attr {
        ClassAttribute::ReadOnly(_, ReadOnlyReason::ClassVar) => true,
        ClassAttribute::ReadOnly(_, ReadOnlyReason::ClassObjectInitializedOnBody) => true,
        _ => false,
    }
}

/// Turns the answer on a pair of types into one on a pair of attributes.
pub open spec fn covariant(
    answer: Result<(), SubsetError>,
    got: Type,
    want: Type,
    got_is_property: bool,
    want_is_property: bool,
) -> Result<(), AttrSubsetError> {
    match answer {
        Ok(_) => Ok(()),
        Err(subset_error) => Err(
            AttrSubsetError::Covariant {
                got,
                want,
                got_is_property,
                want_is_property,
                subset_error,
            },
        ),
    }
}

/// The type of the value that a setter takes.
pub open spec fn setter_value(setter: Type) -> Option<Type> {
    if setter.signatures().len() > 0 {
        setter.signatures()[0].value_param()
    } else {
        None
    }
}

/// Whether the attribute `got` can stand in for the attribute `want`, and why not.
pub open spec fn attribute_subset<S: LookupAnswer>(
    s: S,
    got: ClassAttribute,
    want: ClassAttribute,
) -> Result<(), AttrSubsetError> {
    if want is NoAccess {
        Ok(())
    } else if got is NoAccess {
        Err(AttrSubsetError::NoAccess)
    } else if class_level(got) != class_level(want) {
        Err(AttrSubsetError::ClassVarMismatch { got_is_classvar: class_level(got) })
    } else {
        match (got, want) {
            (ClassAttribute::Property(_, _, _), ClassAttribute::ReadOnly(_, _)) => Err(
                AttrSubsetError::Property,
            ),
            (ClassAttribute::Property(_, _, _), ClassAttribute::ReadWrite(_)) => Err(
                AttrSubsetError::Property,
            ),
            (ClassAttribute::ReadOnly(_, _), ClassAttribute::Property(_, Some(_), _)) => Err(
                AttrSubsetError::ReadOnly,
            ),
            (ClassAttribute::ReadOnly(_, _), ClassAttribute::ReadWrite(_)) => Err(
                AttrSubsetError::ReadOnly,
            ),
            (ClassAttribute::ReadWrite(g), ClassAttribute::ReadWrite(w)) => if g.func_metadata()
                is Some && w.func_metadata() is Some {
                covariant(s.subset(g, w), g, w, false, false)
            } else {
                match (s.subset(g, w), s.subset(w, g)) {
                    (Err(subset_error), _) => Err(
                        AttrSubsetError::Invariant { got: g, want: w, subset_error },
                    ),
                    (Ok(_), Err(subset_error)) => Err(
                        AttrSubsetError::Invariant { got: g, want: w, subset_error },
                    ),
                    (Ok(_), Ok(_)) => Ok(()),
                }
            },
            (ClassAttribute::ReadWrite(g), ClassAttribute::ReadOnly(w, _)) => covariant(
                s.subset(g, w),
                g,
                w,
                false,
                false,
            ),
            (ClassAttribute::ReadOnly(g, _), ClassAttribute::ReadOnly(w, _)) => covariant(
                s.subset(g, w),
                g,
                w,
                false,
                false,
            ),
            (ClassAttribute::ReadOnly(g, _), ClassAttribute::Property(w, None, _)) => covariant(
                s.subset(Type::any_call(g), w),
                g,
                w,
                false,
                true,
            ),
            (ClassAttribute::ReadWrite(g), ClassAttribute::Property(w, setter, _)) => match s.subset(
                Type::any_call(g),
                w,
            ) {
                Err(subset_error) => covariant(Err(subset_error), g, w, false, true),
                Ok(_) => match setter {
                    Some(want_setter) => match setter_value(want_setter) {
                        Some(value) => match s.subset(value, g) {
                            Ok(_) => Ok(()),
                            Err(subset_error) => Err(
                                AttrSubsetError::Contravariant {
                                    want: want_setter,
                                    got: g,
                                    got_is_property: false,
                                    want_is_property: true,
                                    subset_error,
                                },
                            ),
                        },
                        None => Ok(()),
                    },
                    None => Ok(()),
                },
            },
            (
                ClassAttribute::Property(got_getter, got_setter, _),
                ClassAttribute::Property(want_getter, want_setter, _),
            ) => match s.subset(got_getter, want_getter) {
                Err(subset_error) => covariant(
                    Err(subset_error),
                    got_getter,
                    want_getter,
                    true,
                    true,
                ),
                Ok(_) => match (got_setter, want_setter) {
                    (Some(g), Some(w)) => match s.subset(g, w) {
                        Ok(_) => Ok(()),
                        Err(subset_error) => Err(
                            AttrSubsetError::Contravariant {
                                want: w,
                                got: g,
                                got_is_property: true,
                                want_is_property: true,
                                subset_error,
                            },
                        ),
                    },
                    (None, Some(_)) => Err(AttrSubsetError::ReadOnly),
                    (_, None) => Ok(()),
                },
            },
            (ClassAttribute::Descriptor(g, _), ClassAttribute::Descriptor(w, _)) => covariant(
                s.subset(Type::ClassType(g.cls), Type::ClassType(w.cls)),
                Type::ClassType(g.cls),
                Type::ClassType(w.cls),
                false,
                false,
            ),
            _ => Err(AttrSubsetError::Descriptor),
        }
    }
}

fn to_covariant(
    answer: Result<(), SubsetError>,
    got: &Type,
    want: &Type,
    got_is_property: bool,
    want_is_property: bool,
) -> (r: Result<(), AttrSubsetError>)
    ensures
        r == covariant(answer, *got, *want, got_is_property, want_is_property),
{
    match answer {
        Ok(_) => Ok(()),
        Err(subset_error) => Err(
            AttrSubsetError::Covariant {
                got: got.dupe(),
                want: want.dupe(),
                got_is_property,
                want_is_property,
                subset_error,
            },
        ),
    }
}

impl<Ans: LookupAnswer> AnswersSolver<Ans> {
    /// Whether the attribute `got` can stand in for the attribute `want`, by the given subtype
    /// relation, and why not.
    pub fn is_class_attribute_subset<S: LookupAnswer>(
        &self,
        got: &ClassAttribute,
        want: &ClassAttribute,
        is_subset: &S,
    ) -> (r: Result<(), AttrSubsetError>)
        ensures
            r == attribute_subset(*is_subset, *got, *want),
    {
        match (got, want) {
            (_, ClassAttribute::NoAccess(_)) => {
                return Ok(());
            },
            (ClassAttribute::NoAccess(_), _) => {
                return Err(AttrSubsetError::NoAccess);
            },
            _ => {},
        }
        let got_is_classvar = is_class_level(got);
        let want_is_classvar = is_class_level(want);
        if got_is_classvar != want_is_classvar {
            return Err(AttrSubsetError::ClassVarMismatch { got_is_classvar });
        }
        match (got, want) {
            (ClassAttribute::Property(_, _, _), ClassAttribute::ReadOnly(_, _)) => Err(
                AttrSubsetError::Property,
            ),
            (ClassAttribute::Property(_, _, _), ClassAttribute::ReadWrite(_)) => Err(
                AttrSubsetError::Property,
            ),
            (ClassAttribute::ReadOnly(_, _), ClassAttribute::Property(_, Some(_), _)) => Err(
                AttrSubsetError::ReadOnly,
            ),
            (ClassAttribute::ReadOnly(_, _), ClassAttribute::ReadWrite(_)) => Err(
                AttrSubsetError::ReadOnly,
            ),
            (ClassAttribute::ReadWrite(g), ClassAttribute::ReadWrite(w)) => {
                if g.has_toplevel_func_metadata() && w.has_toplevel_func_metadata() {
                    to_covariant(is_subset.is_subset_eq_with_reason(g, w), g, w, false, false)
                } else {
                    match is_subset.is_subset_eq_with_reason(g, w) {
                        Err(subset_error) => Err(
                            AttrSubsetError::Invariant {
                                got: g.dupe(),
                                want: w.dupe(),
                                subset_error,
                            },
                        ),
                        Ok(_) => match is_subset.is_subset_eq_with_reason(w, g) {
                            Err(subset_error) => Err(
                                AttrSubsetError::Invariant {
                                    got: g.dupe(),
                                    want: w.dupe(),
                                    subset_error,
                                },
                            ),
                            Ok(_) => Ok(()),
                        },
                    }
                }
            },
            (ClassAttribute::ReadWrite(g), ClassAttribute::ReadOnly(w, _)) => to_covariant(
                is_subset.is_subset_eq_with_reason(g, w),
                g,
                w,
                false,
                false,
            ),
            (ClassAttribute::ReadOnly(g, _), ClassAttribute::ReadOnly(w, _)) => to_covariant(
                is_subset.is_subset_eq_with_reason(g, w),
                g,
                w,
                false,
                false,
            ),
            (ClassAttribute::ReadOnly(g, _), ClassAttribute::Property(w, None, _)) => to_covariant(
                is_subset.is_subset_eq_with_reason(&Type::callable_ellipsis(g.dupe()), w),
                g,
                w,
                false,
                true,
            ),
            (ClassAttribute::ReadWrite(g), ClassAttribute::Property(w, setter, _)) => {
                match is_subset.is_subset_eq_with_reason(&Type::callable_ellipsis(g.dupe()), w) {
                    Err(subset_error) => {
                        return to_covariant(Err(subset_error), g, w, false, true);
                    },
                    Ok(_) => {},
                }
                if let Some(want_setter) = setter {
                    let sigs = want_setter.callable_signatures();
                    if sigs.len() > 0 {
                        if let Some(value) = sigs[0].get_value_param() {
                            return match is_subset.is_subset_eq_with_reason(value, g) {
                                Ok(_) => Ok(()),
                                Err(subset_error) => Err(
                                    AttrSubsetError::Contravariant {
                                        want: want_setter.dupe(),
                                        got: g.dupe(),
                                        got_is_property: false,
                                        want_is_property: true,
                                        subset_error,
                                    },
                                ),
                            };
                        }
                    }
                }
                Ok(())
            },
            (
                ClassAttribute::Property(got_getter, got_setter, _),
                ClassAttribute::Property(want_getter, want_setter, _),
            ) => {
                match is_subset.is_subset_eq_with_reason(got_getter, want_getter) {
                    Err(subset_error) => {
                        return to_covariant(
                            Err(subset_error),
                            got_getter,
                            want_getter,
                            true,
                            true,
                        );
                    },
                    Ok(_) => {},
                }
                match (got_setter, want_setter) {
                    (Some(g), Some(w)) => match is_subset.is_subset_eq_with_reason(g, w) {
                        Ok(_) => Ok(()),
                        Err(subset_error) => Err(
                            AttrSubsetError::Contravariant {
                                want: w.dupe(),
                                got: g.dupe(),
                                got_is_property: true,
                                want_is_property: true,
                                subset_error,
                            },
                        ),
                    },
                    (None, Some(_)) => Err(AttrSubsetError::ReadOnly),
                    (_, None) => Ok(()),
                }
            },
            (ClassAttribute::Descriptor(g, _), ClassAttribute::Descriptor(w, _)) => {
                let got_ty = Type::ClassType(g.cls.dupe());
                let want_ty = Type::ClassType(w.cls.dupe());
                to_covariant(
                    is_subset.is_subset_eq_with_reason(&got_ty, &want_ty),
                    &got_ty,
                    &want_ty,
                    false,
                    false,
                )
            },
            _ => Err(AttrSubsetError::Descriptor),
        }
    }
}

/// An attribute can stand in for itself, wherever every type is a subtype of itself. The one
/// exception is an attribute that cannot be accessed, which can stand in for nothing but is
/// asked for nothing either.
pub proof fn law_attribute_subset_reflexive<S: LookupAnswer>(s: S, attr: ClassAttribute)
    requires
        forall|t: Type| (#[trigger] s.subset(t, t)) is Ok,
    ensures
        attribute_subset(s, attr, attr) is Ok,
{
}

/// An attribute that cannot be written never stands in for one that can: for a plain attribute
/// that is read and written, or for a property with a setter.
pub proof fn law_read_only_never_replaces_writable<S: LookupAnswer>(
    s: S,
    got: ClassAttribute,
    want: ClassAttribute,
)
    requires
        got.not_writable(),
        want is ReadWrite || (want is Property && want->Property_1 is Some),
    ensures
        attribute_subset(s, got, want) is Err,
{
}

/// Whatever can stand in for an attribute can also stand in for it when only reading is asked
/// for, unless the two differ in belonging to the class.
pub proof fn law_reading_asks_less<S: LookupAnswer>(
    s: S,
    got: ClassAttribute,
    want: ClassAttribute,
    reason: ReadOnlyReason,
)
    requires
        attribute_subset(s, got, want) is Ok,
        !(reason is ClassVar) && !(reason is ClassObjectInitializedOnBody),
    ensures
        attribute_subset(s, got, want.without_writes(reason)) is Ok,
{
}

} // verus!
