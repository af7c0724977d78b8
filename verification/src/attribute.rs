use std::sync::Arc;

use vstd::prelude::*;

use crate::list::List;
use crate::report::TextRange;
use crate::types::{Class, ClassType, Quantified, TArg, Type};

verus! {

/// Why an attribute cannot be written.
#[derive(Clone, Copy, Debug, PartialEq, Eq, Structural)]
pub enum ReadOnlyReason {
    /// Declared `Final`; the flag says whether the declaration gives the value.
    Final(bool),
    ReadOnlyQualifier,
    NamedTuple,
    FrozenDataclass,
    PydanticFrozen,
    ClassVar,
    ClassObjectInitializedOnBody,
}

/// Why an attribute that exists cannot be used in some way.
pub enum NoAccessReason {
    /// An instance attribute is used through the class.
    ClassUseOfInstanceAttribute(Class),
    /// The type of a class attribute depends on the type variables of the class.
    ClassAttributeIsGeneric(Class),
    /// A property without a setter is set.
    SettingReadOnlyProperty(Class),
    /// A descriptor without a setter is set.
    SettingReadOnlyDescriptor(Class),
    /// A method without an implementation is called through `super`.
    SuperMethodNeedsImplementation(Class),
}

impl NoAccessReason {
    pub fn dupe(&self) -> (r: NoAccessReason)
        ensures
            r == *self,
    {
        match self {
            NoAccessReason::ClassUseOfInstanceAttribute(c) =>
                NoAccessReason::ClassUseOfInstanceAttribute(c.dupe()),
            NoAccessReason::ClassAttributeIsGeneric(c) => NoAccessReason::ClassAttributeIsGeneric(
                c.dupe(),
            ),
            NoAccessReason::SettingReadOnlyProperty(c) => NoAccessReason::SettingReadOnlyProperty(
                c.dupe(),
            ),
            NoAccessReason::SettingReadOnlyDescriptor(c) =>
                NoAccessReason::SettingReadOnlyDescriptor(c.dupe()),
            NoAccessReason::SuperMethodNeedsImplementation(c) =>
                NoAccessReason::SuperMethodNeedsImplementation(c.dupe()),
        }
    }
}

/// What an attribute is looked up on when it is looked up on a class object.
pub enum ClassBase {
    /// The class by its name.
    ClassDef(ClassType),
    /// The class of an instance.
    ClassType(ClassType),
    /// The class of a value of a type variable, with the upper bound of the variable.
    Quantified(Quantified, ClassType),
    /// The class of `self`.
    SelfType(ClassType),
    /// The class of a protocol, with the type that stands for `Self`.
    Protocol(ClassType, Type),
}

impl ClassBase {
    pub fn dupe(&self) -> (r: ClassBase)
        ensures
            r == *self,
    {
        match self {
            ClassBase::ClassDef(c) => ClassBase::ClassDef(c.dupe()),
            ClassBase::ClassType(c) => ClassBase::ClassType(c.dupe()),
            ClassBase::Quantified(q, c) => ClassBase::Quantified(q.dupe(), c.dupe()),
            ClassBase::SelfType(c) => ClassBase::SelfType(c.dupe()),
            ClassBase::Protocol(c, t) => ClassBase::Protocol(c.dupe(), t.dupe()),
        }
    }

    /// The class with its arguments.
    pub open spec fn applied(self) -> ClassType {
        match self {
            ClassBase::ClassDef(c) => c,
            ClassBase::ClassType(c) => c,
            ClassBase::Quantified(_, c) => c,
            ClassBase::SelfType(c) => c,
            ClassBase::Protocol(c, _) => c,
        }
    }

    /// The class with its arguments.
    pub fn class_type(&self) -> (r: &ClassType)
        ensures
            *r == self.applied(),
    {
        match self {
            ClassBase::ClassDef(c) => c,
            ClassBase::ClassType(c) => c,
            ClassBase::Quantified(_, c) => c,
            ClassBase::SelfType(c) => c,
            ClassBase::Protocol(c, _) => c,
        }
    }

    /// The class.
    pub fn class_object(&self) -> (r: &Class)
        ensures
            *r == self.applied().class,
    {
        &self.class_type().class
    }

    /// The type arguments; a class named by itself has none.
    pub open spec fn given_targs(self) -> Option<Arc<List<TArg>>> {
        match self {
            ClassBase::ClassDef(_) => None,
            _ => Some(self.applied().targs),
        }
    }

    /// The type arguments; a class named by itself has none.
    pub fn targs(&self) -> (r: Option<Arc<List<TArg>>>)
        ensures
            r == self.given_targs(),
    {
        match self {
            ClassBase::ClassDef(_) => None,
            ClassBase::ClassType(c) => Some(c.targs.clone()),
            ClassBase::Quantified(_, c) => Some(c.targs.clone()),
            ClassBase::SelfType(c) => Some(c.targs.clone()),
            ClassBase::Protocol(c, _) => Some(c.targs.clone()),
        }
    }

    /// The type of an instance.
    pub open spec fn self_type(self) -> Type {
        match self {
            ClassBase::ClassDef(c) => Type::ClassType(c),
            ClassBase::ClassType(c) => Type::ClassType(c),
            ClassBase::Quantified(q, _) => Type::Quantified(Arc::new(q)),
            ClassBase::SelfType(c) => Type::SelfType(c),
            ClassBase::Protocol(_, t) => t,
        }
    }

    /// The type of an instance.
    pub fn to_self_type(&self) -> (r: Type)
        ensures
            r == self.self_type(),
    {
        match self {
            ClassBase::ClassDef(c) => Type::ClassType(c.dupe()),
            ClassBase::ClassType(c) => Type::ClassType(c.dupe()),
            ClassBase::Quantified(q, _) => Type::Quantified(Arc::new(q.dupe())),
            ClassBase::SelfType(c) => Type::SelfType(c.dupe()),
            ClassBase::Protocol(_, t) => t.dupe(),
        }
    }

    /// The type of the class object.
    pub open spec fn object_type(self) -> Type {
        match self {
            ClassBase::ClassDef(c) => Type::ClassDef(c.class),
            _ => Type::TypeOf(Arc::new(self.self_type())),
        }
    }

    /// The type of the class object.
    pub fn to_type(&self) -> (r: Type)
        ensures
            r == self.object_type(),
    {
        match self {
            ClassBase::ClassDef(c) => Type::ClassDef(c.class.dupe()),
            _ => Type::TypeOf(Arc::new(self.to_self_type())),
        }
    }
}

/// A value that takes part in attribute access by methods of its own.
pub struct Descriptor {
    /// Where the attribute is bound to the descriptor.
    pub range: TextRange,
    /// The class of the descriptor.
    pub cls: ClassType,
    /// Whether the class has `__get__`.
    pub getter: bool,
    /// Whether the class has `__set__`.
    pub setter: bool,
}

impl Descriptor {
    pub fn dupe(&self) -> (r: Descriptor)
        ensures
            r == *self,
    {
        Descriptor {
            range: self.range,
            cls: self.cls.dupe(),
            getter: self.getter,
            setter: self.setter,
        }
    }
}

/// What a descriptor is looked up on.
pub enum DescriptorBase {
    Instance(ClassType),
    /// An instance known as `Self`; the class is its bound.
    SelfInstance(ClassType),
    ClassDef(ClassBase),
}

impl DescriptorBase {
    pub fn dupe(&self) -> (r: DescriptorBase)
        ensures
            r == *self,
    {
        match self {
            DescriptorBase::Instance(c) => DescriptorBase::Instance(c.dupe()),
            DescriptorBase::SelfInstance(c) => DescriptorBase::SelfInstance(c.dupe()),
            DescriptorBase::ClassDef(c) => DescriptorBase::ClassDef(c.dupe()),
        }
    }
}

/// The result of looking up an attribute on an instance or a class.
pub enum ClassAttribute {
    /// Can be read and written at one type.
    ReadWrite(Type),
    /// Can be read.
    ReadOnly(Type, ReadOnlyReason),
    /// Exists, but not for this kind of access.
    NoAccess(NoAccessReason),
    /// Reading calls the getter; writing calls the setter, where there is one.
    Property(Type, Option<Type>, Class),
    /// Reading and writing call methods of the value's own class.
    Descriptor(Descriptor, DescriptorBase),
}

impl ClassAttribute {
    pub fn dupe(&self) -> (r: ClassAttribute)
        ensures
            r == *self,
    {
        match self {
            ClassAttribute::ReadWrite(t) => ClassAttribute::ReadWrite(t.dupe()),
            ClassAttribute::ReadOnly(t, reason) => ClassAttribute::ReadOnly(t.dupe(), *reason),
            ClassAttribute::NoAccess(reason) => ClassAttribute::NoAccess(reason.dupe()),
            ClassAttribute::Property(getter, setter, cls) => ClassAttribute::Property(
                getter.dupe(),
                match setter {
                    Some(t) => Some(t.dupe()),
                    None => None,
                },
                cls.dupe(),
            ),
            ClassAttribute::Descriptor(d, base) => ClassAttribute::Descriptor(
                d.dupe(),
                base.dupe(),
            ),
        }
    }

    pub fn read_write(ty: Type) -> (r: Self)
        ensures
            r == ClassAttribute::ReadWrite(ty),
    {
        ClassAttribute::ReadWrite(ty)
    }

    pub fn read_only(ty: Type, reason: ReadOnlyReason) -> (r: Self)
        ensures
            r == ClassAttribute::ReadOnly(ty, reason),
    {
        ClassAttribute::ReadOnly(ty, reason)
    }

    pub fn no_access(reason: NoAccessReason) -> (r: Self)
        ensures
            r == ClassAttribute::NoAccess(reason),
    {
        ClassAttribute::NoAccess(reason)
    }

    pub fn property(getter: Type, setter: Option<Type>, cls: Class) -> (r: Self)
        ensures
            r == ClassAttribute::Property(getter, setter, cls),
    {
        ClassAttribute::Property(getter, setter, cls)
    }

    pub fn descriptor(descriptor: Descriptor, base: DescriptorBase) -> (r: Self)
        ensures
            r == ClassAttribute::Descriptor(descriptor, base),
    {
        ClassAttribute::Descriptor(descriptor, base)
    }

    /// The attribute with every way of writing it taken away.
    pub open spec fn without_writes(self, reason: ReadOnlyReason) -> ClassAttribute {
        match self {
            ClassAttribute::ReadWrite(ty) => ClassAttribute::ReadOnly(ty, reason),
            ClassAttribute::Property(getter, _, cls) => ClassAttribute::Property(getter, None, cls),
            ClassAttribute::Descriptor(d, base) => ClassAttribute::Descriptor(
                Descriptor { range: d.range, cls: d.cls, getter: d.getter, setter: false },
                base,
            ),
            ClassAttribute::NoAccess(_) => self,
            ClassAttribute::ReadOnly(_, _) => self,
        }
    }

    /// Takes away every way of writing the attribute. One that could not be written before stays
    /// as it is, with the reason that it had.
    pub fn read_only_equivalent(self, reason: ReadOnlyReason) -> (r: Self)
        ensures
            r == self.without_writes(reason),
    {
        match self {
            ClassAttribute::ReadWrite(ty) => ClassAttribute::ReadOnly(ty, reason),
            ClassAttribute::Property(getter, _, cls) => ClassAttribute::Property(getter, None, cls),
            ClassAttribute::Descriptor(d, base) => ClassAttribute::Descriptor(
                Descriptor { range: d.range, cls: d.cls, getter: d.getter, setter: false },
                base,
            ),
            ClassAttribute::NoAccess(reason) => ClassAttribute::NoAccess(reason),
            ClassAttribute::ReadOnly(ty, reason) => ClassAttribute::ReadOnly(ty, reason),
        }
    }

    /// The type of the attribute, if it is a plain one.
    pub open spec fn plain_type(self) -> Option<Type> {
        match self {
            ClassAttribute::ReadWrite(ty) => Some(ty),
            ClassAttribute::ReadOnly(ty, _) => Some(ty),
            _ => None,
        }
    }

    /// The type of the attribute taken as a method: methods are plain attributes.
    pub fn as_instance_method(self) -> (r: Option<Type>)
        ensures
            r == self.plain_type(),
    {
        match self {
            ClassAttribute::ReadWrite(ty) => Some(ty),
            ClassAttribute::ReadOnly(ty, _) => Some(ty),
            ClassAttribute::NoAccess(_) => None,
            ClassAttribute::Property(_, _, _) => None,
            ClassAttribute::Descriptor(_, _) => None,
        }
    }

    pub open spec fn not_writable(self) -> bool {
        match self {
            ClassAttribute::ReadOnly(_, _) => true,
            ClassAttribute::Property(_, setter, _) => setter is None,
            ClassAttribute::Descriptor(d, _) => !d.setter,
            _ => false,
        }
    }

    /// Whether the attribute can be read but not written.
    pub fn is_read_only(&self) -> (r: bool)
        ensures
            r == self.not_writable(),
    {
        match self {
            ClassAttribute::ReadOnly(_, _) => true,
            ClassAttribute::Property(_, None, _) => true,
            ClassAttribute::Descriptor(d, _) => !d.setter,
            _ => false,
        }
    }

    pub open spec fn data_descriptor(self) -> bool {
        match self {
            ClassAttribute::Property(_, setter, _) => setter is Some,
            ClassAttribute::Descriptor(d, _) => d.getter && d.setter,
            _ => false,
        }
    }

    /// Whether reading and writing both call methods.
    pub fn is_data_descriptor(&self) -> (r: bool)
        ensures
            r == self.data_descriptor(),
    {
        match self {
            ClassAttribute::Property(_, Some(_), _) => true,
            ClassAttribute::Descriptor(d, _) => d.getter && d.setter,
            _ => false,
        }
    }
}

/// An attribute whose writes are taken away is read-only, unless it could not be accessed at all.
pub proof fn law_read_only_equivalent_is_read_only(attr: ClassAttribute, reason: ReadOnlyReason)
    ensures
        attr.without_writes(reason).not_writable() || attr is NoAccess,
        attr is NoAccess ==> attr.without_writes(reason) == attr,
{
}

/// Taking the writes away from an attribute that is read-only already changes nothing; in
/// particular, doing it twice is doing it once, and the first reason stays.
pub proof fn law_read_only_equivalent_idempotent(
    attr: ClassAttribute,
    first: ReadOnlyReason,
    second: ReadOnlyReason,
)
    ensures
        attr.not_writable() ==> attr.without_writes(first) == attr,
        attr.without_writes(first).without_writes(second) == attr.without_writes(first),
{
}

/// Nothing is both read-only and a data descriptor, and taking the writes away leaves no data
/// descriptor.
pub proof fn law_data_descriptors_are_writable(attr: ClassAttribute, reason: ReadOnlyReason)
    ensures
        !(attr.not_writable() && attr.data_descriptor()),
        !attr.without_writes(reason).data_descriptor(),
{
}

} // verus!
