use std::sync::Arc;

use vstd::prelude::*;

use crate::annotation::{annotated_as, is_annotated_as, Annotation, Qualifier};
use crate::attribute::{ClassAttribute, ClassBase, DescriptorBase, ReadOnlyReason};
use crate::class_field::{ClassField, ClassFieldInitialization};
use crate::list::List;
use crate::names::{dunder_name, is_dunder};
use crate::subst::Subst;
use crate::types::{
    union_of, unions, BoundMethod, BoundMethodType, Callable, Class, ClassType, Forall, Forallable,
    FuncFlags, Function, GenericFunction, Overload, Quantified, TArg, TensorType, Type,
};

verus! {

/// How an instance is known.
pub enum InstanceKind {
    ClassType,
    TypedDict,
    TypeVar(Quantified),
    SelfType,
    Protocol(Type),
    Metaclass(ClassBase),
    LiteralString,
    /// `Self` is the tensor with its shape.
    Tensor(TensorType),
}

/// A specialized instance of a class.
pub struct Instance {
    pub kind: InstanceKind,
    pub class: Class,
    pub targs: Arc<List<TArg>>,
}

impl Instance {
    /// The class with its arguments.
    pub open spec fn applied(self) -> ClassType {
        ClassType { class: self.class, targs: self.targs }
    }

    fn class_type(&self) -> (r: ClassType)
        ensures
            r == self.applied(),
    {
        ClassType { class: self.class.dupe(), targs: self.targs.clone() }
    }

    pub fn literal_string(str_class: &ClassType) -> (r: Self)
        ensures
            r.kind is LiteralString,
            r.applied() == *str_class,
    {
        Instance {
            kind: InstanceKind::LiteralString,
            class: str_class.class.dupe(),
            targs: str_class.targs.clone(),
        }
    }

    pub fn of_class(cls: &ClassType) -> (r: Self)
        ensures
            r.kind is ClassType,
            r.applied() == *cls,
    {
        Instance {
            kind: InstanceKind::ClassType,
            class: cls.class.dupe(),
            targs: cls.targs.clone(),
        }
    }

    pub fn of_typed_dict(td: &ClassType) -> (r: Self)
        ensures
            r.kind is TypedDict,
            r.applied() == *td,
    {
        Instance { kind: InstanceKind::TypedDict, class: td.class.dupe(), targs: td.targs.clone() }
    }

    pub fn of_type_var(q: Quantified, bound: &ClassType) -> (r: Self)
        ensures
            r.kind == InstanceKind::TypeVar(q),
            r.applied() == *bound,
    {
        Instance {
            kind: InstanceKind::TypeVar(q),
            class: bound.class.dupe(),
            targs: bound.targs.clone(),
        }
    }

    pub fn of_self_type(cls: &ClassType) -> (r: Self)
        ensures
            r.kind is SelfType,
            r.applied() == *cls,
    {
        Instance { kind: InstanceKind::SelfType, class: cls.class.dupe(), targs: cls.targs.clone() }
    }

    pub fn of_protocol(cls: &ClassType, self_type: Type) -> (r: Self)
        ensures
            r.kind == InstanceKind::Protocol(self_type),
            r.applied() == *cls,
    {
        Instance {
            kind: InstanceKind::Protocol(self_type),
            class: cls.class.dupe(),
            targs: cls.targs.clone(),
        }
    }

    pub fn of_metaclass(cls: ClassBase, metaclass: &ClassType) -> (r: Self)
        ensures
            r.kind == InstanceKind::Metaclass(cls),
            r.applied() == *metaclass,
    {
        Instance {
            kind: InstanceKind::Metaclass(cls),
            class: metaclass.class.dupe(),
            targs: metaclass.targs.clone(),
        }
    }

    pub fn of_tensor(tensor: &TensorType) -> (r: Self)
        ensures
            r.kind == InstanceKind::Tensor(*tensor),
            r.applied() == tensor.base_class,
    {
        Instance {
            kind: InstanceKind::Tensor(
                TensorType { base_class: tensor.base_class.dupe(), shape: tensor.shape },
            ),
            class: tensor.base_class.class.dupe(),
            targs: tensor.base_class.targs.clone(),
        }
    }

    /// The type of the instance.
    pub open spec fn own_type(self) -> Type {
        match self.kind {
            InstanceKind::ClassType => Type::ClassType(self.applied()),
            InstanceKind::TypedDict => Type::TypedDict(self.applied()),
            InstanceKind::TypeVar(q) => Type::Quantified(Arc::new(q)),
            InstanceKind::SelfType => Type::SelfType(self.applied()),
            InstanceKind::Protocol(self_type) => self_type,
            InstanceKind::Metaclass(cls) => cls.object_type(),
            InstanceKind::LiteralString => Type::LiteralString,
            InstanceKind::Tensor(tensor) => Type::Tensor(Arc::new(tensor)),
        }
    }

    /// The type of the instance.
    pub fn to_type(&self) -> (r: Type)
        ensures
            r == self.own_type(),
    {
        match &self.kind {
            InstanceKind::ClassType => Type::ClassType(self.class_type()),
            InstanceKind::TypedDict => Type::TypedDict(self.class_type()),
            InstanceKind::TypeVar(q) => Type::Quantified(Arc::new(q.dupe())),
            InstanceKind::SelfType => Type::SelfType(self.class_type()),
            InstanceKind::Protocol(self_type) => self_type.dupe(),
            InstanceKind::Metaclass(cls) => cls.to_type(),
            InstanceKind::LiteralString => Type::LiteralString,
            InstanceKind::Tensor(tensor) => Type::Tensor(
                Arc::new(TensorType { base_class: tensor.base_class.dupe(), shape: tensor.shape }),
            ),
        }
    }

    /// The class object that stands for the instance where a class method is looked up.
    pub open spec fn class_base(self) -> ClassBase {
        match self.kind {
            InstanceKind::SelfType => ClassBase::SelfType(self.applied()),
            InstanceKind::Protocol(self_type) => ClassBase::Protocol(self.applied(), self_type),
            InstanceKind::TypeVar(q) => ClassBase::Quantified(q, self.applied()),
            _ => ClassBase::ClassType(self.applied()),
        }
    }

    /// The class object that stands for the instance where a class method is looked up.
    pub fn to_class_base(&self) -> (r: ClassBase)
        ensures
            r == self.class_base(),
    {
        match &self.kind {
            InstanceKind::SelfType => ClassBase::SelfType(self.class_type()),
            InstanceKind::Protocol(self_type) => ClassBase::Protocol(
                self.class_type(),
                self_type.dupe(),
            ),
            InstanceKind::TypeVar(q) => ClassBase::Quantified(q.dupe(), self.class_type()),
            _ => ClassBase::ClassType(self.class_type()),
        }
    }

    /// What a descriptor is looked up on. A typed dictionary holds no descriptors.
    pub open spec fn descriptor_base(self) -> Option<DescriptorBase> {
        match self.kind {
            InstanceKind::TypedDict => None,
            InstanceKind::SelfType => Some(DescriptorBase::SelfInstance(self.applied())),
            _ => Some(DescriptorBase::Instance(self.applied())),
        }
    }

    /// What a descriptor is looked up on. A typed dictionary holds no descriptors.
    pub fn to_descriptor_base(&self) -> (r: Option<DescriptorBase>)
        ensures
            r == self.descriptor_base(),
    {
        match &self.kind {
            InstanceKind::TypedDict => None,
            InstanceKind::SelfType => Some(DescriptorBase::SelfInstance(self.class_type())),
            _ => Some(DescriptorBase::Instance(self.class_type())),
        }
    }
}

/// Which functions are bound.
#[derive(Clone, Copy, Debug, PartialEq, Eq, Structural)]
pub enum Binding {
    /// Functions that take the instance.
    ToInstance,
    /// Functions that take the class.
    ToClass,
}

impl Binding {
    /// Whether a function is bound. One from a callback protocol never is: its first parameter
    /// is gone already.
    pub open spec fn binds(self, flags: FuncFlags) -> bool {
        !flags.is_callback_protocol && match self {
            Binding::ToInstance => !flags.is_staticmethod && !flags.is_classmethod,
            Binding::ToClass => flags.is_classmethod,
        }
    }

    fn should_bind(&self, flags: &FuncFlags) -> (r: bool)
        ensures
            r == self.binds(*flags),
    {
        !flags.is_callback_protocol && match self {
            Binding::ToInstance => !flags.is_staticmethod && !flags.is_classmethod,
            Binding::ToClass => flags.is_classmethod,
        }
    }
}

/// The method that an attribute becomes when it is bound to `obj`, or else the attribute itself.
/// A union is bound as a whole: every member must be a function that is bound.
pub open spec fn bound(how: Binding, obj: Type, attr: Type) -> Result<Type, Type>
    decreases attr,
{
    match attr {
        Type::Forall(f) => match f.body {
            Forallable::Function(func) => if how.binds(func.metadata.flags) {
                Ok(
                    Type::BoundMethod(
                        Arc::new(
                            BoundMethod {
                                obj,
                                func: BoundMethodType::Forall(
                                    GenericFunction { tparams: f.tparams, body: func },
                                ),
                            },
                        ),
                    ),
                )
            } else {
                Err(attr)
            },
            Forallable::Other(_) => Err(attr),
        },
        Type::Function(func) => if how.binds(func.metadata.flags) {
            Ok(
                Type::BoundMethod(
                    Arc::new(BoundMethod { obj, func: BoundMethodType::Function(func) }),
                ),
            )
        } else {
            Err(attr)
        },
        Type::Overload(overload) => if how.binds(overload.metadata.flags) {
            Ok(
                Type::BoundMethod(
                    Arc::new(BoundMethod { obj, func: BoundMethodType::Overload(overload) }),
                ),
            )
        } else {
            Err(attr)
        },
        Type::Union(ts) => match bound_members(how, obj, *ts) {
            Some(members) => Ok(union_of(members)),
            None => Err(attr),
        },
        _ => Err(attr),
    }
}

/// The methods that the members of a union become, if all of them are bound.
pub open spec fn bound_members(how: Binding, obj: Type, ts: List<Type>) -> Option<Seq<Type>>
    decreases ts,
{
    match ts {
        List::Nil => Some(Seq::empty()),
        List::Cons(t, rest) => match (bound(how, obj, t), bound_members(how, obj, *rest)) {
            (Ok(b), Some(bs)) => Some(seq![b] + bs),
            _ => None,
        },
    }
}

/// Binds an attribute, or gives it back.
fn make_bound_method_helper(how: Binding, obj: &Type, attr: &Type) -> (r: Result<Type, Type>)
    ensures
        r == bound(how, *obj, *attr),
    decreases attr,
{
    match attr {
        Type::Forall(f) => match &f.body {
            Forallable::Function(func) => if how.should_bind(&func.metadata.flags) {
                Ok(
                    Type::BoundMethod(
                        Arc::new(
                            BoundMethod {
                                obj: obj.dupe(),
                                func: BoundMethodType::Forall(
                                    GenericFunction {
                                        tparams: f.tparams.clone(),
                                        body: func.dupe(),
                                    },
                                ),
                            },
                        ),
                    ),
                )
            } else {
                Err(attr.dupe())
            },
            Forallable::Other(_) => Err(attr.dupe()),
        },
        Type::Function(func) => if how.should_bind(&func.metadata.flags) {
            Ok(
                Type::BoundMethod(
                    Arc::new(
                        BoundMethod {
                            obj: obj.dupe(),
                            func: BoundMethodType::Function(func.dupe()),
                        },
                    ),
                ),
            )
        } else {
            Err(attr.dupe())
        },
        Type::Overload(overload) => if how.should_bind(&overload.metadata.flags) {
            Ok(
                Type::BoundMethod(
                    Arc::new(
                        BoundMethod {
                            obj: obj.dupe(),
                            func: BoundMethodType::Overload(overload.dupe()),
                        },
                    ),
                ),
            )
        } else {
            Err(attr.dupe())
        },
        Type::Union(ts) => {
            let mut members: Vec<Type> = Vec::new();
            if bind_members(how, obj, &**ts, &mut members) {
                assert(members@ =~= bound_members(how, *obj, **ts)->0);
                Ok(unions(members))
            } else {
                Err(attr.dupe())
            }
        },
        _ => Err(attr.dupe()),
    }
}

fn bind_members(how: Binding, obj: &Type, ts: &List<Type>, out: &mut Vec<Type>) -> (r: bool)
    ensures
        r == bound_members(how, *obj, *ts) is Some,
        r ==> final(out)@ == old(out)@ + bound_members(how, *obj, *ts)->0,
    decreases ts,
{
    match ts {
        List::Nil => {
            assert(out@ =~= old(out)@ + Seq::<Type>::empty());
            true
        },
        List::Cons(t, rest) => match make_bound_method_helper(how, obj, t) {
            Ok(b) => {
                out.push(b);
                let r = bind_members(how, obj, &**rest, out);
                assert(r ==> out@ =~= old(out)@ + bound_members(how, *obj, *ts)->0);
                r
            },
            Err(_) => false,
        },
    }
}

/// The attribute after binding was tried.
pub open spec fn bound_or_same(how: Binding, obj: Type, attr: Type) -> Type {
    match bound(how, obj, attr) {
        Ok(t) => t,
        Err(t) => t,
    }
}

/// Binds a function to the class that it takes.
pub fn make_bound_classmethod(cls: &ClassBase, attr: &Type) -> (r: Result<Type, Type>)
    ensures
        r == bound(Binding::ToClass, cls.object_type(), *attr),
{
    make_bound_method_helper(Binding::ToClass, &cls.to_type(), attr)
}

/// Binds a function to the instance that it takes.
pub fn make_bound_method(obj: &Type, attr: &Type) -> (r: Result<Type, Type>)
    ensures
        r == bound(Binding::ToInstance, *obj, *attr),
{
    make_bound_method_helper(Binding::ToInstance, obj, attr)
}

fn inner(r: Result<Type, Type>) -> (t: Type)
    ensures
        t == match r {
            Ok(x) => x,
            Err(x) => x,
        },
{
    match r {
        Ok(t) => t,
        Err(t) => t,
    }
}

/// The attribute of a class object: class methods are bound to it, and it is read-only where
/// there is a reason.
pub open spec fn class_bound(
    cls: ClassBase,
    attr: Type,
    reason: Option<ReadOnlyReason>,
) -> ClassAttribute {
    let ty = bound_or_same(Binding::ToClass, cls.object_type(), attr);
    match reason {
        Some(why) => ClassAttribute::ReadOnly(ty, why),
        None => ClassAttribute::ReadWrite(ty),
    }
}

/// The attribute of a class object.
pub fn bind_class_attribute(
    cls: &ClassBase,
    attr: &Type,
    read_only_reason: Option<ReadOnlyReason>,
) -> (r: ClassAttribute)
    ensures
        r == class_bound(*cls, *attr, read_only_reason),
{
    let ty = inner(make_bound_classmethod(cls, attr));
    if let Some(reason) = read_only_reason {
        ClassAttribute::read_only(ty, reason)
    } else {
        ClassAttribute::read_write(ty)
    }
}

impl ClassField {
    /// The field as seen on an instance: `Self` is the instance, and the type variables of the
    /// class are its arguments.
    pub open spec fn on_instance(self, instance: Instance) -> ClassField {
        self.substituted(Subst::SelfType(instance.own_type())).substituted(
            Subst::Args(instance.targs),
        )
    }

    /// The field as seen on an instance.
    pub fn instantiate_for(&self, instance: &Instance) -> (r: ClassField)
        ensures
            r == self.on_instance(*instance),
    {
        self.instantiate_helper(&Subst::SelfType(instance.to_type())).instantiate_helper(
            &Subst::Args(instance.targs.clone()),
        )
    }

    /// The type of the field as a special method, before binding. Fields without a value in the
    /// class body are none.
    pub open spec fn raw_special_method(self, instance: Instance) -> Option<Type> {
        if self.initialized() is ClassBody {
            Some(self.on_instance(instance).field_type())
        } else {
            None
        }
    }

    /// The type of the field as a special method, before binding.
    pub fn as_raw_special_method_type(&self, instance: &Instance) -> (r: Option<Type>)
        ensures
            r == self.raw_special_method(*instance),
    {
        match self.initialization() {
            ClassFieldInitialization::ClassBody(_) => Some(self.instantiate_for(instance).ty()),
            ClassFieldInitialization::Method => None,
            ClassFieldInitialization::ClassMethod => None,
            ClassFieldInitialization::Uninitialized => None,
            ClassFieldInitialization::Magic => None,
        }
    }

    /// The type of the field as a special method, bound to the instance.
    pub open spec fn special_method(self, instance: Instance) -> Option<Type> {
        match self.raw_special_method(instance) {
            Some(ty) => match bound(Binding::ToInstance, instance.own_type(), ty) {
                Ok(t) => Some(t),
                Err(_) => None,
            },
            None => None,
        }
    }

    /// The type of the field as a special method, bound to the instance.
    pub fn as_special_method_type(&self, instance: &Instance) -> (r: Option<Type>)
        ensures
            r == self.special_method(*instance),
    {
        match self.as_raw_special_method_type(instance) {
            Some(ty) => match make_bound_method(&instance.to_type(), &ty) {
                Ok(t) => Some(t),
                Err(_) => None,
            },
            None => None,
        }
    }
}

/// Whether a type is an abstract method, or a union with one among its members.
pub open spec fn some_abstract(ty: Type) -> bool {
    match ty {
        Type::Union(ts) => exists|i: int|
            0 <= i < ts@.len() && (#[trigger] ts@[i]).abstract_method(),
        _ => ty.abstract_method(),
    }
}

fn list_has_abstract(ts: &List<Type>) -> (r: bool)
    ensures
        r == exists|i: int| 0 <= i < ts@.len() && (#[trigger] ts@[i]).abstract_method(),
    decreases ts,
{
    match ts {
        List::Nil => false,
        List::Cons(t, rest) => {
            if t.is_abstract_method() {
                assert(ts@[0].abstract_method());
                true
            } else {
                let found = list_has_abstract(&**rest);
                assert(forall|i: int| 0 <= i < rest@.len() ==> rest@[i] == ts@[i + 1]);
                assert(forall|i: int| 0 < i < ts@.len() ==> ts@[i] == #[trigger] rest@[i - 1]);
                found
            }
        },
    }
}

/// Whether a type is an abstract method, or a union with one among its members.
pub fn has_any_abstract(ty: &Type) -> (r: bool)
    ensures
        r == some_abstract(*ty),
{
    match ty {
        Type::Union(ts) => list_has_abstract(&**ts),
        _ => ty.is_abstract_method(),
    }
}

/// Whether a type that is no union gets method binding where it is the value of a field in the
/// class body: it is a function, or a callable that has a special name or is declared as a class
/// variable.
pub open spec fn bindable(ty: Type, name: Seq<char>, annotation: Option<Annotation>) -> bool {
    ty.func_metadata() is Some || (ty is Callable && (dunder_name(name) || annotated_as(
        annotation,
        Qualifier::ClassVar,
    )))
}

fn is_bindable(ty: &Type, name: &str, annotation: &Option<Annotation>) -> (r: bool)
    ensures
        r == bindable(*ty, name@, *annotation),
{
    if ty.has_toplevel_func_metadata() {
        return true;
    }
    match ty {
        Type::Callable(_) => is_dunder(name) || is_annotated_as(annotation, Qualifier::ClassVar),
        _ => false,
    }
}

fn list_has_bindable(ts: &List<Type>, name: &str, annotation: &Option<Annotation>) -> (r: bool)
    ensures
        r == exists|i: int|
            0 <= i < ts@.len() && bindable(#[trigger] ts@[i], name@, *annotation),
    decreases ts,
{
    match ts {
        List::Nil => false,
        List::Cons(t, rest) => {
            if is_bindable(t, name, annotation) {
                assert(bindable(ts@[0], name@, *annotation));
                true
            } else {
                let found = list_has_bindable(&**rest, name, annotation);
                assert(forall|i: int| 0 <= i < rest@.len() ==> rest@[i] == ts@[i + 1]);
                assert(forall|i: int| 0 < i < ts@.len() ==> ts@[i] == #[trigger] rest@[i - 1]);
                found
            }
        },
    }
}

/// Whether a field gets method binding: it has a value in the class body, and its type, or a member
/// of it where it is a union, is a function, or a callable that has a special name or is declared
/// as a class variable.
pub open spec fn is_method_field(
    ty: Type,
    initialization: ClassFieldInitialization,
    name: Seq<char>,
    annotation: Option<Annotation>,
) -> bool {
    initialization is ClassBody && match ty {
        Type::Union(ts) => exists|i: int|
            0 <= i < ts@.len() && bindable(#[trigger] ts@[i], name, annotation),
        _ => bindable(ty, name, annotation),
    }
}

/// Whether a field gets method binding.
pub fn is_method(
    ty: &Type,
    initialization: &ClassFieldInitialization,
    name: &str,
    annotation: &Option<Annotation>,
) -> (r: bool)
    ensures
        r == is_method_field(*ty, *initialization, name@, *annotation),
{
    match initialization {
        ClassFieldInitialization::ClassBody(_) => match ty {
            Type::Union(ts) => list_has_bindable(&**ts, name, annotation),
            _ => is_bindable(ty, name, annotation),
        },
        _ => false,
    }
}

} // verus!
