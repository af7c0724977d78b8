use std::sync::Arc;

use vstd::prelude::*;

use crate::class_field::ClassField;
use crate::list::List;
use crate::metadata::{ClassMetadata, PydanticModelKind};
use crate::solver::{AnswersSolver, LookupAnswer};
use crate::types::{
    AnyStyle, Callable, Class, ClassType, FuncFlags, FuncMetadata, Function, Param, Params,
    Required, TArg, Type,
};

verus! {

/// The last type argument of a class.
pub open spec fn last_targ(targs: List<TArg>) -> Option<Type> {
    if targs@.len() == 0 {
        None
    } else {
        Some(targs@.last().value)
    }
}

fn get_last_targ(targs: &List<TArg>) -> (r: Option<Type>)
    ensures
        r == last_targ(*targs),
    decreases targs,
{
    match targs {
        List::Nil => None,
        List::Cons(a, rest) => match &**rest {
            List::Nil => {
                assert(rest@.len() == 0);
                Some(a.value.dupe())
            },
            List::Cons(_, _) => {
                assert(rest@.len() > 0);
                get_last_targ(&**rest)
            },
        },
    }
}

/// Whether a class is `RootModel` itself.
pub open spec fn is_root_model(cls: Class) -> bool {
    cls.is_qname("pydantic.root_model"@, "RootModel"@)
}

/// A method with the given parameters behind `self`.
pub open spec fn method_type(name: String, params: Seq<Param>, ret: Type) -> Type {
    Type::Function(
        Function {
            signature: Arc::new(Callable { params: Params::List(List::of(params)), ret }),
            metadata: Arc::new(
                FuncMetadata { name, flags: FuncFlags::plain(), property: None },
            ),
        },
    )
}

/// A method with the given parameters.
pub fn make_method(name: &String, params: Vec<Param>, ret: Type) -> (r: Type)
    ensures
        r == method_type(*name, params@, ret),
{
    Type::Function(
        Function {
            signature: Arc::new(Callable { params: Params::List(List::from_vec(params)), ret }),
            metadata: Arc::new(FuncMetadata::def(name)),
        },
    )
}

impl<Ans> AnswersSolver<Ans> {
    /// The type of an instance of a class, which may be a typed dictionary.
    pub open spec fn instance_of(self, cls: Class) -> Type {
        if self.info(cls).metadata.typed_dict is Some {
            Type::TypedDict(self.info(cls).instance_type)
        } else {
            Type::ClassType(self.info(cls).instance_type)
        }
    }

    /// The type of an instance of a class, which may be a typed dictionary.
    pub fn instantiate(&self, cls: &Class) -> (r: Type)
        ensures
            r == self.instance_of(*cls),
    {
        let info = self.get_info(cls);
        if info.metadata.typed_dict.is_some() {
            Type::TypedDict(info.instance_type.dupe())
        } else {
            Type::ClassType(info.instance_type.dupe())
        }
    }

    /// The first parameter of a method of a class.
    pub open spec fn self_param(self, cls: Class, posonly: bool) -> Param {
        if posonly {
            Param::PosOnly(
                Some(self.dunder.self_name),
                self.instance_of(cls),
                Required::Required,
            )
        } else {
            Param::Pos(self.dunder.self_name, self.instance_of(cls), Required::Required)
        }
    }

    /// The first parameter of a method of a class.
    pub fn class_self_param(&self, cls: &Class, posonly: bool) -> (r: Param)
        ensures
            r == self.self_param(*cls, posonly),
    {
        if posonly {
            Param::PosOnly(
                Some(self.dunder.self_name.clone()),
                self.instantiate(cls),
                Required::Required,
            )
        } else {
            Param::Pos(self.dunder.self_name.clone(), self.instantiate(cls), Required::Required)
        }
    }

    /// The argument of the first of the classes that is a `RootModel` with an argument.
    pub open spec fn root_argument(ancestors: Seq<ClassType>) -> Option<Type>
        decreases ancestors.len(),
    {
        if ancestors.len() == 0 {
            None
        } else if is_root_model(ancestors[0].class) && last_targ(*ancestors[0].targs) is Some {
            last_targ(*ancestors[0].targs)
        } else {
            Self::root_argument(ancestors.drop_first())
        }
    }

    /// The root type of a model that descends from `RootModel`, and whether the model takes
    /// values as they are.
    pub open spec fn root_type(self, class: Class, metadata: ClassMetadata) -> Option<(Type, bool)> {
        if metadata.pydantic_model_kind == Some(PydanticModelKind::RootModel) {
            match Self::root_argument(self.info(class).ancestors@) {
                Some(ty) => Some((ty, self.info(class).has_pydantic_strict_metadata)),
                None => None,
            }
        } else {
            None
        }
    }

    /// The root type of a model that descends from `RootModel`, and whether the model takes
    /// values as they are.
    pub fn get_pydantic_root_model_type_via_mro(&self, class: &Class, metadata: &ClassMetadata) -> (r:
        Option<(Type, bool)>)
        ensures
            r == self.root_type(*class, *metadata),
    {
        let is_root = match metadata.pydantic_model_kind {
            Some(kind) => kind == PydanticModelKind::RootModel,
            None => false,
        };
        if !is_root {
            return None;
        }
        let info = self.get_info(class);
        let mut i: usize = 0;
        assert(info.ancestors@.skip(0) =~= info.ancestors@);
        while i < info.ancestors.len()
            invariant
                i <= info.ancestors@.len(),
                *info == self.info(*class),
                metadata.pydantic_model_kind == Some(PydanticModelKind::RootModel),
                Self::root_argument(info.ancestors@) == Self::root_argument(
                    info.ancestors@.skip(i as int),
                ),
            decreases info.ancestors@.len() - i,
        {
            assert(info.ancestors@.skip(i as int).drop_first() =~= info.ancestors@.skip(i + 1));
            let base = &info.ancestors[i];
            if base.has_qname("pydantic.root_model", "RootModel") {
                if let Some(ty) = get_last_targ(&*base.targs) {
                    return Some((ty, info.has_pydantic_strict_metadata));
                }
            }
            i = i + 1;
        }
        None
    }

    /// The constructor of a root model. The argument may be left out where the root type is
    /// unknown; where values are converted it may be anything.
    pub open spec fn root_init(self, cls: Class, root: Type, has_strict: bool) -> ClassField {
        let open_ended = root is Any || root is Quantified;
        let ty = if open_ended || has_strict {
            root
        } else {
            Type::Any(AnyStyle::Explicit)
        };
        let required = if open_ended {
            Required::Optional(None)
        } else {
            Required::Required
        };
        ClassField::synthesized(
            method_type(
                self.dunder.init,
                seq![self.self_param(cls, false), Param::Pos(self.dunder.root, ty, required)],
                Type::NoneType,
            ),
            false,
        )
    }

    /// The constructor of a root model.
    pub fn get_pydantic_root_model_init(&self, cls: &Class, root_model_type: Type, has_strict: bool) -> (r:
        ClassField)
        ensures
            r == self.root_init(*cls, root_model_type, has_strict),
    {
        let open_ended = match &root_model_type {
            Type::Any(_) => true,
            Type::Quantified(_) => true,
            _ => false,
        };
        let ty = if open_ended || has_strict {
            root_model_type
        } else {
            Type::Any(AnyStyle::Explicit)
        };
        let required = if open_ended {
            Required::Optional(None)
        } else {
            Required::Required
        };
        let mut params: Vec<Param> = Vec::new();
        params.push(self.class_self_param(cls, false));
        params.push(Param::Pos(self.dunder.root.clone(), ty, required));
        assert(params@ =~= seq![params@[0], params@[1]]);
        ClassField::new_synthesized(make_method(&self.dunder.init, params, Type::NoneType))
    }

    /// The type of the constructor of `RootModel` itself: it takes the type variable of the class.
    pub open spec fn root_model_field(self, cls: Class, attr_name: Seq<char>) -> Option<Type> {
        if is_root_model(cls) && attr_name == "__init__"@ && self.info(cls).tparams@.len() > 0 {
            Some(
                self.root_init(
                    cls,
                    Type::Quantified(Arc::new(self.info(cls).tparams@[0])),
                    false,
                ).field_type(),
            )
        } else {
            None
        }
    }

    /// The type of the constructor of `RootModel` itself.
    pub fn get_pydantic_root_model_class_field_type(&self, cls: &Class, attr_name: &str) -> (r: Option<
        Type,
    >)
        ensures
            r == self.root_model_field(*cls, attr_name@),
    {
        if !cls.has_toplevel_qname("pydantic.root_model", "RootModel") || !crate::text::same_text(
            attr_name,
            "__init__",
        ) {
            return None;
        }
        match self.get_info(cls).tparams.get(0) {
            Some(tparam) => Some(
                self.get_pydantic_root_model_init(
                    cls,
                    Type::Quantified(Arc::new(tparam.dupe())),
                    false,
                ).ty(),
            ),
            None => None,
        }
    }

    /// Whether a type is the mark that tells pydantic to take values as they are.
    pub fn is_pydantic_strict_metadata(ty: &Type) -> (r: bool)
        ensures
            r == (ty is ClassType && ty->ClassType_0.class.is_qname("pydantic.types"@, "Strict"@)),
    {
        match ty {
            Type::ClassType(cls) => cls.has_qname("pydantic.types", "Strict"),
            _ => false,
        }
    }
}

impl<Ans: LookupAnswer> AnswersSolver<Ans> {
    /// The root type of a class that is or descends from `RootModel`.
    pub open spec fn direct_root(self, cls: ClassType) -> Option<Type> {
        if is_root_model(cls.class) {
            Some(
                match last_targ(*cls.targs) {
                    Some(ty) => ty,
                    None => Type::Any(AnyStyle::Implicit),
                },
            )
        } else {
            match self.root_type(cls.class, self.info(cls.class).metadata) {
                Some((ty, _)) => Some(ty),
                None => None,
            }
        }
    }

    fn get_direct_root(&self, cls: &ClassType) -> (r: Option<Type>)
        ensures
            r == self.direct_root(*cls),
    {
        if cls.has_qname("pydantic.root_model", "RootModel") {
            return match get_last_targ(&*cls.targs) {
                Some(ty) => Some(ty),
                None => Some(Type::Any(AnyStyle::Implicit)),
            };
        }
        match self.get_pydantic_root_model_type_via_mro(
            &cls.class,
            self.get_metadata_for_class(&cls.class),
        ) {
            Some((ty, _)) => Some(ty),
            None => None,
        }
    }

    /// What values of root models can be given instead of the models: the root type, and what it
    /// can be given for itself; for a union, what its members can be given. The outer `None`
    /// means that root models nest deeper than `depth`.
    pub open spec fn root_inner(self, ty: Type, depth: nat) -> Option<Option<Type>>
        decreases depth, ty,
    {
        match ty {
            Type::Union(ts) => match self.root_inners(*ts, depth) {
                Some(found) => Some(
                    if found.len() == 0 {
                        None
                    } else {
                        Some(self.answers.unioned(found))
                    },
                ),
                None => None,
            },
            Type::ClassType(cls) => match self.direct_root(cls) {
                None => Some(None),
                Some(root) => if depth == 0 {
                    None
                } else {
                    match self.root_inner(root, (depth - 1) as nat) {
                        None => None,
                        Some(None) => Some(Some(root)),
                        Some(Some(nested)) => Some(
                            Some(self.answers.unioned(seq![root, nested])),
                        ),
                    }
                },
            },
            _ => Some(None),
        }
    }

    pub open spec fn root_inners(self, ts: List<Type>, depth: nat) -> Option<Seq<Type>>
        decreases depth, ts,
    {
        match ts {
            List::Nil => Some(Seq::empty()),
            List::Cons(t, rest) => match (
                self.root_inner(t, depth),
                self.root_inners(*rest, depth),
            ) {
                (Some(Some(inner)), Some(others)) => Some(seq![inner] + others),
                (Some(None), Some(others)) => Some(others),
                _ => None,
            },
        }
    }

    /// Whether root models nest at most `depth` deep in a type.
    pub open spec fn nests_within(self, ty: Type, depth: nat) -> bool {
        self.root_inner(ty, depth) is Some
    }

    /// Whether root models come to an end in a type: none of them holds itself.
    pub open spec fn nesting_ends(self, ty: Type) -> bool {
        exists|depth: nat| self.nests_within(ty, depth)
    }

    /// What values of root models can be given instead of the models.
    pub open spec fn expansion(self, ty: Type) -> Option<Type> {
        self.root_inner(ty, choose|depth: nat| self.nests_within(ty, depth))->0
    }

    /// What values of root models can be given instead of the models: for a root model its root
    /// type, together with what can be given for that; for a union, what its members can be given.
    pub fn extract_root_model_inner_type(&self, ty: &Type) -> (r: Option<Type>)
        requires
            self.nesting_ends(*ty),
        ensures
            r == self.expansion(*ty),
    {
        self.extract_within(ty, Ghost(choose|depth: nat| self.nests_within(*ty, depth)))
    }

    fn extract_within(&self, ty: &Type, Ghost(depth): Ghost<nat>) -> (r: Option<Type>)
        requires
            self.nests_within(*ty, depth),
        ensures
            Some(r) == self.root_inner(*ty, depth),
        decreases depth, ty,
    {
        match ty {
            Type::Union(ts) => {
                let mut found: Vec<Type> = Vec::new();
                self.extract_each(&**ts, Ghost(depth), &mut found);
                assert(found@ =~= self.root_inners(**ts, depth)->0);
                if found.len() == 0 {
                    None
                } else {
                    Some(self.answers.unions(&found))
                }
            },
            Type::ClassType(cls) => match self.get_direct_root(cls) {
                None => None,
                Some(root) => match self.extract_within(&root, Ghost((depth - 1) as nat)) {
                    None => Some(root),
                    Some(nested) => {
                        let mut both: Vec<Type> = Vec::new();
                        both.push(root);
                        both.push(nested);
                        assert(both@ =~= seq![root, nested]);
                        Some(self.answers.unions(&both))
                    },
                },
            },
            _ => None,
        }
    }

    fn extract_each(&self, ts: &List<Type>, Ghost(depth): Ghost<nat>, found: &mut Vec<Type>)
        requires
            self.root_inners(*ts, depth) is Some,
        ensures
            final(found)@ == old(found)@ + self.root_inners(*ts, depth)->0,
        decreases depth, ts,
    {
        match ts {
            List::Nil => {},
            List::Cons(t, rest) => {
                if let Some(inner) = self.extract_within(t, Ghost(depth)) {
                    found.push(inner);
                }
                self.extract_each(&**rest, Ghost(depth), found);
            },
        }
        assert(found@ =~= old(found)@ + self.root_inners(*ts, depth)->0);
    }
}

proof fn lemma_deeper_is_same<Ans: LookupAnswer>(
    solver: AnswersSolver<Ans>,
    ty: Type,
    less: nat,
    more: nat,
)
    requires
        solver.nests_within(ty, less),
        less <= more,
    ensures
        solver.root_inner(ty, more) == solver.root_inner(ty, less),
    decreases less, ty,
{
    match ty {
        Type::Union(_) => {
            lemma_deeper_is_same_each(solver, &*ty->Union_0, less, more);
        },
        Type::ClassType(cls) => if let Some(root) = solver.direct_root(cls) {
            lemma_deeper_is_same(solver, root, (less - 1) as nat, (more - 1) as nat);
        },
        _ => {},
    }
}

proof fn lemma_deeper_is_same_each<Ans: LookupAnswer>(
    solver: AnswersSolver<Ans>,
    ts: &List<Type>,
    less: nat,
    more: nat,
)
    requires
        solver.root_inners(*ts, less) is Some,
        less <= more,
    ensures
        solver.root_inners(*ts, more) == solver.root_inners(*ts, less),
    decreases less, ts,
{
    match ts {
        List::Nil => {},
        List::Cons(t, rest) => {
            lemma_deeper_is_same(solver, *t, less, more);
            lemma_deeper_is_same_each(solver, &**rest, less, more);
        },
    }
}

/// What can be given instead of a root model is its root type joined with what can be given
/// instead of the root type, at every level.
pub proof fn law_root_models_unfold<Ans: LookupAnswer>(
    solver: AnswersSolver<Ans>,
    cls: ClassType,
    root: Type,
)
    requires
        solver.direct_root(cls) == Some(root),
        solver.nesting_ends(Type::ClassType(cls)),
    ensures
        solver.nesting_ends(root),
        solver.expansion(Type::ClassType(cls)) == (match solver.expansion(root) {
            None => Some(root),
            Some(nested) => Some(solver.answers.unioned(seq![root, nested])),
        }),
{
    let ty = Type::ClassType(cls);
    let depth = choose|depth: nat| solver.nests_within(ty, depth);
    assert(solver.nests_within(root, (depth - 1) as nat));
    let inner = choose|d: nat| solver.nests_within(root, d);
    if inner <= depth - 1 {
        lemma_deeper_is_same(solver, root, inner, (depth - 1) as nat);
    } else {
        lemma_deeper_is_same(solver, root, (depth - 1) as nat, inner);
    }
}

} // verus!
