use std::sync::Arc;

use starlark_map::small_set::SmallSet;
use vstd::prelude::*;

use crate::class_field::ClassField;
use crate::expr::CalleeKind;
use crate::list::List;
use crate::ordered::name_texts;
use crate::report::TextRange;
use crate::text::{contains_name, same_text, texts};
use crate::types::{Class, ClassType, Quantified};

verus! {

/// The options of a dataclass.
#[derive(Clone, Copy, Debug, PartialEq, Eq, Structural)]
pub struct DataclassKeywords {
    pub init: bool,
    pub order: bool,
    pub frozen: bool,
    pub match_args: bool,
    pub kw_only: bool,
    pub eq: bool,
    pub unsafe_hash: bool,
    pub slots: bool,
    /// Whether the constructor accepts unknown keywords.
    pub extra: bool,
    /// Whether values are taken as they are.
    pub strict: bool,
}

/// How the arguments of a constructor can be named.
#[derive(Clone, Copy, Debug, PartialEq, Eq, Structural)]
pub struct InitDefaults {
    pub init_by_name: bool,
    pub init_by_alias: bool,
}

/// What is known of a dataclass.
pub struct DataclassMetadata {
    /// The names of the fields, those of the bases first.
    pub fields: SmallSet<String>,
    pub kws: DataclassKeywords,
    pub init_defaults: InitDefaults,
    /// Whether a field specifier takes the default as its first argument.
    pub default_can_be_positional: bool,
    /// The keyword of a field specifier that gives the other name of a field.
    pub alias_keyword: String,
    /// The functions and classes that describe a field.
    pub field_specifiers: Vec<CalleeKind>,
    /// The fields whose values a validator transforms before they are checked.
    pub pydantic_before_validator_fields: Vec<String>,
}

impl DataclassMetadata {
    /// Whether no two fields have the same name, as it is with every set.
    pub open spec fn wf(self) -> bool {
        name_texts(self.fields).no_duplicates()
    }
}

/// The kinds of pydantic models.
#[derive(Clone, Copy, Debug, PartialEq, Eq, Structural)]
pub enum PydanticModelKind {
    BaseModel,
    RootModel,
    BaseSettings,
    DataClass,
}

/// A key of a typed dictionary, and whether it is required unless its annotation says otherwise.
pub struct TypedDictKey {
    pub name: String,
    pub is_total: bool,
}

/// What is known of a class as a whole.
pub struct ClassMetadata {
    pub is_protocol: bool,
    pub is_enum: bool,
    pub is_django_model: bool,
    pub is_marshmallow_schema: bool,
    pub is_factory_boy_factory: bool,
    /// Whether some base class is unknown.
    pub has_base_any: bool,
    pub pydantic_model_kind: Option<PydanticModelKind>,
    pub custom_metaclass: Option<ClassType>,
    /// The names of the elements, for a named tuple.
    pub named_tuple: Option<Vec<String>>,
    /// The keys, for a typed dictionary.
    pub typed_dict: Option<Vec<TypedDictKey>>,
    pub dataclass: Option<DataclassMetadata>,
    /// The base classes.
    pub base_class_objects: Vec<Class>,
}

/// Whether the first key called `name` is required by default; `None` without such a key.
pub open spec fn key_total(keys: Seq<TypedDictKey>, name: Seq<char>) -> Option<bool>
    decreases keys.len(),
{
    if keys.len() == 0 {
        None
    } else if keys[0].name@ == name {
        Some(keys[0].is_total)
    } else {
        key_total(keys.drop_first(), name)
    }
}

impl ClassMetadata {
    pub open spec fn pydantic(self) -> bool {
        self.pydantic_model_kind is Some && !(self.pydantic_model_kind->0 is DataClass)
    }

    /// Whether the class is a pydantic model.
    pub fn is_pydantic_model(&self) -> (r: bool)
        ensures
            r == self.pydantic(),
    {
        match self.pydantic_model_kind {
            Some(kind) => kind != PydanticModelKind::DataClass,
            None => false,
        }
    }

    pub open spec fn named_tuple_element(self, name: Seq<char>) -> bool {
        self.named_tuple is Some && texts(self.named_tuple->0@).contains(name)
    }

    /// Whether `name` is an element of the named tuple that the class is.
    pub fn is_named_tuple_element(&self, name: &str) -> (r: bool)
        ensures
            r == self.named_tuple_element(name@),
    {
        match &self.named_tuple {
            Some(elements) => contains_name(elements, name),
            None => false,
        }
    }

    pub open spec fn typed_dict_total(self, name: Seq<char>) -> Option<bool> {
        match self.typed_dict {
            Some(keys) => key_total(keys@, name),
            None => None,
        }
    }

    /// Whether the key `name` of the typed dictionary that the class is is required by default;
    /// `None` where there is no such key.
    pub fn typed_dict_field(&self, name: &str) -> (r: Option<bool>)
        ensures
            r == self.typed_dict_total(name@),
    {
        match &self.typed_dict {
            Some(keys) => {
                let mut i: usize = 0;
                assert(keys@.skip(0) =~= keys@);
                while i < keys.len()
                    invariant
                        i <= keys@.len(),
                        self.typed_dict_total(name@) == key_total(keys@.skip(i as int), name@),
                    decreases keys@.len() - i,
                {
                    assert(keys@.skip(i as int).drop_first() =~= keys@.skip(i + 1));
                    if same_text(keys[i].name.as_str(), name) {
                        return Some(keys[i].is_total);
                    }
                    i = i + 1;
                }
                None
            },
            None => None,
        }
    }

    pub open spec fn frozen_dataclass(self) -> bool {
        self.dataclass is Some && self.dataclass->0.kws.frozen
    }
}

/// A field that a class declares.
pub struct DeclaredField {
    pub name: String,
    /// Where the field is declared.
    pub range: Option<TextRange>,
    /// Whether the declaration has an annotation.
    pub annotated: bool,
    /// The field itself, where it can be computed.
    pub field: Option<ClassField>,
}

/// A field that is added to a class.
pub struct SynthesizedField {
    pub name: String,
    pub field: ClassField,
}

/// Everything that is known of one class.
pub struct ClassInfo {
    pub class: Class,
    pub metadata: ClassMetadata,
    pub tparams: Arc<List<Quantified>>,
    /// The base types, as written.
    pub bases: Vec<ClassType>,
    /// The classes behind this one in its method resolution order; `object` is the last.
    pub ancestors: Vec<ClassType>,
    /// The declared fields, in the order of their declaration. `None` where the definition of the
    /// class cannot be found.
    pub fields: Option<Vec<DeclaredField>>,
    /// The added fields.
    pub synthesized: Vec<SynthesizedField>,
    /// Whether some ancestor is unknown.
    pub extends_any: bool,
    pub is_nn_module: bool,
    /// Whether pydantic is told in the bases to take values as they are.
    pub has_pydantic_strict_metadata: bool,
    /// The attributes that instances can be given, where `__slots__` limits them.
    pub instance_slots: Option<Vec<String>>,
    /// The type of an instance, with the class's own type variables as arguments.
    pub instance_type: ClassType,
}

/// The position of the first declared field called `name`.
pub open spec fn declared_at(fields: Seq<DeclaredField>, name: Seq<char>) -> Option<int>
    decreases fields.len(),
{
    if fields.len() == 0 {
        None
    } else if fields[0].name@ == name {
        Some(0int)
    } else {
        match declared_at(fields.drop_first(), name) {
            Some(i) => Some(i + 1),
            None => None,
        }
    }
}

/// The position of the first declared field called `name`.
pub fn find_declared(fields: &Vec<DeclaredField>, name: &str) -> (r: Option<usize>)
    ensures
        match r {
            Some(i) => declared_at(fields@, name@) == Some(i as int) && i < fields@.len(),
            None => declared_at(fields@, name@) is None,
        },
{
    let mut i: usize = 0;
    assert(fields@.skip(0) =~= fields@);
    while i < fields.len()
        invariant
            i <= fields@.len(),
            declared_at(fields@, name@) == match declared_at(fields@.skip(i as int), name@) {
                Some(k) => Some(k + i),
                None => None,
            },
        decreases fields@.len() - i,
    {
        assert(fields@.skip(i as int).drop_first() =~= fields@.skip(i + 1));
        if same_text(fields[i].name.as_str(), name) {
            return Some(i);
        }
        i = i + 1;
    }
    None
}

/// The first added field called `name`.
pub open spec fn synthesized_named(fields: Seq<SynthesizedField>, name: Seq<char>) -> Option<
    ClassField,
>
    decreases fields.len(),
{
    if fields.len() == 0 {
        None
    } else if fields[0].name@ == name {
        Some(fields[0].field)
    } else {
        synthesized_named(fields.drop_first(), name)
    }
}

/// The first added field called `name`.
pub fn find_synthesized(fields: &Vec<SynthesizedField>, name: &str) -> (r: Option<ClassField>)
    ensures
        r == synthesized_named(fields@, name@),
{
    let mut i: usize = 0;
    assert(fields@.skip(0) =~= fields@);
    while i < fields.len()
        invariant
            i <= fields@.len(),
            synthesized_named(fields@, name@) == synthesized_named(fields@.skip(i as int), name@),
        decreases fields@.len() - i,
    {
        assert(fields@.skip(i as int).drop_first() =~= fields@.skip(i + 1));
        if same_text(fields[i].name.as_str(), name) {
            return Some(fields[i].field.dupe());
        }
        i = i + 1;
    }
    None
}

impl ClassInfo {
    /// Whether the class declares a field called `name`.
    pub open spec fn declares(self, name: Seq<char>) -> bool {
        self.fields is Some && declared_at(self.fields->0@, name) is Some
    }

    /// Whether the class declares a field called `name`.
    pub fn declares_field(&self, name: &str) -> (r: bool)
        ensures
            r == self.declares(name@),
    {
        match &self.fields {
            Some(fields) => find_declared(fields, name).is_some(),
            None => false,
        }
    }

    /// Where the field `name` is declared.
    pub open spec fn decl_range(self, name: Seq<char>) -> Option<TextRange> {
        if self.declares(name) {
            self.fields->0@[declared_at(self.fields->0@, name)->0].range
        } else {
            None
        }
    }

    /// Where the field `name` is declared.
    pub fn field_decl_range(&self, name: &str) -> (r: Option<TextRange>)
        ensures
            r == self.decl_range(name@),
    {
        match &self.fields {
            Some(fields) => match find_declared(fields, name) {
                Some(i) => fields[i].range,
                None => None,
            },
            None => None,
        }
    }

    /// The declared field `name`.
    pub open spec fn declared_field(self, name: Seq<char>) -> Option<ClassField> {
        if self.declares(name) {
            self.fields->0@[declared_at(self.fields->0@, name)->0].field
        } else {
            None
        }
    }

    /// The declared field `name`.
    pub fn get_declared(&self, name: &str) -> (r: Option<ClassField>)
        ensures
            r == self.declared_field(name@),
    {
        match &self.fields {
            Some(fields) => match find_declared(fields, name) {
                Some(i) => match &fields[i].field {
                    Some(field) => Some(field.dupe()),
                    None => None,
                },
                None => None,
            },
            None => None,
        }
    }

    /// The field `name` of the class itself: the declared one, or else the added one.
    pub open spec fn own_field(self, name: Seq<char>) -> Option<ClassField> {
        match self.declared_field(name) {
            Some(f) => Some(f),
            None => synthesized_named(self.synthesized@, name),
        }
    }

    /// The field `name` of the class itself: the declared one, or else the added one.
    pub fn get_own(&self, name: &str) -> (r: Option<ClassField>)
        ensures
            r == self.own_field(name@),
    {
        match self.get_declared(name) {
            Some(f) => Some(f),
            None => find_synthesized(&self.synthesized, name),
        }
    }
}

} // verus!
