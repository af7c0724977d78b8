use vstd::prelude::*;

use crate::annotation::Annotation;
use crate::dataclass_fields::BaseWithMetadata;
use crate::keywords::literal_text;
use crate::metadata::{DataclassMetadata, PydanticModelKind};
use crate::report::{report1, ErrorCollector, ReportView, Rule, TextRange};
use crate::solver::{AnswersSolver, LookupAnswer};
use crate::text::is_text;
use crate::types::{Lit, Type};

verus! {

/// A function by its module and name.
pub struct FunctionId {
    pub module: String,
    pub name: String,
}

/// A decorator: the function that it is, or the one that is called with keywords to make it.
pub struct Decorator {
    pub function: Option<FunctionId>,
    pub called: Option<FunctionId>,
}

/// A keyword of a class statement.
pub struct ClassKeyword {
    pub name: String,
    pub annotation: Annotation,
}

/// What the configuration of a pydantic model says.
#[derive(Clone, Copy, Debug, PartialEq, Eq, Structural)]
pub struct PydanticConfigDict {
    pub frozen: Option<bool>,
    pub extra: Option<bool>,
    pub strict: Option<bool>,
    pub validate_by_name: Option<bool>,
    pub validate_by_alias: Option<bool>,
}

/// How the arguments of a model can be named.
#[derive(Clone, Copy, Debug, PartialEq, Eq, Structural)]
pub struct PydanticValidationFlags {
    pub validate_by_name: bool,
    pub validate_by_alias: bool,
}

/// How a pydantic model behaves. What is missing is decided elsewhere.
#[derive(Clone, Copy, Debug, PartialEq, Eq, Structural)]
pub struct PydanticConfig {
    pub frozen: Option<bool>,
    pub validation_flags: PydanticValidationFlags,
    pub extra: Option<bool>,
    pub strict: Option<bool>,
    pub pydantic_model_kind: PydanticModelKind,
}

/// A setting that a model takes over from its bases.
#[derive(Clone, Copy, Debug, PartialEq, Eq, Structural)]
pub enum Setting {
    ValidateByName,
    ValidateByAlias,
    Extra,
    Frozen,
    Strict,
}

impl Setting {
    /// The setting of a dataclass.
    pub open spec fn of(self, dm: DataclassMetadata) -> bool {
        match self {
            Setting::ValidateByName => dm.init_defaults.init_by_name,
            Setting::ValidateByAlias => dm.init_defaults.init_by_alias,
            Setting::Extra => dm.kws.extra,
            Setting::Frozen => dm.kws.frozen,
            Setting::Strict => dm.kws.strict,
        }
    }

    fn get(&self, dm: &DataclassMetadata) -> (r: bool)
        ensures
            r == self.of(*dm),
    {
        match self {
            Setting::ValidateByName => dm.init_defaults.init_by_name,
            Setting::ValidateByAlias => dm.init_defaults.init_by_alias,
            Setting::Extra => dm.kws.extra,
            Setting::Frozen => dm.kws.frozen,
            Setting::Strict => dm.kws.strict,
        }
    }

    /// The setting of a model that nothing is said about.
    pub open spec fn by_default(self) -> bool {
        match self {
            Setting::ValidateByName => false,
            Setting::ValidateByAlias => true,
            Setting::Extra => true,
            Setting::Frozen => false,
            Setting::Strict => false,
        }
    }

    fn get_default(&self) -> (r: bool)
        ensures
            r == self.by_default(),
    {
        match self {
            Setting::ValidateByName => false,
            Setting::ValidateByAlias => true,
            Setting::Extra => true,
            Setting::Frozen => false,
            Setting::Strict => false,
        }
    }

    /// The keyword of a class statement that gives the setting.
    pub open spec fn keyword(self) -> Seq<char> {
        match self {
            Setting::ValidateByName => "validate_by_name"@,
            Setting::ValidateByAlias => "validate_by_alias"@,
            Setting::Extra => "extra"@,
            Setting::Frozen => "frozen"@,
            Setting::Strict => "strict"@,
        }
    }

    fn get_keyword(&self) -> (r: &'static str)
        ensures
            r@ == self.keyword(),
    {
        match self {
            Setting::ValidateByName => "validate_by_name",
            Setting::ValidateByAlias => "validate_by_alias",
            Setting::Extra => "extra",
            Setting::Frozen => "frozen",
            Setting::Strict => "strict",
        }
    }

    /// The setting that the configuration of the model gives.
    pub open spec fn in_dict(self, dict: PydanticConfigDict) -> Option<bool> {
        match self {
            Setting::ValidateByName => dict.validate_by_name,
            Setting::ValidateByAlias => dict.validate_by_alias,
            Setting::Extra => dict.extra,
            Setting::Frozen => dict.frozen,
            Setting::Strict => dict.strict,
        }
    }

    fn get_in_dict(&self, dict: &PydanticConfigDict) -> (r: Option<bool>)
        ensures
            r == self.in_dict(*dict),
    {
        match self {
            Setting::ValidateByName => dict.validate_by_name,
            Setting::ValidateByAlias => dict.validate_by_alias,
            Setting::Extra => dict.extra,
            Setting::Frozen => dict.frozen,
            Setting::Strict => dict.strict,
        }
    }
}

/// The setting of the first base that is a pydantic model.
pub open spec fn inherited_setting(bases: Seq<BaseWithMetadata>, setting: Setting) -> Option<bool>
    decreases bases.len(),
{
    if bases.len() == 0 {
        None
    } else if bases[0].metadata.pydantic() && bases[0].metadata.dataclass is Some {
        Some(setting.of(bases[0].metadata.dataclass->0))
    } else {
        inherited_setting(bases.drop_first(), setting)
    }
}

/// The setting of the first base that is a pydantic model. Other dataclasses are passed over:
/// their settings have other defaults.
fn find_inherited_keyword_value(bases: &Vec<BaseWithMetadata>, setting: Setting) -> (r: Option<bool>)
    ensures
        r == inherited_setting(bases@, setting),
{
    let mut i: usize = 0;
    assert(bases@.skip(0) =~= bases@);
    while i < bases.len()
        invariant
            i <= bases@.len(),
            inherited_setting(bases@, setting) == inherited_setting(
                bases@.skip(i as int),
                setting,
            ),
        decreases bases@.len() - i,
    {
        assert(bases@.skip(i as int).drop_first() =~= bases@.skip(i + 1));
        if bases[i].metadata.is_pydantic_model() {
            if let Some(dm) = &bases[i].metadata.dataclass {
                return Some(setting.get(dm));
            }
        }
        i = i + 1;
    }
    None
}

/// The annotation of the first class keyword called `name`.
pub open spec fn class_keyword(keywords: Seq<ClassKeyword>, name: Seq<char>) -> Option<Annotation>
    decreases keywords.len(),
{
    if keywords.len() == 0 {
        None
    } else if keywords[0].name@ == name {
        Some(keywords[0].annotation)
    } else {
        class_keyword(keywords.drop_first(), name)
    }
}

fn find_class_keyword(keywords: &Vec<ClassKeyword>, name: &str) -> (r: Option<Annotation>)
    ensures
        r == class_keyword(keywords@, name@),
{
    let mut i: usize = 0;
    assert(keywords@.skip(0) =~= keywords@);
    while i < keywords.len()
        invariant
            i <= keywords@.len(),
            class_keyword(keywords@, name@) == class_keyword(keywords@.skip(i as int), name@),
        decreases keywords@.len() - i,
    {
        assert(keywords@.skip(i as int).drop_first() =~= keywords@.skip(i + 1));
        if is_text(&keywords[i].name, name) {
            return Some(keywords[i].annotation.dupe());
        }
        i = i + 1;
    }
    None
}

pub open spec fn is_pydantic_decorator(id: Option<FunctionId>) -> bool {
    id matches Some(id) && id.module@ == "pydantic.dataclasses"@ && id.name@ == "dataclass"@
}

fn check_pydantic_decorator(id: &Option<FunctionId>) -> (r: bool)
    ensures
        r == is_pydantic_decorator(*id),
{
    match id {
        Some(id) => is_text(&id.module, "pydantic.dataclasses") && is_text(&id.name, "dataclass"),
        None => false,
    }
}

/// Whether some decorator makes the class a pydantic dataclass.
pub open spec fn pydantic_dataclass(decorators: Seq<Decorator>) -> bool {
    exists|i: int|
        0 <= i < decorators.len() && (is_pydantic_decorator((#[trigger] decorators[i]).function)
            || is_pydantic_decorator(decorators[i].called))
}

fn is_pydantic_dataclass(decorators: &Vec<Decorator>) -> (r: bool)
    ensures
        r == pydantic_dataclass(decorators@),
{
    let mut i: usize = 0;
    while i < decorators.len()
        invariant
            i <= decorators@.len(),
            forall|k: int|
                0 <= k < i ==> !is_pydantic_decorator((#[trigger] decorators@[k]).function)
                    && !is_pydantic_decorator(decorators@[k].called),
        decreases decorators@.len() - i,
    {
        if check_pydantic_decorator(&decorators[i].function) || check_pydantic_decorator(
            &decorators[i].called,
        ) {
            return true;
        }
        i = i + 1;
    }
    false
}

/// What a base says about the kind of a model.
#[derive(Clone, Copy, Debug, PartialEq, Eq, Structural)]
pub enum Trait {
    Model,
    RootModel,
    Settings,
}

/// Whether a base makes a class a model, a root model or settings: by its name, or because it is
/// one.
pub open spec fn gives(base: BaseWithMetadata, what: Trait) -> bool {
    match what {
        Trait::Model => base.class.is_qname("pydantic.main"@, "BaseModel"@) || base.class.is_qname(
            "pydantic"@,
            "BaseModel"@,
        ) || base.metadata.pydantic(),
        Trait::RootModel => base.class.is_qname("pydantic.root_model"@, "RootModel"@)
            || base.metadata.pydantic_model_kind == Some(PydanticModelKind::RootModel),
        Trait::Settings => base.class.is_qname("pydantic_settings.main"@, "BaseSettings"@)
            || base.metadata.pydantic_model_kind == Some(PydanticModelKind::BaseSettings),
    }
}

fn check_gives(base: &BaseWithMetadata, what: Trait) -> (r: bool)
    ensures
        r == gives(*base, what),
{
    match what {
        Trait::Model => base.class.has_toplevel_qname("pydantic.main", "BaseModel")
            || base.class.has_toplevel_qname("pydantic", "BaseModel")
            || base.metadata.is_pydantic_model(),
        Trait::RootModel => base.class.has_toplevel_qname("pydantic.root_model", "RootModel")
            || match base.metadata.pydantic_model_kind {
            Some(kind) => kind == PydanticModelKind::RootModel,
            None => false,
        },
        Trait::Settings => base.class.has_toplevel_qname("pydantic_settings.main", "BaseSettings")
            || match base.metadata.pydantic_model_kind {
            Some(kind) => kind == PydanticModelKind::BaseSettings,
            None => false,
        },
    }
}

/// Whether some base makes a class a model, a root model or settings.
pub open spec fn any_gives(bases: Seq<BaseWithMetadata>, what: Trait) -> bool {
    exists|i: int| 0 <= i < bases.len() && #[trigger] gives(bases[i], what)
}

fn check_any_gives(bases: &Vec<BaseWithMetadata>, what: Trait) -> (r: bool)
    ensures
        r == any_gives(bases@, what),
{
    let mut i: usize = 0;
    while i < bases.len()
        invariant
            i <= bases@.len(),
            forall|k: int| 0 <= k < i ==> !#[trigger] gives(bases@[k], what),
        decreases bases@.len() - i,
    {
        if check_gives(&bases[i], what) {
            return true;
        }
        i = i + 1;
    }
    false
}

/// The kind of a model with the given bases. A root model is never taken for anything else.
pub open spec fn model_kind(bases: Seq<BaseWithMetadata>) -> PydanticModelKind {
    if any_gives(bases, Trait::RootModel) {
        PydanticModelKind::RootModel
    } else if any_gives(bases, Trait::Settings) {
        PydanticModelKind::BaseSettings
    } else {
        PydanticModelKind::BaseModel
    }
}

/// What the keyword `extra` says of unknown arguments: whether they are accepted, or nothing that
/// can be understood.
pub open spec fn extra_choice(ty: Type) -> Option<bool> {
    match literal_text(ty) {
        Some(s) => if s@ == "allow"@ || s@ == "ignore"@ {
            Some(true)
        } else if s@ == "forbid"@ {
            Some(false)
        } else {
            None
        },
        None => None,
    }
}

fn get_extra_choice(ty: &Type) -> (r: Option<bool>)
    ensures
        r == extra_choice(*ty),
{
    match ty {
        Type::Literal(lit) => match &lit.value {
            Lit::Str(s) => if is_text(s, "allow") || is_text(s, "ignore") {
                Some(true)
            } else if is_text(s, "forbid") {
                Some(false)
            } else {
                None
            },
            _ => None,
        },
        _ => None,
    }
}

impl<Ans: LookupAnswer> AnswersSolver<Ans> {
    /// The truth value of the class keyword `name`.
    pub open spec fn class_flag(self, keywords: Seq<ClassKeyword>, name: Seq<char>) -> Option<bool> {
        match class_keyword(keywords, name) {
            Some(annotation) => self.answers.truth(annotation.stated_type()),
            None => None,
        }
    }

    fn extract_bool_flag(&self, keywords: &Vec<ClassKeyword>, key: &str) -> (r: Option<bool>)
        ensures
            r == self.class_flag(keywords@, key@),
    {
        match find_class_keyword(keywords, key) {
            Some(annotation) => self.answers.as_bool(&annotation.get_type()),
            None => None,
        }
    }

    /// A setting where no class keyword gives it: that of the configuration, or else that of the
    /// bases, or else the default.
    pub open spec fn unkeyed_setting(
        setting: Setting,
        dict: PydanticConfigDict,
        bases: Seq<BaseWithMetadata>,
    ) -> bool {
        match setting.in_dict(dict) {
            Some(b) => b,
            None => match inherited_setting(bases, setting) {
                Some(b) => b,
                None => setting.by_default(),
            },
        }
    }

    fn get_unkeyed_setting(
        setting: Setting,
        dict: &PydanticConfigDict,
        bases: &Vec<BaseWithMetadata>,
    ) -> (r: bool)
        ensures
            r == Self::unkeyed_setting(setting, *dict, bases@),
    {
        match setting.get_in_dict(dict) {
            Some(b) => b,
            None => match find_inherited_keyword_value(bases, setting) {
                Some(b) => b,
                None => setting.get_default(),
            },
        }
    }

    /// A setting of a model: a class keyword comes before the configuration, that before the bases,
    /// and those before the default.
    pub open spec fn model_setting(
        self,
        setting: Setting,
        keywords: Seq<ClassKeyword>,
        dict: PydanticConfigDict,
        bases: Seq<BaseWithMetadata>,
    ) -> bool {
        match self.class_flag(keywords, setting.keyword()) {
            Some(b) => b,
            None => Self::unkeyed_setting(setting, dict, bases),
        }
    }

    fn get_bool_config_value(
        &self,
        setting: Setting,
        keywords: &Vec<ClassKeyword>,
        dict: &PydanticConfigDict,
        bases: &Vec<BaseWithMetadata>,
    ) -> (r: bool)
        ensures
            r == self.model_setting(setting, keywords@, *dict, bases@),
    {
        match self.extract_bool_flag(keywords, setting.get_keyword()) {
            Some(b) => b,
            None => Self::get_unkeyed_setting(setting, dict, bases),
        }
    }

    /// Whether a model accepts unknown arguments. A keyword that cannot be understood is taken to
    /// allow them.
    pub open spec fn accepts_extra(
        keywords: Seq<ClassKeyword>,
        dict: PydanticConfigDict,
        bases: Seq<BaseWithMetadata>,
    ) -> bool {
        match class_keyword(keywords, "extra"@) {
            Some(annotation) => extra_choice(annotation.stated_type()) != Some(false),
            None => Self::unkeyed_setting(Setting::Extra, dict, bases),
        }
    }

    /// The report on an `extra` keyword that cannot be understood.
    pub open spec fn extra_report(keywords: Seq<ClassKeyword>, range: TextRange) -> Seq<ReportView> {
        match class_keyword(keywords, "extra"@) {
            Some(annotation) => if extra_choice(annotation.stated_type()) is None {
                seq![
                    report1(
                        range,
                        Rule::InvalidLiteral,
                        "Invalid value for `extra`. Expected one of 'allow', 'ignore', or 'forbid'"@,
                    ),
                ]
            } else {
                Seq::empty()
            },
            None => Seq::empty(),
        }
    }

    fn get_extra(
        keywords: &Vec<ClassKeyword>,
        dict: &PydanticConfigDict,
        bases: &Vec<BaseWithMetadata>,
        range: TextRange,
        errors: &mut ErrorCollector,
    ) -> (r: bool)
        ensures
            r == Self::accepts_extra(keywords@, *dict, bases@),
            final(errors)@ == old(errors)@ + Self::extra_report(keywords@, range),
    {
        assert(errors@ + Seq::<ReportView>::empty() =~= errors@);
        match find_class_keyword(keywords, "extra") {
            Some(annotation) => match get_extra_choice(&annotation.get_type()) {
                Some(b) => b,
                None => {
                    errors.error(
                        range,
                        Rule::InvalidLiteral,
                        "Invalid value for `extra`. Expected one of 'allow', 'ignore', or 'forbid'".to_owned(),
                    );
                    true
                },
            },
            None => Self::get_unkeyed_setting(Setting::Extra, dict, bases),
        }
    }

    /// How a class behaves as a pydantic model, where it is one. A pydantic dataclass that is no
    /// model takes its settings from its decorator.
    pub open spec fn config(
        self,
        bases: Seq<BaseWithMetadata>,
        dict: PydanticConfigDict,
        keywords: Seq<ClassKeyword>,
        decorators: Seq<Decorator>,
    ) -> Option<PydanticConfig> {
        if any_gives(bases, Trait::Model) {
            Some(
                PydanticConfig {
                    frozen: Some(self.model_setting(Setting::Frozen, keywords, dict, bases)),
                    validation_flags: PydanticValidationFlags {
                        validate_by_name: self.model_setting(
                            Setting::ValidateByName,
                            keywords,
                            dict,
                            bases,
                        ),
                        validate_by_alias: self.model_setting(
                            Setting::ValidateByAlias,
                            keywords,
                            dict,
                            bases,
                        ),
                    },
                    extra: Some(Self::accepts_extra(keywords, dict, bases)),
                    strict: Some(self.model_setting(Setting::Strict, keywords, dict, bases)),
                    pydantic_model_kind: model_kind(bases),
                },
            )
        } else if pydantic_dataclass(decorators) {
            Some(
                PydanticConfig {
                    frozen: None,
                    validation_flags: PydanticValidationFlags {
                        validate_by_name: false,
                        validate_by_alias: true,
                    },
                    extra: None,
                    strict: None,
                    pydantic_model_kind: PydanticModelKind::DataClass,
                },
            )
        } else {
            None
        }
    }

    /// How a class behaves as a pydantic model, where it is one. Only the `extra` keyword of a
    /// model is reported on.
    pub fn pydantic_config(
        &self,
        bases_with_metadata: &Vec<BaseWithMetadata>,
        pydantic_config_dict: &PydanticConfigDict,
        keywords: &Vec<ClassKeyword>,
        decorators: &Vec<Decorator>,
        errors: &mut ErrorCollector,
        range: TextRange,
    ) -> (r: Option<PydanticConfig>)
        ensures
            r == self.config(
                bases_with_metadata@,
                *pydantic_config_dict,
                keywords@,
                decorators@,
            ),
            final(errors)@ == (if any_gives(bases_with_metadata@, Trait::Model) {
                old(errors)@ + Self::extra_report(keywords@, range)
            } else {
                old(errors)@
            }),
    {
        let bases = bases_with_metadata;
        let dict = pydantic_config_dict;
        if !check_any_gives(bases, Trait::Model) {
            if is_pydantic_dataclass(decorators) {
                return Some(
                    PydanticConfig {
                        frozen: None,
                        validation_flags: PydanticValidationFlags {
                            validate_by_name: false,
                            validate_by_alias: true,
                        },
                        extra: None,
                        strict: None,
                        pydantic_model_kind: PydanticModelKind::DataClass,
                    },
                );
            }
            return None;
        }
        let pydantic_model_kind = if check_any_gives(bases, Trait::RootModel) {
            PydanticModelKind::RootModel
        } else if check_any_gives(bases, Trait::Settings) {
            PydanticModelKind::BaseSettings
        } else {
            PydanticModelKind::BaseModel
        };
        let validation_flags = PydanticValidationFlags {
            validate_by_name: self.get_bool_config_value(
                Setting::ValidateByName,
                keywords,
                dict,
                bases,
            ),
            validate_by_alias: self.get_bool_config_value(
                Setting::ValidateByAlias,
                keywords,
                dict,
                bases,
            ),
        };
        let extra = Self::get_extra(keywords, dict, bases, range, errors);
        let frozen = self.get_bool_config_value(Setting::Frozen, keywords, dict, bases);
        let strict = self.get_bool_config_value(Setting::Strict, keywords, dict, bases);
        Some(
            PydanticConfig {
                frozen: Some(frozen),
                validation_flags,
                extra: Some(extra),
                strict: Some(strict),
                pydantic_model_kind,
            },
        )
    }
}

/// A class keyword decides over the configuration and the bases of a model, and the configuration
/// over the bases.
pub proof fn law_nearer_settings_win<Ans: LookupAnswer>(
    solver: AnswersSolver<Ans>,
    setting: Setting,
    keywords: Seq<ClassKeyword>,
    dict: PydanticConfigDict,
    bases: Seq<BaseWithMetadata>,
)
    ensures
        solver.class_flag(keywords, setting.keyword()) matches Some(b) ==> solver.model_setting(
            setting,
            keywords,
            dict,
            bases,
        ) == b,
        solver.class_flag(keywords, setting.keyword()) is None && setting.in_dict(dict)
            is Some ==> solver.model_setting(setting, keywords, dict, bases) == setting.in_dict(
            dict,
        )->0,
{
}

} // verus!
