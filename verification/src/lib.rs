pub mod access;
pub mod annotation;
pub mod ast;
pub mod attribute;
pub mod attribute_laws;
pub mod attributes;
pub mod calculate;
pub mod call_laws;
pub mod class_field;
pub mod constructors;
pub mod counts;
pub mod dataclass;
pub mod dataclass_fields;
pub mod dataclass_laws;
pub mod diagnostic;
pub mod docstrings;
pub mod edit_laws;
pub mod edits;
pub mod emit;
pub mod error;
pub mod expr;
pub mod extract;
pub mod extract_init;
pub mod extract_laws;
pub mod extract_module;
pub mod extract_types;
pub mod field_calc;
pub mod field_laws;
pub mod field_value;
pub mod generic_laws;
pub mod github;
pub mod handles;
pub mod inheritance_laws;
pub mod instance;
pub mod keywords;
pub mod legacy;
pub mod list;
pub mod lit_int;
pub mod lookup_laws;
pub mod marks;
pub mod member_laws;
pub mod members;
pub mod metadata;
pub mod multiple_inheritance;
pub mod names;
pub mod nominal;
pub mod order;
pub mod ordered;
pub mod outcome;
pub mod output_laws;
pub mod outputs;
pub mod override_check;
pub mod override_laws;
pub mod overrides;
pub mod paths;
pub mod plan;
pub mod position;
pub mod prune;
pub mod pydantic;
pub mod pydantic_args;
pub mod pydantic_config;
pub mod pydantic_laws;
pub mod quick_fixes;
pub mod reading;
pub mod renderer;
pub mod rendering;
pub mod replace_call;
pub mod report;
pub mod reports;
pub mod root_model;
pub mod same;
pub mod settings;
pub mod showable;
pub mod snippet;
pub mod snippet_laws;
pub mod solver;
pub mod source;
pub mod special_type;
pub mod stub;
pub mod stub_laws;
pub mod subst;
pub mod subst_laws;
pub mod suppression;
pub mod synthesis;
pub mod text;
pub mod timings;
pub mod types;
pub mod universe;
pub mod upsell;
pub mod uses_laws;
pub mod value_laws;
pub mod vars;
pub mod wording_laws;
pub mod words;
pub mod writing;
pub mod xml;
