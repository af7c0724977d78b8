use vstd::prelude::*;

use crate::text::chars_of;

verus! {

/// Whether a name begins with two underscores.
pub open spec fn double_underscored(name: Seq<char>) -> bool {
    name.len() >= 2 && name[0] == '_' && name[1] == '_'
}

/// Whether a name ends with two underscores.
pub open spec fn closed_by_underscores(name: Seq<char>) -> bool {
    name.len() >= 2 && name[name.len() - 1] == '_' && name[name.len() - 2] == '_'
}

/// Whether a name is a special name, such as `__init__`.
pub open spec fn dunder_name(name: Seq<char>) -> bool {
    double_underscored(name) && closed_by_underscores(name)
}

/// Whether a name is private to its class, and so is mangled.
pub open spec fn mangled_name(name: Seq<char>) -> bool {
    double_underscored(name) && !closed_by_underscores(name)
}

/// Whether a name is a special name, such as `__init__`.
pub fn is_dunder(name: &str) -> (r: bool)
    ensures
        r == dunder_name(name@),
{
    let chars = chars_of(name);
    let n: usize = chars.len();
    n >= 2 && chars[0] == '_' && chars[1] == '_' && chars[n - 1] == '_' && chars[n - 2] == '_'
}

/// Whether a name is private to its class, and so is mangled.
pub fn is_mangled_attr(name: &str) -> (r: bool)
    ensures
        r == mangled_name(name@),
{
    let chars = chars_of(name);
    let n: usize = chars.len();
    n >= 2 && chars[0] == '_' && chars[1] == '_' && !(chars[n - 1] == '_' && chars[n - 2] == '_')
}

/// Whether a name begins with an underscore.
pub fn starts_with_underscore(name: &str) -> (r: bool)
    ensures
        r == (name@.len() > 0 && name@[0] == '_'),
{
    let chars = chars_of(name);
    chars.len() > 0 && chars[0] == '_'
}

} // verus!
