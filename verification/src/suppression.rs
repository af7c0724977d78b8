use vstd::prelude::*;

use crate::error::SuppressionEdit;
use crate::text::is_text;

verus! {

/// An error as it is exchanged between runs.
pub struct SerializedError {
    pub path: String,
    pub line: usize,
    /// The name of the kind.
    pub name: String,
    pub message: String,
    /// The edit that removes the suppression, for an error about one that suppresses nothing.
    pub suppression_edit: Option<SuppressionEdit>,
    /// Whether errors of this kind answer a directive.
    pub is_directive: bool,
}

/// Whether a kind is that of suppressions that suppress nothing.
pub open spec fn is_unused_ignore(name: Seq<char>) -> bool {
    name == "unused-ignore"@
}

/// Whether a kind is that of `# type: ignore` comments that suppress nothing.
pub open spec fn is_unused_type_ignore(name: Seq<char>) -> bool {
    name == "unused-type-ignore"@
}

/// Whether the suppression that an error is about is removed.
pub open spec fn to_remove(e: SerializedError, type_ignores: bool) -> bool {
    is_unused_ignore(e.name@) || (type_ignores && is_unused_type_ignore(e.name@))
}

/// Whether an error is suppressed: one that answers a directive is not, nor is one about a
/// suppression that suppresses nothing.
pub open spec fn to_suppress(e: SerializedError) -> bool {
    !e.is_directive && !is_unused_ignore(e.name@)
}

/// The errors about suppressions that are removed.
pub open spec fn removals(errors: Seq<SerializedError>, type_ignores: bool) -> Seq<SerializedError>
    decreases errors.len(),
{
    if errors.len() == 0 {
        Seq::empty()
    } else if to_remove(errors.last(), type_ignores) {
        removals(errors.drop_last(), type_ignores).push(errors.last())
    } else {
        removals(errors.drop_last(), type_ignores)
    }
}

/// The errors that are suppressed.
pub open spec fn suppressions(errors: Seq<SerializedError>) -> Seq<SerializedError>
    decreases errors.len(),
{
    if errors.len() == 0 {
        Seq::empty()
    } else if to_suppress(errors.last()) {
        suppressions(errors.drop_last()).push(errors.last())
    } else {
        suppressions(errors.drop_last())
    }
}

/// Picks the errors about suppressions that are removed.
pub fn errors_to_remove(errors: Vec<SerializedError>, type_ignores: bool) -> (r: Vec<
    SerializedError,
>)
    ensures
        r@ == removals(errors@, type_ignores),
{
    let ghost all = errors@;
    let n: usize = errors.len();
    let mut rest = errors;
    let mut out: Vec<SerializedError> = Vec::new();
    assert(all.skip(0) =~= all);
    assert(all.take(0) =~= Seq::empty());
    while rest.len() > 0
        invariant
            rest@.len() <= n,
            n == all.len(),
            rest@ == all.skip(n - rest@.len()),
            out@ == removals(all.take(n - rest@.len()), type_ignores),
        decreases rest@.len(),
    {
        let ghost i = n - rest@.len();
        let e = rest.remove(0);
        proof {
            assert(all.skip(i)[0] == e);
            assert(rest@ =~= all.skip(i + 1));
            assert(all.take(i + 1).drop_last() =~= all.take(i));
            assert(all.take(i + 1).last() == e);
        }
        if is_text(&e.name, "unused-ignore") || (type_ignores && is_text(
            &e.name,
            "unused-type-ignore",
        )) {
            out.push(e);
        }
    }
    assert(all.take(n as int) =~= all);
    out
}

/// Picks the errors that are suppressed.
pub fn errors_to_suppress(errors: Vec<SerializedError>) -> (r: Vec<SerializedError>)
    ensures
        r@ == suppressions(errors@),
{
    let ghost all = errors@;
    let n: usize = errors.len();
    let mut rest = errors;
    let mut out: Vec<SerializedError> = Vec::new();
    assert(all.skip(0) =~= all);
    assert(all.take(0) =~= Seq::empty());
    while rest.len() > 0
        invariant
            rest@.len() <= n,
            n == all.len(),
            rest@ == all.skip(n - rest@.len()),
            out@ == suppressions(all.take(n - rest@.len())),
        decreases rest@.len(),
    {
        let ghost i = n - rest@.len();
        let e = rest.remove(0);
        proof {
            assert(all.skip(i)[0] == e);
            assert(rest@ =~= all.skip(i + 1));
            assert(all.take(i + 1).drop_last() =~= all.take(i));
            assert(all.take(i + 1).last() == e);
        }
        if !e.is_directive && !is_text(&e.name, "unused-ignore") {
            out.push(e);
        }
    }
    assert(all.take(n as int) =~= all);
    out
}

/// An error about a suppression that suppresses nothing is not suppressed itself, which would
/// bring another one of its kind.
pub proof fn law_unused_suppressions_are_not_suppressed(e: SerializedError)
    ensures
        to_remove(e, false) ==> !to_suppress(e),
{
}

/// What the command on suppressions does.
#[derive(Clone, Copy, Debug, PartialEq, Eq, Structural)]
pub enum SuppressPlan {
    /// Removes the unused suppressions that a file of errors names.
    RemoveListed,
    /// Checks the project and removes its unused suppressions.
    RemoveFound,
    /// Suppresses the errors that a file names.
    SuppressListed,
    /// Checks the project and suppresses its errors.
    SuppressFound,
}

/// What is asked of the command on suppressions.
#[derive(Clone, Copy, Debug, PartialEq, Eq, Structural)]
pub struct SuppressOptions {
    /// Whether a file of errors is given.
    pub json: bool,
    pub remove_unused: bool,
    pub remove_unused_type_ignores: bool,
}

/// What the command on suppressions does.
pub open spec fn plan_of(o: SuppressOptions) -> SuppressPlan {
    if o.remove_unused || o.remove_unused_type_ignores {
        if o.json {
            SuppressPlan::RemoveListed
        } else {
            SuppressPlan::RemoveFound
        }
    } else if o.json {
        SuppressPlan::SuppressListed
    } else {
        SuppressPlan::SuppressFound
    }
}

/// Decides what the command on suppressions does.
pub fn make_plan(o: SuppressOptions) -> (r: SuppressPlan)
    ensures
        r == plan_of(o),
{
    if o.remove_unused || o.remove_unused_type_ignores {
        if o.json {
            SuppressPlan::RemoveListed
        } else {
            SuppressPlan::RemoveFound
        }
    } else if o.json {
        SuppressPlan::SuppressListed
    } else {
        SuppressPlan::SuppressFound
    }
}

/// The flag that a check removes unused suppressions with.
pub fn removal_flag(o: SuppressOptions) -> (r: &'static str)
    ensures
        r@ == (if o.remove_unused_type_ignores {
            "--remove-unused-type-ignores"@
        } else {
            "--remove-unused-ignores"@
        }),
{
    if o.remove_unused_type_ignores {
        "--remove-unused-type-ignores"
    } else {
        "--remove-unused-ignores"
    }
}

} // verus!
