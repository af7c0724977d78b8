use vstd::prelude::*;

use crate::error::{Error, ErrorView, Severity};
use crate::github::{workflow_commands, write_error_github};
use crate::legacy::{LegacyError, LegacyErrors};
use crate::paths::{FilePath, PathView};
use crate::renderer::{error_text, origin_text, render_plain, shows};
use crate::settings::OutputFormat;
use crate::xml::{error_views, junit_text, write_error_junit_xml};

verus! {

/// What is written of errors.
pub enum Written {
    Text(String),
    /// Records, which are written as JSON.
    Records(LegacyErrors),
    Nothing,
}

/// Errors as they are shown without paint.
pub open spec fn errors_text(errors: Seq<ErrorView>, root: PathView, verbose: bool) -> Seq<char>
    decreases errors.len(),
{
    if errors.len() == 0 {
        Seq::empty()
    } else {
        errors_text(errors.drop_last(), root, verbose) + error_text(errors.last(), root, verbose)
    }
}

/// Whether errors can be shown with their source.
pub open spec fn all_show(errors: Seq<ErrorView>, root: PathView) -> bool {
    forall|i: int|
        0 <= i < errors.len() && (#[trigger] errors[i]).severity != Severity::Ignore ==> shows(
            errors[i],
            origin_text(errors[i], root),
        )
}

/// Whether errors and their labels lie in their modules.
pub open spec fn all_fit(errors: Seq<ErrorView>) -> bool {
    forall|i: int| 0 <= i < errors.len() ==> (#[trigger] errors[i]).wf() && errors[i].labels_fit()
}

fn write_error_text(root: &FilePath, errors: &Vec<Error>, verbose: bool) -> (r: String)
    requires
        all_fit(error_views(errors@)),
        verbose ==> all_show(error_views(errors@), root@),
    ensures
        r@ == errors_text(error_views(errors@), root@, verbose),
{
    let mut out = String::new();
    let mut i: usize = 0;
    let ghost all = error_views(errors@);
    assert(all.take(0) =~= Seq::empty());
    while i < errors.len()
        invariant
            i <= errors@.len(),
            all == error_views(errors@),
            all_fit(all),
            verbose ==> all_show(all, root@),
            out@ == errors_text(all.take(i as int), root@, verbose),
        decreases errors@.len() - i,
    {
        assert(all.take(i + 1).drop_last() =~= all.take(i as int));
        assert(all.take(i + 1).last() == all[i as int]);
        assert(all[i as int] == errors@[i as int]@);
        assert(all[i as int].wf());
        let text = render_plain(&errors[i], root, verbose);
        out.append(text.as_str());
        i = i + 1;
    }
    assert(all.take(i as int) =~= all);
    out
}

/// Whether this is written of errors in a format.
pub open spec fn is_written(
    w: Written,
    format: OutputFormat,
    relative_to: PathView,
    errors: Seq<ErrorView>,
) -> bool {
    match format {
        OutputFormat::MinText => w matches Written::Text(t) && t@ == errors_text(
            errors,
            relative_to,
            false,
        ),
        OutputFormat::FullText => w matches Written::Text(t) && t@ == errors_text(
            errors,
            relative_to,
            true,
        ),
        OutputFormat::Json => w matches Written::Records(l) && l.errors@.len() == errors.len()
            && forall|i: int|
            0 <= i < errors.len() ==> (#[trigger] l.errors@[i]).records(relative_to, errors[i]),
        OutputFormat::Github => w matches Written::Text(t) && t@ == workflow_commands(errors),
        OutputFormat::JunitXml => w matches Written::Text(t) && t@ == junit_text(
            errors,
            relative_to,
        ),
        OutputFormat::OmitErrors => w is Nothing,
    }
}

/// What is written of errors to a file, in the format that is asked for.
pub fn write_errors(format: OutputFormat, relative_to: &FilePath, errors: &Vec<Error>) -> (r: Written)
    requires
        all_fit(error_views(errors@)),
        format == OutputFormat::FullText ==> all_show(error_views(errors@), relative_to@),
    ensures
        is_written(r, format, relative_to@, error_views(errors@)),
{
    match format {
        OutputFormat::MinText => Written::Text(write_error_text(relative_to, errors, false)),
        OutputFormat::FullText => Written::Text(write_error_text(relative_to, errors, true)),
        OutputFormat::Json => {
            let records = LegacyErrors::from_errors(relative_to, errors);
            assert forall|i: int| 0 <= i < errors@.len() implies (
            #[trigger] records.errors@[i]).records(relative_to@, error_views(errors@)[i]) by {
                assert(error_views(errors@)[i] == errors@[i]@);
            }
            Written::Records(records)
        },
        OutputFormat::Github => Written::Text(write_error_github(errors)),
        OutputFormat::JunitXml => Written::Text(write_error_junit_xml(relative_to, errors)),
        OutputFormat::OmitErrors => Written::Nothing,
    }
}

/// What a run is reported to have found.
pub struct CheckResult {
    pub legacy_errors: Vec<LegacyError>,
    /// How many files were checked.
    pub checked_file_count: usize,
}

impl CheckResult {
    /// The result of a run that found errors.
    pub fn from_errors(errors: &Vec<Error>, relative_to: &FilePath, checked_file_count: usize) -> (r:
        CheckResult)
        ensures
            r.checked_file_count == checked_file_count,
            r.legacy_errors@.len() == errors@.len(),
            forall|i: int|
                0 <= i < errors@.len() ==> (#[trigger] r.legacy_errors@[i]).records(
                    relative_to@,
                    errors@[i]@,
                ),
    {
        CheckResult {
            legacy_errors: LegacyErrors::from_errors(relative_to, errors).errors,
            checked_file_count,
        }
    }

    /// The result of a run that had no file to check.
    pub fn nothing_checked() -> (r: CheckResult)
        ensures
            r.legacy_errors@.len() == 0,
            r.checked_file_count == 0,
    {
        CheckResult { legacy_errors: Vec::new(), checked_file_count: 0 }
    }
}

} // verus!
