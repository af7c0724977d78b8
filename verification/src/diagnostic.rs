use lsp_types::Url;
use vstd::prelude::*;

use crate::error::{Error, ErrorView, Severity};
use crate::position::{lsp_shown, LspRange};
use crate::stub::opt_text;
use crate::text::is_text;

verus! {

/// How serious a diagnostic is to an editor.
#[derive(Clone, Copy, Debug, PartialEq, Eq, Structural)]
pub enum DiagnosticSeverity {
    Error,
    Warning,
    Information,
}

/// An error as an editor takes it.
pub struct Diagnostic {
    pub range: LspRange,
    pub severity: DiagnosticSeverity,
    pub source: String,
    pub message: String,
    pub code: String,
    /// Where the kind of the error is described.
    pub code_description: Option<String>,
    /// Whether what the error is about is deprecated.
    pub deprecated: bool,
}

/// What `Url::parse` of the `url` crate, as `lsp_types` gives it on, reads from a text: the URL in
/// its normal form, where the text holds one.
pub uninterp spec fn parsed_url(text: Seq<char>) -> Option<Seq<char>>;

/// Calls `Url::parse`. The result depends on the text alone: none where parsing fails, and else
/// the serialization that `Url::as_str` gives. Which texts are URLs, and what their normal form
/// is, is not stated: the rules take pages.
#[verifier::external_body]
fn parse_url(text: &str) -> (r: Option<String>)
    ensures
        opt_text(r) == parsed_url(text@),
{
    Url::parse(text).ok().map(|url| url.as_str().to_owned())
}

/// How serious an error is to an editor.
pub open spec fn editor_severity(severity: Severity) -> DiagnosticSeverity {
    match severity {
        Severity::Error => DiagnosticSeverity::Error,
        Severity::Warn => DiagnosticSeverity::Warning,
        Severity::Info => DiagnosticSeverity::Information,
        Severity::Ignore => DiagnosticSeverity::Information,
    }
}

/// Whether this is the diagnostic for an error, with the URL that the kind of the error is
/// described at.
pub open spec fn describes(d: Diagnostic, error: ErrorView, url: Option<Seq<char>>) -> bool {
    &&& lsp_shown(error.module, error.range, d.range)
    &&& d.severity == editor_severity(error.severity)
    &&& d.source@ == "Pyrefly"@
    &&& d.message@ == error.msg()
    &&& d.code@ == error.error_kind.name
    &&& opt_text(d.code_description) == url
    &&& d.deprecated == (error.error_kind.name == "deprecated"@)
}

/// The diagnostic for an error, with the URL that the kind of the error is described at.
pub fn make_diagnostic(error: &Error, url: Option<String>) -> (r: Diagnostic)
    requires
        error@.wf(),
    ensures
        describes(r, error@, opt_text(url)),
{
    Diagnostic {
        range: error.module.to_lsp_range(error.range),
        severity: match error.severity {
            Severity::Error => DiagnosticSeverity::Error,
            Severity::Warn => DiagnosticSeverity::Warning,
            Severity::Info => DiagnosticSeverity::Information,
            Severity::Ignore => DiagnosticSeverity::Information,
        },
        source: "Pyrefly".to_owned(),
        message: error.msg(),
        code: error.error_kind.name.clone(),
        code_description: url,
        deprecated: is_text(&error.error_kind.name, "deprecated"),
    }
}

impl Error {
    /// The diagnostic for the error.
    pub fn to_diagnostic(&self) -> (r: Diagnostic)
        requires
            self@.wf(),
        ensures
            describes(r, self@, parsed_url(self@.error_kind.docs_url)),
    {
        let url = parse_url(self.error_kind.docs_url.as_str());
        make_diagnostic(self, url)
    }
}

} // verus!
