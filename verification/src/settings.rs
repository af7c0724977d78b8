use vstd::prelude::*;

use crate::error::Severity;
use crate::paths::{FilePath, PathView};

verus! {

/// How errors are written.
#[derive(Clone, Copy, Debug, PartialEq, Eq, Structural)]
pub enum OutputFormat {
    MinText,
    FullText,
    Json,
    Github,
    JunitXml,
    OmitErrors,
}

/// How much is said about a run.
#[derive(Clone, Copy, Debug, PartialEq, Eq, Structural)]
pub enum Summary {
    Silent,
    Default,
    Full,
}

/// How the progress of a run is shown.
#[derive(Clone, Copy, Debug, PartialEq, Eq, Structural)]
pub enum ProgressBarStyle {
    Interactive,
    Simple,
    No,
}

/// What is kept of a module once it is checked.
#[derive(Clone, Copy, Debug, PartialEq, Eq, Structural)]
pub enum Require {
    Exports,
    Errors,
    Everything,
}

/// What is kept of the modules that are named, and of all others.
#[derive(Clone, Copy, Debug, PartialEq, Eq, Structural)]
pub struct RequireLevels {
    pub specified: Require,
    pub default: Require,
}

/// Settings on output that can be given on the command line or by a configuration.
pub struct OutputSettings {
    pub baseline: Option<FilePath>,
    pub output_format: Option<OutputFormat>,
    pub min_severity: Option<Severity>,
}

/// Settings as plain text.
pub struct SettingsView {
    pub baseline: Option<PathView>,
    pub output_format: Option<OutputFormat>,
    pub min_severity: Option<Severity>,
}

/// A path that may be there, as plain text.
pub open spec fn opt_path(path: Option<FilePath>) -> Option<PathView> {
    match path {
        Some(p) => Some(p@),
        None => None,
    }
}

impl View for OutputSettings {
    type V = SettingsView;

    open spec fn view(&self) -> SettingsView {
        SettingsView {
            baseline: opt_path(self.baseline),
            output_format: self.output_format,
            min_severity: self.min_severity,
        }
    }
}

/// What is given, or else the default.
pub open spec fn or_else<T>(given: Option<T>, default: Option<T>) -> Option<T> {
    match given {
        Some(_) => given,
        None => default,
    }
}

/// Which settings were given on the command line.
#[derive(Clone, Copy, Debug, PartialEq, Eq, Structural)]
pub struct GivenSettings {
    pub baseline: bool,
    pub output_format: bool,
    pub min_severity: bool,
}

impl SettingsView {
    /// The settings with defaults where nothing is given.
    pub open spec fn with_defaults(self, config: SettingsView) -> SettingsView {
        SettingsView {
            baseline: or_else(self.baseline, config.baseline),
            output_format: or_else(self.output_format, config.output_format),
            min_severity: or_else(self.min_severity, config.min_severity),
        }
    }

    /// The settings that were given.
    pub open spec fn as_given(self, given: GivenSettings) -> SettingsView {
        SettingsView {
            baseline: if given.baseline {
                self.baseline
            } else {
                None
            },
            output_format: if given.output_format {
                self.output_format
            } else {
                None
            },
            min_severity: if given.min_severity {
                self.min_severity
            } else {
                None
            },
        }
    }

    /// Which settings are there.
    pub open spec fn given(self) -> GivenSettings {
        GivenSettings {
            baseline: self.baseline is Some,
            output_format: self.output_format is Some,
            min_severity: self.min_severity is Some,
        }
    }
}

impl OutputSettings {
    /// Takes settings that are not given from a configuration.
    pub fn inherit_defaults_from_config(&mut self, config: &OutputSettings)
        ensures
            final(self)@ == old(self)@.with_defaults(config@),
    {
        if self.baseline.is_none() {
            self.baseline = match &config.baseline {
                Some(path) => Some(path.dupe()),
                None => None,
            };
        }
        if self.output_format.is_none() {
            self.output_format = config.output_format;
        }
        if self.min_severity.is_none() {
            self.min_severity = config.min_severity;
        }
    }

    /// Which settings are given.
    pub fn get_given(&self) -> (r: GivenSettings)
        ensures
            r == self@.given(),
    {
        GivenSettings {
            baseline: self.baseline.is_some(),
            output_format: self.output_format.is_some(),
            min_severity: self.min_severity.is_some(),
        }
    }

    /// Whether a setting is missing that a configuration may give.
    pub fn needs_config(&self) -> (r: bool)
        ensures
            r == (self@.baseline is None || self@.output_format is None || self@.min_severity
                is None),
    {
        self.baseline.is_none() || self.output_format.is_none() || self.min_severity.is_none()
    }

    /// While files are watched, takes the settings that were not given on the command line from the
    /// configuration again, which may have changed.
    pub fn refresh_from_config(&mut self, given: GivenSettings, config: &OutputSettings)
        ensures
            final(self)@ == old(self)@.as_given(given).with_defaults(config@),
    {
        if !given.baseline {
            self.baseline = None;
        }
        if !given.output_format {
            self.output_format = None;
        }
        if !given.min_severity {
            self.min_severity = None;
        }
        self.inherit_defaults_from_config(config);
    }

    /// How errors are written: in full, unless something else is asked.
    pub fn output_format(&self) -> (r: OutputFormat)
        ensures
            r == (match self@.output_format {
                Some(f) => f,
                None => OutputFormat::FullText,
            }),
    {
        match self.output_format {
            Some(f) => f,
            None => OutputFormat::FullText,
        }
    }
}

/// What was given on the command line is not changed by a configuration, and with the same
/// configuration a second time changes nothing.
pub proof fn law_given_settings_stay(settings: SettingsView, config: SettingsView)
    ensures
        settings.baseline is Some ==> settings.with_defaults(config).baseline == settings.baseline,
        settings.output_format is Some ==> settings.with_defaults(config).output_format
            == settings.output_format,
        settings.min_severity is Some ==> settings.with_defaults(config).min_severity
            == settings.min_severity,
        settings.with_defaults(config).with_defaults(config) == settings.with_defaults(config),
{
}

/// While files are watched, only what was given on the command line and the configuration as it is
/// now count, whatever the configuration was before.
pub proof fn law_watching_follows_the_config(
    given: SettingsView,
    before: SettingsView,
    now: SettingsView,
)
    ensures
        given.with_defaults(before).as_given(given.given()).with_defaults(now)
            == given.with_defaults(now),
{
}

/// How the progress of a run is shown: as it is asked, and not at all where nothing is to be said.
pub open spec fn progress_style(
    asked: Option<ProgressBarStyle>,
    no_progress_bar: bool,
    summary: Summary,
) -> ProgressBarStyle {
    match asked {
        Some(style) => style,
        None => if no_progress_bar || summary == Summary::Silent {
            ProgressBarStyle::No
        } else {
            ProgressBarStyle::Interactive
        },
    }
}

pub fn progress_bar_style(
    asked: Option<ProgressBarStyle>,
    no_progress_bar: bool,
    summary: Summary,
) -> (r: ProgressBarStyle)
    ensures
        r == progress_style(asked, no_progress_bar, summary),
{
    match asked {
        Some(style) => style,
        None => if no_progress_bar || summary == Summary::Silent {
            ProgressBarStyle::No
        } else {
            ProgressBarStyle::Interactive
        },
    }
}

/// The reports that are asked for, and what else decides on what is kept of modules.
#[derive(Clone, Copy, Debug, PartialEq, Eq, Structural)]
pub struct ReportFlags {
    pub binding_memory: bool,
    pub debug_info: bool,
    pub trace: bool,
    pub glean: bool,
    pub pysa: bool,
    pub cinderx: bool,
    pub check_all: bool,
    /// Whether the standard library is looked for in a place of its own.
    pub stdlib_search_path: bool,
}

/// What is kept of modules: everything where a report reads it, errors of all modules where those
/// are asked for, and else errors of the modules that are named only.
pub open spec fn required_levels(flags: ReportFlags) -> RequireLevels {
    if flags.binding_memory || flags.debug_info || flags.trace || flags.glean {
        RequireLevels { specified: Require::Everything, default: Require::Everything }
    } else if flags.check_all || flags.stdlib_search_path || flags.pysa || flags.cinderx {
        RequireLevels { specified: Require::Errors, default: Require::Errors }
    } else {
        RequireLevels { specified: Require::Errors, default: Require::Exports }
    }
}

pub fn get_required_levels(flags: ReportFlags) -> (r: RequireLevels)
    ensures
        r == required_levels(flags),
{
    let retain = flags.binding_memory || flags.debug_info || flags.trace || flags.glean;
    let specified = if retain {
        Require::Everything
    } else {
        Require::Errors
    };
    let default = if retain {
        Require::Everything
    } else if flags.check_all || flags.stdlib_search_path || flags.pysa || flags.cinderx {
        Require::Errors
    } else {
        Require::Exports
    };
    RequireLevels { specified, default }
}

} // verus!
