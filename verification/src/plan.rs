use vstd::prelude::*;

use crate::settings::{ProgressBarStyle, Summary};

verus! {

/// What a run is asked to do, as far as it decides on its steps.
#[derive(Clone, Copy, Debug, PartialEq, Eq, Structural)]
pub struct RunFlags {
    pub report_pysa: bool,
    pub report_cinderx: bool,
    pub cinderx_include_deps: bool,
    pub report_demand_tree: bool,
    pub progress_bar: ProgressBarStyle,
    pub check_all: bool,
    pub suppress_errors: bool,
    pub remove_unused_ignores: bool,
    pub remove_unused_type_ignores: bool,
    pub baseline: bool,
    pub update_baseline: bool,
    pub output: bool,
    pub count_errors: bool,
    pub summarize_errors: bool,
    pub summary: Summary,
    pub report_timings: bool,
    pub debug_info: bool,
    pub report_glean: bool,
    pub report_binding_memory: bool,
    pub report_trace: bool,
    pub dependency_graph: bool,
    pub expectations: bool,
}

/// A step of a run.
#[derive(Clone, Copy, Debug, PartialEq, Eq, Structural)]
pub enum RunStep {
    StartPysaReport,
    /// Whether modules that were not asked for are reported too.
    StartCinderxReport(bool),
    CollectDemand,
    ShowProgress(ProgressBarStyle),
    Check,
    /// Whether the errors of all modules are loaded, or those of the modules asked for.
    LoadErrors(bool),
    PrintConfigErrors,
    SuppressErrors,
    /// Whether unused `# type: ignore` comments go too.
    RemoveUnusedIgnores(bool),
    UpdateBaseline,
    WriteErrorsToFile,
    WriteErrorsToConsole,
    CountErrors,
    SummarizeErrors,
    Summarize,
    SummarizeFully,
    Upsell,
    ReportTimings,
    WriteDebugInfo,
    WriteGlean,
    FinishPysaReport,
    FinishCinderxReport,
    WriteBindingMemory,
    WriteTrace,
    WriteDependencyGraph,
    WriteDemandTree,
    CheckExpectations,
}

impl RunStep {
    /// Where a step stands among all steps.
    pub open spec fn rank(self) -> int {
        match self {
            RunStep::StartPysaReport => 0int,
            RunStep::StartCinderxReport(_) => 1int,
            RunStep::CollectDemand => 2int,
            RunStep::ShowProgress(_) => 3int,
            RunStep::Check => 4int,
            RunStep::LoadErrors(_) => 5int,
            RunStep::PrintConfigErrors => 6int,
            RunStep::SuppressErrors => 7int,
            RunStep::RemoveUnusedIgnores(_) => 8int,
            RunStep::UpdateBaseline => 9int,
            RunStep::WriteErrorsToFile => 10int,
            RunStep::WriteErrorsToConsole => 11int,
            RunStep::CountErrors => 12int,
            RunStep::SummarizeErrors => 13int,
            RunStep::Summarize => 14int,
            RunStep::SummarizeFully => 15int,
            RunStep::Upsell => 16int,
            RunStep::ReportTimings => 17int,
            RunStep::WriteDebugInfo => 18int,
            RunStep::WriteGlean => 19int,
            RunStep::FinishPysaReport => 20int,
            RunStep::FinishCinderxReport => 21int,
            RunStep::WriteBindingMemory => 22int,
            RunStep::WriteTrace => 23int,
            RunStep::WriteDependencyGraph => 24int,
            RunStep::WriteDemandTree => 25int,
            RunStep::CheckExpectations => 26int,
        }
    }
}

impl RunFlags {
    /// All steps in order, each with whether it is taken.
    pub open spec fn choices(self) -> Seq<(bool, RunStep)> {
        seq![
            (self.report_pysa, RunStep::StartPysaReport),
            (self.report_cinderx, RunStep::StartCinderxReport(self.cinderx_include_deps)),
            (self.report_demand_tree, RunStep::CollectDemand),
            (!self.report_demand_tree, RunStep::ShowProgress(self.progress_bar)),
            (true, RunStep::Check),
            (true, RunStep::LoadErrors(self.check_all)),
            (true, RunStep::PrintConfigErrors),
            (self.suppress_errors, RunStep::SuppressErrors),
            (self.remove_unused_ignores || self.remove_unused_type_ignores, RunStep::RemoveUnusedIgnores(self.remove_unused_type_ignores)),
            (self.update_baseline && self.baseline, RunStep::UpdateBaseline),
            (self.output, RunStep::WriteErrorsToFile),
            (!self.output, RunStep::WriteErrorsToConsole),
            (self.count_errors, RunStep::CountErrors),
            (self.summarize_errors, RunStep::SummarizeErrors),
            (self.summary != Summary::Silent, RunStep::Summarize),
            (self.summary == Summary::Full, RunStep::SummarizeFully),
            (self.summary != Summary::Silent, RunStep::Upsell),
            (self.report_timings, RunStep::ReportTimings),
            (self.debug_info, RunStep::WriteDebugInfo),
            (self.report_glean, RunStep::WriteGlean),
            (self.report_pysa, RunStep::FinishPysaReport),
            (self.report_cinderx, RunStep::FinishCinderxReport),
            (self.report_binding_memory, RunStep::WriteBindingMemory),
            (self.report_trace, RunStep::WriteTrace),
            (self.dependency_graph, RunStep::WriteDependencyGraph),
            (self.report_demand_tree, RunStep::WriteDemandTree),
            (self.expectations, RunStep::CheckExpectations),
        ]
    }

    /// The steps of a run, in order.
    pub open spec fn steps(self) -> Seq<RunStep> {
        taken(self.choices())
    }
}

/// The steps that are taken.
pub open spec fn taken(choices: Seq<(bool, RunStep)>) -> Seq<RunStep>
    decreases choices.len(),
{
    if choices.len() == 0 {
        Seq::empty()
    } else if choices.last().0 {
        taken(choices.drop_last()).push(choices.last().1)
    } else {
        taken(choices.drop_last())
    }
}

fn make_choices(flags: RunFlags) -> (r: Vec<(bool, RunStep)>)
    ensures
        r@ == flags.choices(),
{
    let mut steps: Vec<(bool, RunStep)> = Vec::new();
    steps.push((flags.report_pysa, RunStep::StartPysaReport));
    steps.push((flags.report_cinderx, RunStep::StartCinderxReport(flags.cinderx_include_deps)));
    steps.push((flags.report_demand_tree, RunStep::CollectDemand));
    steps.push((!flags.report_demand_tree, RunStep::ShowProgress(flags.progress_bar)));
    steps.push((true, RunStep::Check));
    steps.push((true, RunStep::LoadErrors(flags.check_all)));
    steps.push((true, RunStep::PrintConfigErrors));
    steps.push((flags.suppress_errors, RunStep::SuppressErrors));
    steps.push((flags.remove_unused_ignores || flags.remove_unused_type_ignores, RunStep::RemoveUnusedIgnores(flags.remove_unused_type_ignores)));
    steps.push((flags.update_baseline && flags.baseline, RunStep::UpdateBaseline));
    steps.push((flags.output, RunStep::WriteErrorsToFile));
    steps.push((!flags.output, RunStep::WriteErrorsToConsole));
    steps.push((flags.count_errors, RunStep::CountErrors));
    steps.push((flags.summarize_errors, RunStep::SummarizeErrors));
    steps.push((flags.summary != Summary::Silent, RunStep::Summarize));
    steps.push((flags.summary == Summary::Full, RunStep::SummarizeFully));
    steps.push((flags.summary != Summary::Silent, RunStep::Upsell));
    steps.push((flags.report_timings, RunStep::ReportTimings));
    steps.push((flags.debug_info, RunStep::WriteDebugInfo));
    steps.push((flags.report_glean, RunStep::WriteGlean));
    steps.push((flags.report_pysa, RunStep::FinishPysaReport));
    steps.push((flags.report_cinderx, RunStep::FinishCinderxReport));
    steps.push((flags.report_binding_memory, RunStep::WriteBindingMemory));
    steps.push((flags.report_trace, RunStep::WriteTrace));
    steps.push((flags.dependency_graph, RunStep::WriteDependencyGraph));
    steps.push((flags.report_demand_tree, RunStep::WriteDemandTree));
    steps.push((flags.expectations, RunStep::CheckExpectations));
    assert(steps@ =~= flags.choices());
    steps
}

/// The steps of a run, in order.
pub fn plan_run(flags: RunFlags) -> (r: Vec<RunStep>)
    ensures
        r@ == flags.steps(),
{
    let choices = make_choices(flags);
    let mut steps: Vec<RunStep> = Vec::new();
    let mut i: usize = 0;
    assert(choices@.take(0) =~= Seq::empty());
    while i < choices.len()
        invariant
            i <= choices@.len(),
            steps@ == taken(choices@.take(i as int)),
        decreases choices@.len() - i,
    {
        assert(choices@.take(i + 1).drop_last() =~= choices@.take(i as int));
        let (condition, step) = choices[i];
        if condition {
            steps.push(step);
        }
        i = i + 1;
    }
    assert(choices@.take(i as int) =~= choices@);
    steps
}

pub(crate) proof fn lemma_taken_in_order(choices: Seq<(bool, RunStep)>)
    requires
        forall|k: int| 0 <= k < choices.len() ==> (#[trigger] choices[k]).1.rank() == k,
    ensures
        forall|i: int|
            0 <= i < taken(choices).len() ==> 0 <= (#[trigger] taken(choices)[i]).rank()
                < choices.len() && choices[taken(choices)[i].rank()] == (true, taken(choices)[i]),
        forall|i: int, j: int|
            0 <= i < j < taken(choices).len() ==> (#[trigger] taken(choices)[i]).rank() < (
            #[trigger] taken(choices)[j]).rank(),
    decreases choices.len(),
{
    if choices.len() > 0 {
        let rest = choices.drop_last();
        assert forall|k: int| 0 <= k < rest.len() implies (#[trigger] rest[k]).1.rank() == k by {
            assert(rest[k] == choices[k]);
        }
        lemma_taken_in_order(rest);
        assert(choices.last() == choices[choices.len() - 1]);
    }
}

pub(crate) proof fn lemma_ranks(flags: RunFlags)
    ensures
        forall|k: int|
            0 <= k < flags.choices().len() ==> (#[trigger] flags.choices()[k]).1.rank() == k,
{
}

/// Without a summary neither the number of errors nor the hint at how to configure the project is
/// shown.
pub proof fn law_silent_runs_show_no_summary(flags: RunFlags, i: int)
    requires
        flags.summary == Summary::Silent,
        0 <= i < flags.steps().len(),
    ensures
        !(flags.steps()[i] is Summarize),
        !(flags.steps()[i] is SummarizeFully),
        !(flags.steps()[i] is Upsell),
{
    lemma_ranks(flags);
    lemma_taken_in_order(flags.choices());
}

/// The errors are written once, and files are changed before that: suppressions, unused ignores
/// and the baseline have been dealt with when the errors are written.
pub proof fn law_files_change_before_errors_are_written(flags: RunFlags, i: int, j: int)
    requires
        0 <= i < flags.steps().len(),
        0 <= j < flags.steps().len(),
        flags.steps()[i] is WriteErrorsToFile || flags.steps()[i] is WriteErrorsToConsole,
    ensures
        flags.steps()[j] is WriteErrorsToFile || flags.steps()[j] is WriteErrorsToConsole
            ==> i == j,
        flags.steps()[j] is SuppressErrors || flags.steps()[j] is RemoveUnusedIgnores
            || flags.steps()[j] is UpdateBaseline ==> j < i,
{
    lemma_ranks(flags);
    lemma_taken_in_order(flags.choices());
    assert(flags.choices()[flags.steps()[i].rank()].0);
    assert(flags.choices()[flags.steps()[j].rank()].0);
}

} // verus!
