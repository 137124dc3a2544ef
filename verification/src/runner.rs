//! The order in which a runner acts on a plan: in a dry run it only
//! reports, otherwise it checks every tool and env contract before it runs
//! any step.
use vstd::prelude::*;
use crate::env_snapshot::{EnvSnapshot, EnvSnapshotView};
use crate::error::{CompanyCiError, ErrorView};
use crate::plan::{Plan, PlanView, Step};
use crate::requirements::{spec_dry_run_message, EnvRequirement, EnvRequirementView};
use crate::text::{is_blank, is_blank_chars, join, seq_join};

verus! {

/// One thing a runner does for a plan. Indices refer to the plan's
/// `required_tools`, `required_env` and `steps`.
#[derive(Debug, Clone, PartialEq, Eq)]
pub enum RunAction {
    Report(String),
    CheckTool(usize),
    CheckEnv(usize),
    Run(usize),
}

/// The value of a run action.
pub enum RunActionView {
    Report(Seq<char>),
    CheckTool(int),
    CheckEnv(int),
    Run(int),
}

impl View for RunAction {
    type V = RunActionView;

    open spec fn view(&self) -> RunActionView {
        match self {
            RunAction::Report(line) => RunActionView::Report(line@),
            RunAction::CheckTool(i) => RunActionView::CheckTool(*i as int),
            RunAction::CheckEnv(i) => RunActionView::CheckEnv(*i as int),
            RunAction::Run(i) => RunActionView::Run(*i as int),
        }
    }
}

/// The values of a list of run actions.
pub open spec fn actions_view(actions: Seq<RunAction>) -> Seq<RunActionView> {
    actions.map_values(|a: RunAction| a@)
}

/// What a dry run reports, line by line: the notes, then each tool, env
/// contract and step it would have checked or run.
pub open spec fn dry_run_lines(p: PlanView) -> Seq<Seq<char>> {
    p.dry_run_notes.map_values(|n: Seq<char>| "[dry-run] "@ + n) + p.required_tools.map_values(
        |t: Seq<char>| "[dry-run] verify required tool: "@ + t,
    ) + p.required_env.map_values(
        |r: crate::requirements::EnvRequirementView| "[dry-run] "@ + spec_dry_run_message(r),
    ) + p.steps.map_values(
        |s: crate::plan::StepView| "[dry-run] "@ + s.description + " => "@ + seq_join(s.command, " "@),
    )
}

/// The actions for a plan: report lines in a dry run; otherwise every
/// tool check, then every env check, then every step, each in plan order.
pub open spec fn spec_plan_actions(p: PlanView, dry_run: bool) -> Seq<RunActionView> {
    if dry_run {
        dry_run_lines(p).map_values(|l: Seq<char>| RunActionView::Report(l))
    } else {
        Seq::new(p.required_tools.len(), |i: int| RunActionView::CheckTool(i)) + Seq::new(
            p.required_env.len(),
            |i: int| RunActionView::CheckEnv(i),
        ) + Seq::new(p.steps.len(), |i: int| RunActionView::Run(i))
    }
}

fn report_lines(plan: &Plan) -> (r: Vec<String>)
    ensures
        r.deep_view() == dry_run_lines(plan@),
{
    let ghost p = plan@;
    let mut lines: Vec<String> = Vec::new();
    let mut i: usize = 0;
    while i < plan.dry_run_notes.len()
        invariant
            p == plan@,
            i <= plan.dry_run_notes.len(),
            lines.deep_view() =~= p.dry_run_notes.take(i as int).map_values(
                |n: Seq<char>| "[dry-run] "@ + n,
            ),
        decreases plan.dry_run_notes.len() - i,
    {
        let ghost before = lines.deep_view();
        lines.push("[dry-run] ".to_owned().concat(plan.dry_run_notes[i].as_str()));
        assert(lines.deep_view() =~= before.push("[dry-run] "@ + p.dry_run_notes[i as int]));
        i += 1;
    }
    let ghost a = lines.deep_view();
    assert(p.dry_run_notes.take(i as int) =~= p.dry_run_notes);
    let mut i: usize = 0;
    while i < plan.required_tools.len()
        invariant
            p == plan@,
            i <= plan.required_tools.len(),
            lines.deep_view() =~= a + p.required_tools.take(i as int).map_values(
                |t: Seq<char>| "[dry-run] verify required tool: "@ + t,
            ),
        decreases plan.required_tools.len() - i,
    {
        let ghost before = lines.deep_view();
        lines.push(
            "[dry-run] verify required tool: ".to_owned().concat(plan.required_tools[i].as_str()),
        );
        assert(lines.deep_view() =~= before.push(
            "[dry-run] verify required tool: "@ + p.required_tools[i as int],
        ));
        i += 1;
    }
    let ghost b = lines.deep_view();
    assert(p.required_tools.take(i as int) =~= p.required_tools);
    let mut i: usize = 0;
    while i < plan.required_env.len()
        invariant
            p == plan@,
            i <= plan.required_env.len(),
            lines.deep_view() =~= b + p.required_env.take(i as int).map_values(
                |r: crate::requirements::EnvRequirementView| "[dry-run] "@ + spec_dry_run_message(r),
            ),
        decreases plan.required_env.len() - i,
    {
        let ghost before = lines.deep_view();
        lines.push("[dry-run] ".to_owned().concat(plan.required_env[i].dry_run_message().as_str()));
        assert(lines.deep_view() =~= before.push(
            "[dry-run] "@ + spec_dry_run_message(p.required_env[i as int]),
        ));
        i += 1;
    }
    let ghost c = lines.deep_view();
    assert(p.required_env.take(i as int) =~= p.required_env);
    let mut i: usize = 0;
    while i < plan.steps.len()
        invariant
            p == plan@,
            i <= plan.steps.len(),
            lines.deep_view() =~= c + p.steps.take(i as int).map_values(
                |s: crate::plan::StepView| "[dry-run] "@ + s.description + " => "@ + seq_join(
                    s.command,
                    " "@,
                ),
            ),
        decreases plan.steps.len() - i,
    {
        let ghost before = lines.deep_view();
        let step = &plan.steps[i];
        lines.push(
            "[dry-run] ".to_owned().concat(step.description.as_str()).concat(" => ").concat(
                join(&step.command, " ").as_str(),
            ),
        );
        assert(lines.deep_view() =~= before.push(
            "[dry-run] "@ + p.steps[i as int].description + " => "@ + seq_join(
                p.steps[i as int].command,
                " "@,
            ),
        ));
        i += 1;
    }
    assert(p.steps.take(i as int) =~= p.steps);
    lines
}

/// The actions a runner takes for `plan`.
pub fn plan_actions(plan: &Plan, dry_run: bool) -> (r: Vec<RunAction>)
    ensures
        actions_view(r@) == spec_plan_actions(plan@, dry_run),
{
    let ghost p = plan@;
    let mut actions: Vec<RunAction> = Vec::new();
    if dry_run {
        let lines = report_lines(plan);
        let ghost all = lines.deep_view();
        let mut lines = lines;
        let mut taken: usize = 0;
        let total = lines.len();
        while lines.len() > 0
            invariant
                all.len() == total,
                taken <= total,
                lines@.len() + taken == total,
                lines.deep_view() == all.skip(taken as int),
                actions_view(actions@) =~= all.take(taken as int).map_values(
                    |l: Seq<char>| RunActionView::Report(l),
                ),
            decreases lines.len(),
        {
            let ghost before = lines.deep_view();
            let ghost before_vec = lines@;
            let line = lines.remove(0);
            proof {
                assert(before[0] == line@);
                assert(all.skip(taken as int)[0] == all[taken as int]);
                assert forall|k: int| 0 <= k < lines@.len() implies #[trigger] lines.deep_view()[k]
                    == all.skip(taken + 1)[k] by {
                    assert(lines@[k] == before_vec[k + 1]);
                    assert(before[k + 1] == all.skip(taken as int)[k + 1]);
                }
                assert(lines.deep_view() =~= all.skip(taken + 1));
            }
            let ghost acts = actions_view(actions@);
            actions.push(RunAction::Report(line));
            assert(actions_view(actions@) =~= acts.push(RunActionView::Report(all[taken as int])));
            taken += 1;
        }
        assert(all.take(taken as int) =~= all);
        return actions;
    }
    let mut i: usize = 0;
    while i < plan.required_tools.len()
        invariant
            i <= plan.required_tools.len(),
            actions_view(actions@) =~= Seq::new(i as nat, |k: int| RunActionView::CheckTool(k)),
        decreases plan.required_tools.len() - i,
    {
        let ghost prev = actions@;
        assert(actions_view(prev).len() == prev.len());
        actions.push(RunAction::CheckTool(i));
        assert forall|k: int| 0 <= k < prev.len() implies #[trigger] actions_view(actions@)[k]
            == actions_view(prev)[k] by {
            assert(actions_view(actions@).len() == actions@.len());
            assert(actions@[k] == prev[k]);
        }
        assert(actions_view(actions@) =~= Seq::new((i + 1) as nat, |k: int| RunActionView::CheckTool(k)));
        i += 1;
    }
    let ghost a = actions_view(actions@);
    let mut i: usize = 0;
    while i < plan.required_env.len()
        invariant
            i <= plan.required_env.len(),
            actions_view(actions@) =~= a + Seq::new(i as nat, |k: int| RunActionView::CheckEnv(k)),
        decreases plan.required_env.len() - i,
    {
        let ghost prev = actions@;
        assert(actions_view(prev).len() == prev.len());
        actions.push(RunAction::CheckEnv(i));
        assert forall|k: int| 0 <= k < prev.len() implies #[trigger] actions_view(actions@)[k]
            == actions_view(prev)[k] by {
            assert(actions_view(actions@).len() == actions@.len());
            assert(actions@[k] == prev[k]);
        }
        assert(actions_view(actions@) =~= a + Seq::new((i + 1) as nat, |k: int| RunActionView::CheckEnv(k)));
        i += 1;
    }
    let ghost b = actions_view(actions@);
    let mut i: usize = 0;
    while i < plan.steps.len()
        invariant
            i <= plan.steps.len(),
            actions_view(actions@) =~= b + Seq::new(i as nat, |k: int| RunActionView::Run(k)),
        decreases plan.steps.len() - i,
    {
        let ghost prev = actions@;
        assert(actions_view(prev).len() == prev.len());
        actions.push(RunAction::Run(i));
        assert forall|k: int| 0 <= k < prev.len() implies #[trigger] actions_view(actions@)[k]
            == actions_view(prev)[k] by {
            assert(actions_view(actions@).len() == actions@.len());
            assert(actions@[k] == prev[k]);
        }
        assert(actions_view(actions@) =~= b + Seq::new((i + 1) as nat, |k: int| RunActionView::Run(k)));
        i += 1;
    }
    actions
}

/// What the environment alone shows of an env contract in a real run.
#[derive(Debug)]
pub enum EnvCheck {
    /// The contract holds.
    Satisfied,
    /// The contract fails with this error.
    Missing(CompanyCiError),
    /// The contract holds when a file exists at `path`, and fails with
    /// `otherwise` when none does.
    FileAt { path: String, otherwise: CompanyCiError },
}

/// The value of an env contract check.
pub enum EnvCheckView {
    Satisfied,
    Missing(ErrorView),
    FileAt { path: Seq<char>, otherwise: ErrorView },
}

impl View for EnvCheck {
    type V = EnvCheckView;

    open spec fn view(&self) -> EnvCheckView {
        match self {
            EnvCheck::Satisfied => EnvCheckView::Satisfied,
            EnvCheck::Missing(e) => EnvCheckView::Missing(e@),
            EnvCheck::FileAt { path, otherwise } => EnvCheckView::FileAt {
                path: path@,
                otherwise: otherwise@,
            },
        }
    }
}

/// How a real run judges an env contract of plan `plan`: a variable must be
/// set and not blank; a variable that may be replaced by a file is
/// satisfied by a non-blank value, else the file variable must name a path
/// that is not blank, and a file must exist there.
pub open spec fn spec_env_check(
    plan: Seq<char>,
    r: EnvRequirementView,
    env: EnvSnapshotView,
) -> EnvCheckView {
    match r {
        EnvRequirementView::Variable { name, secret } => if env.non_blank_var(name) is Some {
            EnvCheckView::Satisfied
        } else if secret {
            EnvCheckView::Missing(ErrorView::MissingSecretEnv { plan, name })
        } else {
            EnvCheckView::Missing(ErrorView::MissingEnv { plan, name })
        },
        EnvRequirementView::VariableOrFile { variable_name, file_name, .. } => if env.non_blank_var(
            variable_name,
        ) is Some {
            EnvCheckView::Satisfied
        } else {
            let path = match env.var(file_name) {
                Some(p) => p,
                None => Seq::empty(),
            };
            if is_blank_chars(path) {
                EnvCheckView::Missing(
                    ErrorView::MissingEnvOrFile {
                        plan,
                        env_name: variable_name,
                        file_env_name: file_name,
                    },
                )
            } else {
                EnvCheckView::FileAt {
                    path,
                    otherwise: ErrorView::MissingEnvFile { plan, name: file_name, path },
                }
            }
        },
    }
}

/// Judges the env contract `requirement` of the plan named `plan_name`
/// against `env`; a file contract is left to the caller's file system.
pub fn env_check(plan_name: &str, requirement: &EnvRequirement, env: &EnvSnapshot) -> (r: EnvCheck)
    ensures
        r@ == spec_env_check(plan_name@, requirement@, env@),
{
    match requirement {
        EnvRequirement::Variable { name, secret } => {
            if env.non_blank_var(name.as_str()).is_some() {
                EnvCheck::Satisfied
            } else if *secret {
                EnvCheck::Missing(
                    CompanyCiError::MissingSecretEnv { plan: plan_name.to_owned(), name: name.clone() },
                )
            } else {
                EnvCheck::Missing(
                    CompanyCiError::MissingEnv { plan: plan_name.to_owned(), name: name.clone() },
                )
            }
        },
        EnvRequirement::VariableOrFile { variable_name, file_name, .. } => {
            if env.non_blank_var(variable_name.as_str()).is_some() {
                return EnvCheck::Satisfied;
            }
            let path = match env.var(file_name.as_str()) {
                Some(p) => p,
                None => String::new(),
            };
            if is_blank(path.as_str()) {
                EnvCheck::Missing(
                    CompanyCiError::MissingEnvOrFile {
                        plan: plan_name.to_owned(),
                        env_name: variable_name.clone(),
                        file_env_name: file_name.clone(),
                    },
                )
            } else {
                EnvCheck::FileAt {
                    otherwise: CompanyCiError::MissingEnvFile {
                        plan: plan_name.to_owned(),
                        name: file_name.clone(),
                        path: path.clone(),
                    },
                    path,
                }
            }
        },
    }
}

/// The outcome of checking a required tool of the plan named `plan_name`,
/// given whether it was found on `PATH`.
pub fn tool_check(plan_name: &str, tool: &str, found: bool) -> (r: Result<(), CompanyCiError>)
    ensures
        match r {
            Ok(()) => found,
            Err(e) => !found && e@ == (ErrorView::MissingTool { plan: plan_name@, tool: tool@ }),
        },
{
    if found {
        Ok(())
    } else {
        Err(CompanyCiError::MissingTool { plan: plan_name.to_owned(), tool: tool.to_owned() })
    }
}

/// The outcome of running `step`, given whether its process succeeded and
/// the exit code it reported; a process without a code counts as code 1.
pub fn step_outcome(step: &Step, success: bool, code: Option<i32>) -> (r: Result<(), CompanyCiError>)
    ensures
        match r {
            Ok(()) => success,
            Err(e) => !success && e@ == (ErrorView::CommandFailed {
                command: seq_join(step@.command, " "@),
                status: match code {
                    Some(c) => c as int,
                    None => 1,
                },
            }),
        },
{
    if success {
        Ok(())
    } else {
        let status: i32 = match code {
            Some(c) => c,
            None => 1,
        };
        Err(CompanyCiError::CommandFailed { command: join(&step.command, " "), status })
    }
}

/// Where a run over a list of actions stands: the action to perform next,
/// or the run is over with its outcome.
#[derive(Debug)]
pub enum RunProgress {
    Next(usize),
    Done(Result<(), CompanyCiError>),
}

/// The value of a run's progress.
pub enum RunProgressView {
    Next(int),
    Done(Result<(), ErrorView>),
}

/// The value of an action's outcome.
pub open spec fn unit_outcome(r: Result<(), CompanyCiError>) -> Result<(), ErrorView> {
    match r {
        Ok(()) => Ok(()),
        Err(e) => Err(e@),
    }
}

impl View for RunProgress {
    type V = RunProgressView;

    open spec fn view(&self) -> RunProgressView {
        match self {
            RunProgress::Next(i) => RunProgressView::Next(*i as int),
            RunProgress::Done(r) => RunProgressView::Done(unit_outcome(*r)),
        }
    }
}

/// How a run over `total` actions starts: with the first action, or done
/// at once when there is none.
pub open spec fn spec_first_action(total: nat) -> RunProgressView {
    if total == 0 {
        RunProgressView::Done(Ok(()))
    } else {
        RunProgressView::Next(0)
    }
}

/// How a run over `total` actions goes on once the action at `index`
/// finished with `result`: a failure ends the run with that failure;
/// otherwise the following action is next, or the run ends well after the
/// last one.
pub open spec fn spec_after_action(total: nat, index: int, result: Result<(), ErrorView>) -> RunProgressView {
    match result {
        Err(e) => RunProgressView::Done(Err(e)),
        Ok(()) => if index + 1 < total {
            RunProgressView::Next(index + 1)
        } else {
            RunProgressView::Done(Ok(()))
        },
    }
}

/// The start of a run over `total` actions.
pub fn first_action(total: usize) -> (r: RunProgress)
    ensures
        r@ == spec_first_action(total as nat),
{
    if total == 0 {
        RunProgress::Done(Ok(()))
    } else {
        RunProgress::Next(0)
    }
}

/// What a run over `total` actions does after the action at `index`
/// finished with `result`.
pub fn after_action(total: usize, index: usize, result: Result<(), CompanyCiError>) -> (r: RunProgress)
    ensures
        r@ == spec_after_action(total as nat, index as int, unit_outcome(result)),
{
    match result {
        Err(e) => RunProgress::Done(Err(e)),
        Ok(()) => if index < total && index + 1 < total {
            RunProgress::Next(index + 1)
        } else {
            RunProgress::Done(Ok(()))
        },
    }
}

/// A run over `total` actions from the action at `index` on, where the
/// action at `k` would finish with `results[k]`: how many actions it
/// performs, and its outcome.
pub open spec fn run_from(total: nat, results: Seq<Result<(), ErrorView>>, index: nat) -> (
    nat,
    Result<(), ErrorView>,
)
    decreases total - index,
{
    if index >= total {
        (0, Ok(()))
    } else {
        match spec_after_action(total, index as int, results[index as int]) {
            RunProgressView::Done(outcome) => (1, outcome),
            RunProgressView::Next(_) => {
                let rest = run_from(total, results, index + 1);
                ((rest.0 + 1) as nat, rest.1)
            },
        }
    }
}

/// A run that follows `first_action` and `after_action` performs exactly
/// the actions `run_from` counts: each step takes the next action or ends
/// the run with the outcome `run_from` gives.
pub proof fn lemma_run_steps(total: nat, results: Seq<Result<(), ErrorView>>, index: nat)
    requires
        index < total,
    ensures
        match spec_after_action(total, index as int, results[index as int]) {
            RunProgressView::Done(outcome) => run_from(total, results, index) == (1nat, outcome),
            RunProgressView::Next(j) => j == index + 1 && run_from(total, results, index) == (
                (run_from(total, results, index + 1).0 + 1) as nat,
                run_from(total, results, index + 1).1,
            ),
        },
{
}

/// A real run stops at the first action that fails: it performs that
/// action and those before it, no later one, and ends with its error.
pub proof fn lemma_run_stops_at_first_failure(
    total: nat,
    results: Seq<Result<(), ErrorView>>,
    failed: nat,
)
    requires
        results.len() == total,
        failed < total,
        results[failed as int] is Err,
        forall|k: int| 0 <= k < failed ==> #[trigger] results[k] is Ok,
    ensures
        run_from(total, results, 0) == (failed + 1, results[failed as int]),
{
    lemma_run_from_failure(total, results, failed, 0);
}

proof fn lemma_run_from_failure(
    total: nat,
    results: Seq<Result<(), ErrorView>>,
    failed: nat,
    index: nat,
)
    requires
        results.len() == total,
        failed < total,
        index <= failed,
        results[failed as int] is Err,
        forall|k: int| 0 <= k < failed ==> #[trigger] results[k] is Ok,
    ensures
        run_from(total, results, index) == ((failed + 1 - index) as nat, results[failed as int]),
    decreases failed - index,
{
    if index < failed {
        assert(results[index as int] is Ok);
        lemma_run_from_failure(total, results, failed, index + 1);
    }
}

/// A real run in which no action fails performs every action and succeeds.
pub proof fn lemma_run_all_succeed(total: nat, results: Seq<Result<(), ErrorView>>)
    requires
        results.len() == total,
        forall|k: int| 0 <= k < total ==> #[trigger] results[k] is Ok,
    ensures
        run_from(total, results, 0) == (total, Ok::<(), ErrorView>(())),
{
    lemma_run_from_success(total, results, 0);
}

proof fn lemma_run_from_success(total: nat, results: Seq<Result<(), ErrorView>>, index: nat)
    requires
        results.len() == total,
        index <= total,
        forall|k: int| 0 <= k < total ==> #[trigger] results[k] is Ok,
    ensures
        run_from(total, results, index) == ((total - index) as nat, Ok::<(), ErrorView>(())),
    decreases total - index,
{
    if index < total {
        assert(results[index as int] is Ok);
        lemma_run_from_success(total, results, index + 1);
    }
}

/// A dry run only reports: it checks nothing and runs nothing.
pub proof fn lemma_dry_run_only_reports(p: PlanView, k: int)
    requires
        0 <= k < spec_plan_actions(p, true).len(),
    ensures
        spec_plan_actions(p, true)[k] is Report,
{
}

/// A real run checks every required tool, then every env contract, then
/// runs every step, each once and in plan order: no check follows a step.
pub proof fn lemma_preflight_before_steps(p: PlanView)
    ensures
        spec_plan_actions(p, false).len() == p.required_tools.len() + p.required_env.len()
            + p.steps.len(),
        forall|i: int|
            0 <= i < p.required_tools.len() ==> #[trigger] spec_plan_actions(p, false)[i]
                == RunActionView::CheckTool(i),
        forall|i: int|
            0 <= i < p.required_env.len() ==> #[trigger] spec_plan_actions(p, false)[p.required_tools.len() + i]
                == RunActionView::CheckEnv(i),
        forall|i: int|
            0 <= i < p.steps.len() ==> #[trigger] spec_plan_actions(p, false)[p.required_tools.len()
                + p.required_env.len() + i] == RunActionView::Run(i),
        forall|a: int, b: int|
            0 <= a < b < spec_plan_actions(p, false).len() && (#[trigger] spec_plan_actions(p, false)[a]) is Run
                ==> (#[trigger] spec_plan_actions(p, false)[b]) is Run,
{
    let acts = spec_plan_actions(p, false);
    let t = p.required_tools.len() as int;
    let e = p.required_env.len() as int;
    assert forall|a: int, b: int|
        0 <= a < b < acts.len() && (#[trigger] acts[a]) is Run implies (#[trigger] acts[b]) is Run by {
        assert(a >= t + e);
    }
}

} // verus!
