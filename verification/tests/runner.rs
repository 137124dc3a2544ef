use lib::plan::{Plan, Step};
use lib::requirements::EnvRequirement;
use lib::env_snapshot::EnvSnapshot;
use lib::error::CompanyCiError;
use lib::runner::{
    after_action, env_check, first_action, plan_actions, step_outcome, tool_check, EnvCheck,
    RunAction, RunProgress,
};

struct RecordingRunner {
    checked_tools: Vec<String>,
    checked_env: Vec<String>,
    commands: Vec<String>,
    reports: Vec<String>,
}

impl RecordingRunner {
    fn new() -> Self {
        Self {
            checked_tools: Vec::new(),
            checked_env: Vec::new(),
            commands: Vec::new(),
            reports: Vec::new(),
        }
    }

    fn run_plan(&mut self, plan: &Plan, dry_run: bool) {
        for action in plan_actions(plan, dry_run) {
            match action {
                RunAction::Report(line) => self.reports.push(line),
                RunAction::CheckTool(i) => self.checked_tools.push(plan.required_tools[i].clone()),
                RunAction::CheckEnv(i) => self.checked_env.push(plan.required_env[i].display_name()),
                RunAction::Run(i) => self.commands.push(plan.steps[i].command.join(" ")),
            }
        }
    }
}

#[test]
fn run_plan_executes_all_steps_when_not_dry_run() {
    let mut runner = RecordingRunner::new();
    let plan = Plan::new(
        "sample",
        vec![
            Step {
                description: "one".into(),
                command: vec!["echo".into()],
            },
            Step {
                description: "two".into(),
                command: vec!["true".into()],
            },
        ],
    )
    .with_required_tools(vec!["node".to_string(), "npm".to_string()])
    .with_required_env(vec![EnvRequirement::variable("SAMPLE_ENV")]);
    runner.run_plan(&plan, false);
    assert_eq!(runner.checked_tools.as_slice(), ["node", "npm"]);
    assert_eq!(runner.checked_env.as_slice(), ["SAMPLE_ENV"]);
    assert_eq!(runner.commands.len(), 2);
}

#[test]
fn run_plan_skips_execution_for_dry_run() {
    let mut runner = RecordingRunner::new();
    let plan = Plan::new(
        "sample",
        vec![Step {
            description: "one".into(),
            command: vec!["echo".into()],
        }],
    )
    .with_required_tools(vec!["node".to_string()])
    .with_required_env(vec![EnvRequirement::secret("SAMPLE_SECRET")]);
    runner.run_plan(&plan, true);
    assert!(runner.checked_tools.is_empty());
    assert!(runner.checked_env.is_empty());
    assert!(runner.commands.is_empty());
}

#[test]
fn dry_run_reports_notes_tools_env_and_steps_in_order() {
    let plan = Plan::new(
        "sample",
        vec![Step {
            description: "one".into(),
            command: vec!["echo".into(), "hi".into()],
        }],
    )
    .with_required_tools(vec!["node".to_string()])
    .with_required_env(vec![
        EnvRequirement::secret("SAMPLE_SECRET"),
        EnvRequirement::secret_or_file("PW", "PW_FILE"),
    ])
    .with_dry_run_notes(vec!["publish contract: maven-lib".to_string()]);
    let actions = plan_actions(&plan, true);
    assert_eq!(
        actions,
        vec![
            RunAction::Report("[dry-run] publish contract: maven-lib".to_string()),
            RunAction::Report("[dry-run] verify required tool: node".to_string()),
            RunAction::Report("[dry-run] verify required secret env: SAMPLE_SECRET".to_string()),
            RunAction::Report(
                "[dry-run] verify required secret env or file: PW|PW_FILE".to_string()
            ),
            RunAction::Report("[dry-run] one => echo hi".to_string()),
        ]
    );
}

#[test]
fn real_run_checks_everything_before_running_steps() {
    let plan = Plan::new(
        "sample",
        vec![
            Step {
                description: "one".into(),
                command: vec!["echo".into()],
            },
            Step {
                description: "two".into(),
                command: vec!["true".into()],
            },
        ],
    )
    .with_required_tools(vec!["node".to_string()])
    .with_required_env(vec![EnvRequirement::variable("A")])
    .with_dry_run_notes(vec!["ignored".to_string()]);
    assert_eq!(
        plan_actions(&plan, false),
        vec![
            RunAction::CheckTool(0),
            RunAction::CheckEnv(0),
            RunAction::Run(0),
            RunAction::Run(1)
        ]
    );
}

#[test]
fn env_checks_follow_the_environment() {
    let mut env = EnvSnapshot::new();
    env.set("PRESENT", "value");
    env.set("BLANK", "   ");
    env.set("PASSWORD_FILE", " /run/secrets/pw ");
    let plain = EnvRequirement::variable("PRESENT");
    assert!(matches!(env_check("deploy", &plain, &env), EnvCheck::Satisfied));
    match env_check("deploy", &EnvRequirement::variable("BLANK"), &env) {
        EnvCheck::Missing(e) => {
            assert_eq!(e.to_string(), "missing required env for plan deploy: BLANK")
        }
        other => panic!("unexpected {other:?}"),
    }
    match env_check("deploy", &EnvRequirement::secret("TOKEN"), &env) {
        EnvCheck::Missing(e) => assert_eq!(
            e.to_string(),
            "missing required secret env for plan deploy: TOKEN"
        ),
        other => panic!("unexpected {other:?}"),
    }
    match env_check(
        "deploy",
        &EnvRequirement::secret_or_file("PASSWORD", "MISSING_FILE"),
        &env,
    ) {
        EnvCheck::Missing(e) => assert_eq!(
            e.to_string(),
            "missing required secret env or env file for plan deploy: PASSWORD|MISSING_FILE"
        ),
        other => panic!("unexpected {other:?}"),
    }
    match env_check(
        "deploy",
        &EnvRequirement::secret_or_file("PASSWORD", "PASSWORD_FILE"),
        &env,
    ) {
        EnvCheck::FileAt { path, otherwise } => {
            assert_eq!(path, " /run/secrets/pw ");
            assert_eq!(
                otherwise.to_string(),
                "required env file not found for plan deploy: PASSWORD_FILE ->  /run/secrets/pw "
            );
        }
        other => panic!("unexpected {other:?}"),
    }
    assert!(matches!(
        env_check(
            "deploy",
            &EnvRequirement::secret_or_file("PRESENT", "PASSWORD_FILE"),
            &env
        ),
        EnvCheck::Satisfied
    ));
}

#[test]
fn tool_and_step_outcomes() {
    assert!(tool_check("verify", "java", true).is_ok());
    assert_eq!(
        tool_check("verify", "java", false).unwrap_err().to_string(),
        "required tool not found on PATH for plan verify: java"
    );
    let step = Step {
        description: "build".to_string(),
        command: vec!["npm".to_string(), "run".to_string(), "build".to_string()],
    };
    assert!(step_outcome(&step, true, Some(0)).is_ok());
    assert_eq!(
        step_outcome(&step, false, Some(2)).unwrap_err().to_string(),
        "command failed with status 2: npm run build"
    );
    assert_eq!(
        step_outcome(&step, false, None).unwrap_err().to_string(),
        "command failed with status 1: npm run build"
    );
}

/// Drives a run over `outcomes.len()` actions, the action at `k` finishing
/// with `outcomes[k]`; gives the actions performed and the outcome.
fn drive(outcomes: Vec<Result<(), CompanyCiError>>) -> (Vec<usize>, Result<(), String>) {
    let total = outcomes.len();
    let mut outcomes: Vec<Option<Result<(), CompanyCiError>>> = outcomes.into_iter().map(Some).collect();
    let mut performed = Vec::new();
    let mut progress = first_action(total);
    loop {
        match progress {
            RunProgress::Done(outcome) => return (performed, outcome.map_err(|e| e.to_string())),
            RunProgress::Next(i) => {
                performed.push(i);
                progress = after_action(total, i, outcomes[i].take().unwrap());
            }
        }
    }
}

#[test]
fn run_stops_at_the_first_failure() {
    let (performed, outcome) = drive(vec![
        Ok(()),
        Err(CompanyCiError::MissingTool {
            plan: "build".to_string(),
            tool: "java".to_string(),
        }),
        Ok(()),
    ]);
    assert_eq!(performed, vec![0, 1]);
    assert_eq!(
        outcome,
        Err("required tool not found on PATH for plan build: java".to_string())
    );
    let (performed, outcome) = drive(vec![Ok(()), Ok(()), Ok(())]);
    assert_eq!(performed, vec![0, 1, 2]);
    assert_eq!(outcome, Ok(()));
    let (performed, outcome) = drive(Vec::new());
    assert!(performed.is_empty());
    assert_eq!(outcome, Ok(()));
}
