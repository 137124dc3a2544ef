use lib::cli::Cli;
use lib::commands::dispatch;
use lib::context::ExecutionContext;
use lib::env_snapshot::EnvSnapshot;
use lib::publish_plans::PublishTarget;
use lib::runner::{plan_actions, RunAction};
use std::path::PathBuf;

fn repo_root() -> PathBuf {
    PathBuf::from("/srv/checkout/company-ci-lab")
}

/// What the command prints for `args` in the environment `vars`, or the
/// error it stops with.
fn output(args: &[&str], vars: &[(&str, &str)], target: PublishTarget) -> Result<String, String> {
    let mut env = EnvSnapshot::new();
    for (name, value) in vars {
        env.set(name, value);
    }
    let cli = Cli::parse(args.iter().map(|a| a.to_string()).collect()).map_err(|e| e.to_string())?;
    let context = ExecutionContext::resolve(&env, "/usr/local/bin/company-ci".to_string())
        .map_err(|e| e.to_string())?;
    let (plan, dry_run) =
        dispatch(&cli, &context, &env, target).map_err(|e| e.to_string())?;
    let mut lines = Vec::new();
    for action in plan_actions(&plan, dry_run) {
        match action {
            RunAction::Report(line) => lines.push(line),
            other => panic!("a dry run only reports, got {other:?}"),
        }
    }
    Ok(lines.join("\n"))
}

#[test]
fn verify_dry_run_prints_planned_steps() {
    let stdout = output(&["verify", "--dry-run"], &[], PublishTarget::Missing).unwrap();
    assert!(stdout.contains("[dry-run] verify required tool: java"));
    assert!(stdout.contains("[dry-run] run next-web quality checks"));
}

#[test]
fn verify_can_noop_when_only_docs_changed() {
    let stdout = output(
        &["build", "--dry-run"],
        &[("COMPANY_CI_CHANGED_FILES", "docs/architecture.md")],
        PublishTarget::Missing,
    )
    .unwrap();
    assert!(stdout.contains("no impacted component work detected"));
}

#[test]
fn publish_npm_dry_run_prints_registry_and_tag() {
    let project_dir = repo_root().join("libs/node-lib");
    let stdout = output(
        &[
            "publish",
            "npm-lib",
            project_dir.to_str().unwrap(),
            "--tag",
            "beta",
            "--dry-run",
        ],
        &[],
        PublishTarget::Directory {
            manifest_is_file: true,
        },
    )
    .unwrap();
    assert!(stdout.contains("[dry-run] publish contract: npm-lib"));
    assert!(
        stdout.contains("[dry-run] npm registry url: http://localhost:8081/repository/npm-hosted/")
    );
    assert!(stdout.contains("[dry-run] npm dist-tag: beta"));
    assert!(stdout.contains("[dry-run] build npm-lib"));
}

#[test]
fn publish_rejects_contract_and_path_mismatch() {
    let project_dir = repo_root().join("libs/node-lib");
    let stderr = output(
        &["publish", "maven-lib", project_dir.to_str().unwrap()],
        &[],
        PublishTarget::Directory {
            manifest_is_file: false,
        },
    )
    .unwrap_err();
    assert!(stderr.contains(&format!(
        "invalid publish target: maven-lib requires {}/pom.xml",
        project_dir.display()
    )));
}

#[test]
fn maven_dry_run_prints_contract_path_and_destination() {
    let project_dir = repo_root().join("libs/java-lib");
    let stdout = output(
        &[
            "publish",
            "maven-lib",
            project_dir.to_str().unwrap(),
            "--dry-run",
        ],
        &[],
        PublishTarget::Directory {
            manifest_is_file: true,
        },
    )
    .unwrap();
    assert!(stdout.contains("[dry-run] publish contract: maven-lib"));
    assert!(stdout.contains(&format!(
        "[dry-run] publish path: {}",
        project_dir.display()
    )));
    assert!(stdout
        .contains("[dry-run] maven deploy url: http://localhost:8081/repository/maven-snapshots/"));
    assert!(stdout.contains("[dry-run] verify required tool: ./mvnw"));
}

#[test]
fn real_run_checks_before_it_runs() {
    let mut env = EnvSnapshot::new();
    env.set("COMPANY_CI_CHANGED_FILES", "libs/java-lib/pom.xml");
    let cli = Cli::parse(vec!["build".to_string()]).unwrap();
    let context = ExecutionContext::resolve(&env, "company-ci".to_string()).unwrap();
    let (plan, dry_run) = dispatch(&cli, &context, &env, PublishTarget::Missing).unwrap();
    assert!(!dry_run);
    assert_eq!(
        plan_actions(&plan, dry_run),
        vec![
            RunAction::CheckTool(0),
            RunAction::CheckTool(1),
            RunAction::Run(0),
        ]
    );
}
