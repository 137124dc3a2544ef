use lib::cli::Cli;
use lib::commands::{dispatch, publish_probe};
use lib::container_engine::ContainerEngine;
use lib::context::ExecutionContext;
use lib::env_snapshot::EnvSnapshot;
use lib::impact::Area;
use lib::publish_plans::PublishTarget;
use lib::repo_layout::RepoLayout;

fn context() -> ExecutionContext {
    ExecutionContext {
        company_ci_binary: "company-ci".to_string(),
        container_engine: ContainerEngine::Docker,
        impacted_areas: vec![Area::Docs],
        repo_layout: RepoLayout::company_ci_lab(),
    }
}

fn parse(words: &[&str]) -> Cli {
    Cli::parse(words.iter().map(|w| w.to_string()).collect()).unwrap()
}

#[test]
fn dispatch_picks_the_plan_and_keeps_the_dry_run_flag() {
    let env = EnvSnapshot::new();
    let cases: [(&[&str], &str, bool); 8] = [
        (&["verify", "--dry-run"], "verify", true),
        (&["build"], "build", false),
        (&["test", "--dry-run"], "test", true),
        (&["package"], "package", false),
        (&["image", "build"], "image-build", false),
        (&["image", "publish", "--dry-run"], "image-publish", true),
        (&["deploy", "openshift"], "deploy-openshift", false),
        (&["e2e", "openshift", "--dry-run"], "e2e-openshift", true),
    ];
    for (words, name, dry_run) in cases {
        let (plan, d) = dispatch(&parse(words), &context(), &env, PublishTarget::Missing)
            .unwrap();
        assert_eq!(plan.name, name);
        assert_eq!(d, dry_run);
    }
}

#[test]
fn dispatch_of_publish_uses_the_probed_target() {
    let env = EnvSnapshot::new();
    let cli = parse(&["publish", "maven-lib", "libs/java-lib", "--dry-run"]);
    let (plan, dry_run) = dispatch(
        &cli,
        &context(),
        &env,
        PublishTarget::Directory {
            manifest_is_file: true,
        },
    )
    .unwrap();
    assert_eq!(plan.name, "publish-maven-lib");
    assert!(dry_run);
    let error = dispatch(&cli, &context(), &env, PublishTarget::Missing).unwrap_err();
    assert_eq!(
        error.to_string(),
        "publish project path does not exist: libs/java-lib"
    );
}

#[test]
fn publish_probe_names_the_manifest() {
    let cli = parse(&["publish", "npm-lib", "libs/node-lib"]);
    assert_eq!(
        publish_probe(&cli.command),
        Some((
            "libs/node-lib".to_string(),
            "libs/node-lib/package.json".to_string()
        ))
    );
    let cli = parse(&["publish", "maven-lib", "libs/java-lib/"]);
    assert_eq!(
        publish_probe(&cli.command),
        Some((
            "libs/java-lib/".to_string(),
            "libs/java-lib/pom.xml".to_string()
        ))
    );
    assert_eq!(publish_probe(&parse(&["verify"]).command), None);
}
