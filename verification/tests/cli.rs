use lib::cli::{Cli, Command, ImageCommand, PublishCommand};
use lib::error::CompanyCiError;

fn args(words: &[&str]) -> Vec<String> {
    words.iter().map(|w| w.to_string()).collect()
}

#[test]
fn parses_nested_command_with_dry_run() {
    let cli = Cli::parse(vec!["image".into(), "build".into(), "--dry-run".into()]).unwrap();
    match cli.command {
        Command::Image(ImageCommand::Build(args)) => assert!(args.dry_run),
        _ => panic!("expected image build"),
    }
}

#[test]
fn parses_maven_publish_target_with_dry_run() {
    let cli = Cli::parse(vec![
        "publish".into(),
        "maven-lib".into(),
        "libs/java-lib".into(),
        "--dry-run".into(),
    ])
    .unwrap();
    match cli.command {
        Command::Publish(PublishCommand::MavenLib(args)) => {
            assert_eq!(args.path, "libs/java-lib");
            assert!(args.dry_run);
        }
        _ => panic!("expected maven-lib publish"),
    }
}

#[test]
fn parses_npm_publish_target_with_tag() {
    let cli = Cli::parse(vec![
        "publish".into(),
        "npm-lib".into(),
        "libs/node-lib".into(),
        "--tag".into(),
        "beta".into(),
        "--dry-run".into(),
    ])
    .unwrap();
    match cli.command {
        Command::Publish(PublishCommand::NpmLib(args)) => {
            assert_eq!(args.path, "libs/node-lib");
            assert_eq!(args.tag, "beta");
            assert!(args.dry_run);
        }
        _ => panic!("expected npm-lib publish"),
    }
}

#[test]
fn rejects_tag_for_maven_publish() {
    let error = Cli::parse(vec![
        "publish".into(),
        "maven-lib".into(),
        "libs/java-lib".into(),
        "--tag".into(),
        "ci".into(),
    ])
    .unwrap_err();
    assert_eq!(
        error.to_string(),
        "--tag is only supported for publish npm-lib"
    );
}

#[test]
fn publish_requires_contract() {
    let error = Cli::parse(vec!["publish".into()]).unwrap_err();
    assert!(matches!(error, CompanyCiError::Usage(_)));
}

#[test]
fn publish_requires_path() {
    let error = Cli::parse(vec!["publish".into(), "maven-lib".into()]).unwrap_err();
    assert!(matches!(error, CompanyCiError::Usage(_)));
}

#[test]
fn rejects_kubernetes_deploy_command() {
    let error = Cli::parse(vec!["deploy".into(), "kubernetes".into()]).unwrap_err();
    assert_eq!(error.to_string(), "unknown deploy command: kubernetes");
}

#[test]
fn rejects_legacy_env_command() {
    let error =
        Cli::parse(vec!["env".into(), "up".into(), "repository".into()]).unwrap_err();
    assert_eq!(error.to_string(), "unknown command: env");
}

#[test]
fn rejects_legacy_openshift_local_e2e_command() {
    let error = Cli::parse(vec!["e2e".into(), "openshift-local".into()]).unwrap_err();
    assert_eq!(error.to_string(), "unknown e2e command: openshift-local");
}

#[test]
fn rejects_unknown_publish_contract() {
    let error = Cli::parse(vec![
        "publish".into(),
        "python-lib".into(),
        "libs/example".into(),
    ])
    .unwrap_err();
    assert_eq!(error.to_string(), "unknown publish contract: python-lib");
}

#[test]
fn every_top_level_command_accepts_dry_run() {
    for word in ["verify", "build", "test", "package"] {
        let cli = Cli::parse(args(&[word, "--dry-run"])).unwrap();
        let dry_run = match cli.command {
            Command::Verify(a) | Command::Build(a) | Command::Test(a) | Command::Package(a) => {
                a.dry_run
            }
            _ => panic!("unexpected command for {word}"),
        };
        assert!(dry_run);
    }
    let cli = Cli::parse(args(&["verify"])).unwrap();
    assert!(matches!(cli.command, Command::Verify(a) if !a.dry_run));
}

#[test]
fn dry_run_may_be_repeated() {
    let cli = Cli::parse(args(&["test", "--dry-run", "--dry-run"])).unwrap();
    assert!(matches!(cli.command, Command::Test(a) if a.dry_run));
}

#[test]
fn no_arguments_and_help_give_usage() {
    for input in [vec![], args(&["help"]), args(&["--help"]), args(&["-h"])] {
        let error = Cli::parse(input).unwrap_err();
        match error {
            CompanyCiError::Usage(text) => {
                assert!(text.starts_with("Usage:\n  company-ci verify [--dry-run]\n"));
                assert!(text.ends_with("\n  e2e openshift"));
                assert_eq!(text.lines().count(), 21);
            }
            other => panic!("expected usage, got {other:?}"),
        }
    }
}

#[test]
fn unknown_flag_is_rejected_before_the_subcommand() {
    let error = Cli::parse(args(&["image", "push", "--force"])).unwrap_err();
    assert_eq!(error.to_string(), "unknown argument: --force");
    let error = Cli::parse(args(&["image", "push"])).unwrap_err();
    assert_eq!(error.to_string(), "unknown image command: push");
    let error = Cli::parse(args(&["build", "--verbose"])).unwrap_err();
    assert_eq!(error.to_string(), "unknown argument: --verbose");
}

#[test]
fn missing_subcommands_give_usage() {
    for word in ["image", "deploy", "e2e"] {
        let error = Cli::parse(args(&[word])).unwrap_err();
        assert!(matches!(error, CompanyCiError::Usage(_)));
    }
}

#[test]
fn npm_publish_defaults_tag_to_ci() {
    let cli = Cli::parse(args(&["publish", "npm-lib", "libs/node-lib"])).unwrap();
    match cli.command {
        Command::Publish(PublishCommand::NpmLib(a)) => {
            assert_eq!(a.tag, "ci");
            assert!(!a.dry_run);
        }
        _ => panic!("expected npm-lib publish"),
    }
}

#[test]
fn publish_operand_errors() {
    let error = Cli::parse(args(&["publish", "npm-lib", "libs/node-lib", "--tag"])).unwrap_err();
    assert_eq!(error.to_string(), "missing value for --tag");
    let error =
        Cli::parse(args(&["publish", "npm-lib", "libs/node-lib", "--tag", "  "])).unwrap_err();
    assert_eq!(error.to_string(), "npm publish tag must not be empty");
    let error = Cli::parse(args(&["publish", "maven-lib", "a", "b"])).unwrap_err();
    assert_eq!(error.to_string(), "unexpected argument: b");
    let error = Cli::parse(args(&["publish", "maven-lib", "a", "-x"])).unwrap_err();
    assert_eq!(error.to_string(), "unknown argument: -x");
}

#[test]
fn deploy_and_e2e_parse_openshift() {
    let cli = Cli::parse(args(&["deploy", "openshift"])).unwrap();
    assert!(matches!(cli.command, lib::cli::Command::Deploy(_)));
    let cli = Cli::parse(args(&["e2e", "openshift", "--dry-run"])).unwrap();
    assert!(matches!(cli.command, lib::cli::Command::E2e(_)));
}
