use lib::error::CompanyCiError;
use lib::requirements::EnvRequirement;
use lib::text::{decimal_text, join, split, trim};

#[test]
fn every_error_has_its_message() {
    let cases = vec![
        (CompanyCiError::Runtime("boom".into()), "boom"),
        (
            CompanyCiError::MissingTool {
                plan: "verify".into(),
                tool: "node".into(),
            },
            "required tool not found on PATH for plan verify: node",
        ),
        (
            CompanyCiError::MissingEnv {
                plan: "p".into(),
                name: "A".into(),
            },
            "missing required env for plan p: A",
        ),
        (
            CompanyCiError::MissingSecretEnv {
                plan: "p".into(),
                name: "S".into(),
            },
            "missing required secret env for plan p: S",
        ),
        (
            CompanyCiError::MissingEnvFile {
                plan: "p".into(),
                name: "F".into(),
                path: "/x".into(),
            },
            "required env file not found for plan p: F -> /x",
        ),
        (
            CompanyCiError::MissingEnvOrFile {
                plan: "p".into(),
                env_name: "E".into(),
                file_env_name: "F".into(),
            },
            "missing required secret env or env file for plan p: E|F",
        ),
        (
            CompanyCiError::InvalidEnvValue {
                plan: "p".into(),
                name: "V".into(),
                message: "bad".into(),
            },
            "invalid env value for plan p: V (bad)",
        ),
        (
            CompanyCiError::CommandFailed {
                command: "false".into(),
                status: -2,
            },
            "command failed with status -2: false",
        ),
        (
            CompanyCiError::CommandFailed {
                command: "exit 3".into(),
                status: 3,
            },
            "command failed with status 3: exit 3",
        ),
    ];
    for (error, message) in cases {
        assert_eq!(error.to_string(), message);
    }
}

#[test]
fn requirement_names_and_dry_run_messages() {
    let plain = EnvRequirement::variable("URL");
    let secret = EnvRequirement::secret("TOKEN");
    let either = EnvRequirement::secret_or_file("PW", "PW_FILE");
    let plain_file = EnvRequirement::VariableOrFile {
        variable_name: "A".into(),
        file_name: "B".into(),
        secret: false,
    };
    assert_eq!(plain.display_name(), "URL");
    assert_eq!(either.display_name(), "PW|PW_FILE");
    assert_eq!(plain.dry_run_message(), "verify required env: URL");
    assert_eq!(secret.dry_run_message(), "verify required secret env: TOKEN");
    assert_eq!(
        either.dry_run_message(),
        "verify required secret env or file: PW|PW_FILE"
    );
    assert_eq!(plain_file.dry_run_message(), "verify required env or file: A|B");
    assert!(plain.same_as(&EnvRequirement::variable("URL")));
    assert!(!plain.same_as(&EnvRequirement::secret("URL")));
}

#[test]
fn text_helpers() {
    assert_eq!(trim("\t a b \u{3000}"), "a b");
    assert_eq!(trim("   "), "");
    assert_eq!(split("a,,b", ','), vec!["a", "", "b"]);
    assert_eq!(split("", ','), vec![""]);
    assert_eq!(
        join(&vec!["x".to_string(), "y".to_string()], ", "),
        "x, y"
    );
    assert_eq!(decimal_text(0), "0");
    assert_eq!(decimal_text(1234567890), "1234567890");
}
