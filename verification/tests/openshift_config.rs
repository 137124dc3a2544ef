use lib::env_snapshot::EnvSnapshot;
use lib::error::CompanyCiError;
use lib::openshift_config::OpenshiftConfig;
use lib::requirements::EnvRequirement;

fn from_map(entries: &[(&str, &str)]) -> Result<OpenshiftConfig, CompanyCiError> {
    let mut env = EnvSnapshot::new();
    for (key, value) in entries {
        env.set(key, value);
    }
    OpenshiftConfig::from_lookup("deploy-openshift", &env)
}

#[test]
fn defaults_skip_tls_verify_to_false() {
    let config = from_map(&[]).unwrap();
    assert!(!config.skip_tls_verify());
}

#[test]
fn accepts_truthy_skip_tls_verify() {
    let config = from_map(&[("COMPANY_CI_OPENSHIFT_SKIP_TLS_VERIFY", "yes")]).unwrap();
    assert!(config.skip_tls_verify());
}

#[test]
fn rejects_invalid_skip_tls_verify_values() {
    let error = from_map(&[("COMPANY_CI_OPENSHIFT_SKIP_TLS_VERIFY", "sometimes")]).unwrap_err();
    assert_eq!(
        error.to_string(),
        "invalid env value for plan deploy-openshift: COMPANY_CI_OPENSHIFT_SKIP_TLS_VERIFY (expected one of: true, false, 1, 0, yes, no)"
    );
}

#[test]
fn skip_tls_verify_is_read_in_any_case_after_trimming() {
    for value in [" TRUE ", "1", "Yes"] {
        let config = from_map(&[("COMPANY_CI_OPENSHIFT_SKIP_TLS_VERIFY", value)]).unwrap();
        assert!(config.skip_tls_verify(), "{value}");
    }
    for value in ["False", "0", " no", "", "   "] {
        let config = from_map(&[("COMPANY_CI_OPENSHIFT_SKIP_TLS_VERIFY", value)]).unwrap();
        assert!(!config.skip_tls_verify(), "{value}");
    }
}

#[test]
fn login_command_adds_insecure_flag_only_when_skipping() {
    let config = from_map(&[("COMPANY_CI_OPENSHIFT_SKIP_TLS_VERIFY", "true")]).unwrap();
    assert_eq!(
        config.login_command(),
        "oc login \"$COMPANY_CI_OPENSHIFT_API_URL\" --token \"$COMPANY_CI_OPENSHIFT_TOKEN\" --insecure-skip-tls-verify=true"
    );
    let config = from_map(&[]).unwrap();
    assert_eq!(
        config.login_command(),
        "oc login \"$COMPANY_CI_OPENSHIFT_API_URL\" --token \"$COMPANY_CI_OPENSHIFT_TOKEN\""
    );
}

#[test]
fn auth_requirements_name_url_and_token() {
    assert_eq!(
        OpenshiftConfig::auth_requirements(),
        vec![
            EnvRequirement::variable("COMPANY_CI_OPENSHIFT_API_URL"),
            EnvRequirement::secret("COMPANY_CI_OPENSHIFT_TOKEN"),
        ]
    );
}
