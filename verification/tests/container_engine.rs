use lib::container_engine::ContainerEngine;
use lib::env_snapshot::EnvSnapshot;

#[test]
fn parses_supported_engines() {
    assert_eq!(
        ContainerEngine::parse("docker").unwrap(),
        ContainerEngine::Docker
    );
    assert_eq!(
        ContainerEngine::parse("podman").unwrap(),
        ContainerEngine::Podman
    );
}

#[test]
fn rejects_unknown_engine() {
    let error = ContainerEngine::parse("nerdctl").unwrap_err();
    assert!(error.to_string().contains("unsupported container engine"));
}

#[test]
fn engine_value_is_trimmed() {
    assert_eq!(
        ContainerEngine::parse("  podman\n").unwrap(),
        ContainerEngine::Podman
    );
    let error = ContainerEngine::parse(" nerdctl ").unwrap_err();
    assert_eq!(
        error.to_string(),
        "unsupported container engine: nerdctl. Expected docker or podman"
    );
}

#[test]
fn binary_names_parse_back_to_the_engine() {
    for engine in [ContainerEngine::Docker, ContainerEngine::Podman] {
        assert_eq!(ContainerEngine::parse(engine.binary()).unwrap(), engine);
    }
    assert_eq!(ContainerEngine::Docker.binary(), "docker");
    assert_eq!(ContainerEngine::Podman.binary(), "podman");
}

#[test]
fn engine_defaults_to_docker_and_reads_the_environment() {
    let env = EnvSnapshot::new();
    assert_eq!(
        ContainerEngine::from_env(&env).unwrap(),
        ContainerEngine::Docker
    );
    let mut env = EnvSnapshot::new();
    env.set("COMPANY_CI_CONTAINER_ENGINE", "podman");
    assert_eq!(
        ContainerEngine::from_env(&env).unwrap(),
        ContainerEngine::Podman
    );
    let mut env = EnvSnapshot::new();
    env.set_not_unicode("COMPANY_CI_CONTAINER_ENGINE");
    assert_eq!(
        ContainerEngine::from_env(&env).unwrap_err().to_string(),
        "COMPANY_CI_CONTAINER_ENGINE must be valid UTF-8"
    );
}
