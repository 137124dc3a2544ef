use lib::container_engine::ContainerEngine;
use lib::context::ExecutionContext;
use lib::env_snapshot::EnvSnapshot;
use lib::impact::Area;
use lib::repo_layout::RepoLayout;

#[test]
fn affects_everything_when_no_changed_files_are_supplied() {
    let context = ExecutionContext {
        company_ci_binary: "company-ci".to_string(),
        container_engine: ContainerEngine::Docker,
        impacted_areas: vec![
            Area::NextWeb,
            Area::SpringApi,
            Area::NodeLib,
            Area::JavaLib,
            Area::Deploy,
            Area::Tooling,
        ],
        repo_layout: RepoLayout::company_ci_lab(),
    };
    assert!(context.affects(Area::NextWeb));
    assert!(context.affects(Area::JavaLib));
}

#[test]
fn tooling_changes_affect_every_area() {
    let context = ExecutionContext {
        company_ci_binary: "company-ci".to_string(),
        container_engine: ContainerEngine::Docker,
        impacted_areas: vec![Area::Tooling],
        repo_layout: RepoLayout::company_ci_lab(),
    };
    assert!(context.affects(Area::Docs));
    assert!(context.affects(Area::SpringApi));
    let context = ExecutionContext {
        impacted_areas: vec![Area::Docs],
        ..context
    };
    assert!(context.affects(Area::Docs));
    assert!(!context.affects(Area::SpringApi));
}

#[test]
fn resolve_without_changed_files_impacts_every_area() {
    let env = EnvSnapshot::new();
    let context = ExecutionContext::resolve(&env, "/bin/company-ci".to_string()).unwrap();
    assert_eq!(context.impacted_areas.len(), 9);
    assert_eq!(context.container_engine, ContainerEngine::Docker);
    assert_eq!(context.company_ci_binary, "/bin/company-ci");
    assert_eq!(context.repo_layout, RepoLayout::company_ci_lab());
}

#[test]
fn resolve_narrows_to_changed_files() {
    let mut env = EnvSnapshot::new();
    env.set(
        "COMPANY_CI_CHANGED_FILES",
        " docs/architecture.md , ,libs/java-lib/pom.xml,",
    );
    env.set("COMPANY_CI_CONTAINER_ENGINE", "podman");
    let context = ExecutionContext::resolve(&env, "company-ci".to_string()).unwrap();
    assert_eq!(context.impacted_areas, vec![Area::Docs, Area::JavaLib]);
    assert_eq!(context.container_engine, ContainerEngine::Podman);
}

#[test]
fn blank_changed_files_impact_every_area() {
    let mut env = EnvSnapshot::new();
    env.set("COMPANY_CI_CHANGED_FILES", " , ");
    let context = ExecutionContext::resolve(&env, "company-ci".to_string()).unwrap();
    assert_eq!(context.impacted_areas.len(), 9);
}

#[test]
fn resolve_reports_bad_engine() {
    let mut env = EnvSnapshot::new();
    env.set("COMPANY_CI_CONTAINER_ENGINE", "lxc");
    let error = ExecutionContext::resolve(&env, "company-ci".to_string()).unwrap_err();
    assert_eq!(
        error.to_string(),
        "unsupported container engine: lxc. Expected docker or podman"
    );
}
