use lib::component_plans::{build_plan, package_plan, test_plan, verify_plan};
use lib::container_engine::ContainerEngine;
use lib::context::ExecutionContext;
use lib::env_snapshot::EnvSnapshot;
use lib::image_plans::{image_build_command, image_build_plan, image_publish_plan, image_push_command};
use lib::impact::Area;
use lib::openshift_plans::{deploy_openshift_plan, e2e_openshift_plan};
use lib::plan::{noop_step, sh_quote, Plan, Step};
use lib::publish_plans::{publish_maven_lib_plan, publish_npm_lib_plan, PublishTarget};
use lib::repo_layout::RepoLayout;
use lib::requirements::EnvRequirement;
use std::path::PathBuf;

fn context(areas: &[Area]) -> ExecutionContext {
    ExecutionContext {
        company_ci_binary: "company-ci".to_string(),
        container_engine: ContainerEngine::Docker,
        impacted_areas: areas.to_vec(),
        repo_layout: RepoLayout::company_ci_lab(),
    }
}

fn repo_root() -> PathBuf {
    PathBuf::from("/srv/checkout/company-ci-lab")
}

fn project_with_manifest() -> PublishTarget {
    PublishTarget::Directory {
        manifest_is_file: true,
    }
}

#[test]
fn verify_plan_contains_requested_component_checks() {
    let plan = verify_plan(&context(&[Area::NextWeb, Area::NodeLib]));
    assert_eq!(plan.name, "verify");
    assert!(plan
        .steps
        .iter()
        .any(|step| step.description.contains("next-web")));
    assert!(plan
        .steps
        .iter()
        .any(|step| step.description.contains("node-lib")));
    assert!(!plan
        .steps
        .iter()
        .any(|step| step.description.contains("java-lib")));
    assert_eq!(
        plan.required_tools,
        vec!["node".to_string(), "npm".to_string()]
    );
}

#[test]
fn build_plan_noops_when_nothing_is_impacted() {
    let plan = build_plan(&ExecutionContext {
        company_ci_binary: "company-ci".to_string(),
        container_engine: ContainerEngine::Docker,
        impacted_areas: vec![Area::Docs],
        repo_layout: RepoLayout::company_ci_lab(),
    });
    assert_eq!(
        plan.steps,
        vec![noop_step("no impacted component work detected")]
    );
    assert!(plan.required_tools.is_empty());
}

#[test]
fn publish_maven_lib_plan_requires_java_tools_for_java_lib() {
    let project_dir = repo_root().join("libs/java-lib");
    let plan = publish_maven_lib_plan(
        &RepoLayout::company_ci_lab(),
        project_dir.to_str().unwrap(),
        project_with_manifest(),
        &EnvSnapshot::new(),
    )
    .unwrap();
    assert!(plan
        .steps
        .iter()
        .any(|step| step.description.contains("publish maven-lib")));
    assert_eq!(
        plan.required_tools,
        vec!["java".to_string(), "./mvnw".to_string()]
    );
    assert!(plan
        .dry_run_notes
        .iter()
        .any(|note| note.contains("maven deploy url")));
}

#[test]
fn publish_npm_lib_plan_requires_node_tools_for_node_lib() {
    let project_dir = repo_root().join("libs/node-lib");
    let plan = publish_npm_lib_plan(
        &RepoLayout::company_ci_lab(),
        project_dir.to_str().unwrap(),
        "ci",
        project_with_manifest(),
        &EnvSnapshot::new(),
    )
    .unwrap();
    assert_eq!(
        plan.required_tools,
        vec!["node".to_string(), "npm".to_string()]
    );
    assert!(plan
        .steps
        .iter()
        .any(|step| step.description.contains("build npm-lib")));
    assert!(plan
        .dry_run_notes
        .iter()
        .any(|note| note.contains("npm dist-tag: ci")));
}

#[test]
fn publish_maven_lib_plan_rejects_non_maven_project_directory() {
    let project_dir = repo_root().join("libs/node-lib");
    let error = publish_maven_lib_plan(
        &RepoLayout::company_ci_lab(),
        project_dir.to_str().unwrap(),
        PublishTarget::Directory {
            manifest_is_file: false,
        },
        &EnvSnapshot::new(),
    )
    .unwrap_err();
    assert_eq!(
        error.to_string(),
        format!(
            "invalid publish target: maven-lib requires {}/pom.xml",
            project_dir.display()
        )
    );
}

#[test]
fn deploy_openshift_plan_creates_pull_secret_and_checks_routes() {
    let plan = deploy_openshift_plan(&context(&[Area::Deploy]), &EnvSnapshot::new()).unwrap();
    assert!(plan
        .steps
        .iter()
        .any(|step| step.description.contains("apply registry pull secret")));
    assert!(plan
        .steps
        .iter()
        .any(|step| step.command.join(" ").contains("check-route.sh next-web /")));
    assert!(plan.steps.iter().any(|step| step
        .command
        .join(" ")
        .contains("${COMPANY_CI_IMAGE_PULL_REGISTRY}")));
    assert!(plan.required_tools.iter().any(|tool| tool == "oc"));
    assert!(plan.required_tools.iter().any(|tool| tool == "curl"));
    assert!(plan.required_env.iter().any(|requirement| {
        matches!(
            requirement,
            EnvRequirement::Variable { name, .. } if name == "COMPANY_CI_OPENSHIFT_API_URL"
        )
    }));
}

#[test]
fn e2e_openshift_plan_publishes_images_and_deploys() {
    let plan = e2e_openshift_plan(&context(&[Area::Testbeds]), &EnvSnapshot::new()).unwrap();
    assert_eq!(
        plan.steps.first().unwrap().description,
        "verify all components"
    );
    assert!(plan
        .steps
        .iter()
        .any(|step| step.description.contains("publish images")));
    assert!(plan
        .steps
        .iter()
        .any(|step| step.command.join(" ").contains("deploy openshift")));
    assert!(plan.required_tools.iter().any(|tool| tool == "oc"));
    assert!(plan.required_tools.iter().any(|tool| tool == "curl"));
    assert!(!plan.required_tools.iter().any(|tool| tool == "cargo"));
    assert!(plan
        .dry_run_notes
        .iter()
        .any(|note| { note == "openshift image platform: linux/amd64" }));
    assert!(plan.steps.iter().any(|step| {
        step.command
            .join(" ")
            .contains("COMPANY_CI_IMAGE_PLATFORM=${COMPANY_CI_IMAGE_PLATFORM:-'linux/amd64'}")
    }));
}

#[test]
fn image_build_command_adds_platform_when_requested() {
    let command = image_build_command(
        ContainerEngine::Docker,
        "apps/spring-api/Containerfile",
        "registry.example.test/company-ci/spring-api:dev",
        "apps/spring-api",
        Some("linux/amd64"),
    );
    assert!(command.contains("docker build --platform 'linux/amd64'"));
}

#[test]
fn image_build_command_skips_platform_when_not_requested() {
    let command = image_build_command(
        ContainerEngine::Docker,
        "apps/spring-api/Containerfile",
        "registry.example.test/company-ci/spring-api:dev",
        "apps/spring-api",
        None,
    );
    assert!(!command.contains("--platform"));
}

#[test]
fn image_build_command_quotes_every_operand() {
    let command = image_build_command(
        ContainerEngine::Podman,
        "apps/next-web/Containerfile",
        "localhost:5001/next-web:dev",
        "apps/next-web",
        None,
    );
    assert_eq!(
        command,
        "podman build -f 'apps/next-web/Containerfile' -t 'localhost:5001/next-web:dev' 'apps/next-web'"
    );
}

#[test]
fn image_push_commands_per_engine() {
    assert_eq!(
        image_push_command(ContainerEngine::Docker, "r/x:1"),
        "docker push 'r/x:1'"
    );
    assert_eq!(
        image_push_command(ContainerEngine::Podman, "r/x:1"),
        "podman push --tls-verify=${COMPANY_CI_IMAGE_TLS_VERIFY:-false} 'r/x:1'"
    );
}

#[test]
fn sh_quote_escapes_single_quotes() {
    assert_eq!(sh_quote("plain"), "'plain'");
    assert_eq!(sh_quote("it's"), "'it'\"'\"'s'");
    assert_eq!(sh_quote(""), "''");
}

#[test]
fn verify_plan_starts_with_manifest_checks_and_lists_every_component() {
    let plan = verify_plan(&context(&[Area::Tooling]));
    assert_eq!(plan.steps.len(), 6);
    assert_eq!(
        plan.steps[0].command,
        vec!["test", "-f", "deploy/base/next-web/kustomization.yaml"]
    );
    assert_eq!(
        plan.steps[1].command,
        vec!["test", "-f", "apps/spring-api/Containerfile"]
    );
    assert_eq!(plan.steps[2].description, "run next-web quality checks");
    assert_eq!(
        plan.steps[3].command,
        vec!["./mvnw", "-B", "-ntp", "-f", "apps/spring-api/pom.xml", "verify"]
    );
    assert_eq!(plan.steps[4].description, "run node-lib checks");
    assert_eq!(plan.steps[5].description, "verify java-lib");
    assert_eq!(plan.required_tools, vec!["node", "npm", "java", "./mvnw"]);
}

#[test]
fn package_plan_needs_no_node_tools_for_next_web() {
    let plan = package_plan(&context(&[Area::NextWeb]));
    assert_eq!(
        plan.steps,
        vec![noop_step("next-web packaging is handled through image commands")]
    );
    assert!(plan.required_tools.is_empty());
}

#[test]
fn test_plan_for_java_lib() {
    let plan = test_plan(&context(&[Area::JavaLib]));
    assert_eq!(plan.name, "test");
    assert_eq!(
        plan.steps,
        vec![Step {
            description: "test java-lib".to_string(),
            command: vec!["./mvnw", "-B", "-ntp", "-f", "libs/java-lib/pom.xml", "test"]
                .into_iter()
                .map(String::from)
                .collect(),
        }]
    );
    assert_eq!(plan.required_tools, vec!["java", "./mvnw"]);
}

#[test]
fn image_build_plan_for_next_web() {
    let mut env = EnvSnapshot::new();
    env.set("COMPANY_CI_IMAGE_PLATFORM", "linux/arm64");
    let plan = image_build_plan(&context(&[Area::NextWeb]), &env);
    assert_eq!(plan.name, "image-build");
    assert_eq!(plan.steps.len(), 2);
    assert_eq!(
        plan.steps[1].command[2],
        "docker build --platform 'linux/arm64' -f 'apps/next-web/Containerfile' -t 'localhost:5001/next-web:dev' 'apps/next-web'"
    );
    assert_eq!(plan.required_tools, vec!["node", "npm", "docker"]);
}

#[test]
fn image_build_steps_keep_their_fixed_descriptions() {
    let mut ctx = context(&[Area::NextWeb, Area::SpringApi]);
    ctx.repo_layout.next_web.name = "web";
    ctx.repo_layout.spring_api.name = "api";
    let plan = image_build_plan(&ctx, &EnvSnapshot::new());
    let descriptions: Vec<&str> = plan.steps.iter().map(|s| s.description.as_str()).collect();
    assert_eq!(
        descriptions,
        vec![
            "build next-web image inputs",
            "build next-web image",
            "package spring-api image inputs",
            "build spring-api image",
        ]
    );
}

#[test]
fn image_build_plan_noops_without_application_changes() {
    let plan = image_build_plan(&context(&[Area::Docs]), &EnvSnapshot::new());
    assert_eq!(
        plan.steps,
        vec![noop_step("no impacted application images detected")]
    );
    assert!(plan.required_tools.is_empty());
}

#[test]
fn image_publish_plan_logs_in_when_credentials_are_complete() {
    let mut env = EnvSnapshot::new();
    env.set("COMPANY_CI_IMAGE_REGISTRY_USERNAME", "robot");
    env.set("COMPANY_CI_IMAGE_REGISTRY_PASSWORD", "pw");
    let plan = image_publish_plan(&context(&[Area::SpringApi]), &env).unwrap();
    assert_eq!(plan.steps.len(), 2);
    assert_eq!(plan.steps[0].description, "authenticate to image registry");
    assert_eq!(
        plan.steps[1].command[2],
        "docker push 'localhost:5001/spring-api:dev'"
    );
    assert_eq!(plan.required_tools, vec!["docker"]);
    assert_eq!(plan.required_env.len(), 2);
}

#[test]
fn image_publish_plan_refuses_incomplete_credentials() {
    let mut env = EnvSnapshot::new();
    env.set("COMPANY_CI_IMAGE_REGISTRY_PASSWORD", "pw");
    let error = image_publish_plan(&context(&[Area::SpringApi]), &env).unwrap_err();
    assert_eq!(
        error.to_string(),
        "missing required secret env for plan image-publish: COMPANY_CI_IMAGE_REGISTRY_USERNAME"
    );
}

#[test]
fn deploy_plan_reports_tls_setting_and_rejects_bad_values() {
    let plan = deploy_openshift_plan(&context(&[]), &EnvSnapshot::new()).unwrap();
    assert_eq!(plan.dry_run_notes, vec!["openshift skip tls verify: false"]);
    assert_eq!(plan.steps.len(), 9);
    assert_eq!(plan.required_env.len(), 7);
    assert_eq!(
        plan.steps[3].command[2],
        "oc set image deployment/next-web next-web=\"${NEXT_WEB_IMAGE_REF:-${COMPANY_CI_IMAGE_PULL_REGISTRY}/${COMPANY_CI_IMAGE_NAMESPACE}/next-web:${COMPANY_CI_IMAGE_TAG}}\""
    );
    let mut env = EnvSnapshot::new();
    env.set("COMPANY_CI_OPENSHIFT_SKIP_TLS_VERIFY", "maybe");
    let error = deploy_openshift_plan(&context(&[]), &env).unwrap_err();
    assert!(error.to_string().starts_with("invalid env value for plan deploy-openshift"));
}

#[test]
fn e2e_plan_tags_images_dev_unless_a_tag_is_set() {
    let plan = e2e_openshift_plan(&context(&[]), &EnvSnapshot::new()).unwrap();
    assert_eq!(plan.dry_run_notes[0], "openshift image tag: dev");
    for i in 1..4 {
        assert!(plan.steps[i].command[2]
            .contains("COMPANY_CI_IMAGE_TAG=${COMPANY_CI_IMAGE_TAG:-'dev'}"));
        assert!(plan.steps[i].command[2].contains(
            "COMPANY_CI_IMAGE_PULL_REGISTRY=${COMPANY_CI_IMAGE_PULL_REGISTRY:-'host.crc.testing:5002'}"
        ));
    }
    assert!(plan.steps[1].command[2].ends_with("'company-ci' image build"));
    let mut env = EnvSnapshot::new();
    env.set("COMPANY_CI_IMAGE_TAG", "   ");
    let plan = e2e_openshift_plan(&context(&[]), &env).unwrap();
    assert_eq!(plan.dry_run_notes[0], "openshift image tag: dev");
    let mut env = EnvSnapshot::new();
    env.set("COMPANY_CI_IMAGE_TAG", "qa");
    let plan = e2e_openshift_plan(&context(&[]), &env).unwrap();
    assert_eq!(plan.dry_run_notes[0], "openshift image tag: qa");
    assert_eq!(
        plan.steps[0].command,
        vec!["company-ci".to_string(), "verify".to_string()]
    );
}

#[test]
fn publish_plan_path_errors() {
    let layout = RepoLayout::company_ci_lab();
    let env = EnvSnapshot::new();
    let error =
        publish_maven_lib_plan(&layout, "libs/none", PublishTarget::Missing, &env).unwrap_err();
    assert_eq!(
        error.to_string(),
        "publish project path does not exist: libs/none"
    );
    let error = publish_maven_lib_plan(&layout, "README.md", PublishTarget::NotDirectory, &env)
        .unwrap_err();
    assert_eq!(
        error.to_string(),
        "publish project path is not a directory: README.md"
    );
}

#[test]
fn npm_publish_plan_checks_tag_and_reads_registry() {
    let layout = RepoLayout::company_ci_lab();
    let mut env = EnvSnapshot::new();
    env.set("NPM_REGISTRY_URL", "http://npm.example.test/");
    let plan = publish_npm_lib_plan(&layout, "libs/node-lib/", "beta", project_with_manifest(), &env)
        .unwrap();
    assert_eq!(
        plan.steps[1].command,
        vec![
            "sh",
            "testbeds/repository/npm-publish.sh",
            "libs/node-lib/",
            "beta"
        ]
    );
    assert_eq!(
        plan.dry_run_notes[2],
        "npm registry url: http://npm.example.test/"
    );
    let error = publish_npm_lib_plan(&layout, "libs/node-lib", "two words", PublishTarget::Missing, &env)
        .unwrap_err();
    assert_eq!(
        error.to_string(),
        "npm publish tag must not contain whitespace"
    );
}

#[test]
fn maven_publish_plan_uses_the_manifest_path() {
    let layout = RepoLayout::company_ci_lab();
    let mut env = EnvSnapshot::new();
    env.set("MAVEN_SERVER_ID", "nexus");
    let plan =
        publish_maven_lib_plan(&layout, "libs/java-lib", project_with_manifest(), &env).unwrap();
    assert_eq!(
        plan.steps[0].command,
        vec![
            "sh",
            "testbeds/repository/maven-deploy.sh",
            "libs/java-lib/pom.xml"
        ]
    );
    assert_eq!(
        plan.dry_run_notes,
        vec![
            "publish contract: maven-lib",
            "publish path: libs/java-lib",
            "maven deploy url: http://localhost:8081/repository/maven-snapshots/",
            "maven server id: nexus"
        ]
    );
}

#[test]
fn plan_builders_deduplicate_requirements() {
    let plan = Plan::new("sample", vec![])
        .with_required_tools(vec!["node".to_string(), "npm".to_string(), "node".to_string()])
        .with_required_tools(vec!["npm".to_string(), "java".to_string()])
        .with_required_env(vec![
            EnvRequirement::variable("A"),
            EnvRequirement::secret("A"),
            EnvRequirement::variable("A"),
        ])
        .with_dry_run_notes(vec!["one".to_string()])
        .with_dry_run_notes(vec!["one".to_string()]);
    assert_eq!(plan.required_tools, vec!["node", "npm", "java"]);
    assert_eq!(
        plan.required_env,
        vec![EnvRequirement::variable("A"), EnvRequirement::secret("A")]
    );
    assert_eq!(plan.dry_run_notes, vec!["one", "one"]);
}
