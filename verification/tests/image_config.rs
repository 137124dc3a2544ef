use lib::env_snapshot::EnvSnapshot;
use lib::image_config::{ApplicationImage, ImageProfile, ImageSettings};

fn from_map(profile: ImageProfile, entries: &[(&str, &str)]) -> ImageSettings {
    let mut env = EnvSnapshot::new();
    for (key, value) in entries {
        env.set(key, value);
    }
    ImageSettings::from_lookup(profile, &env)
}

#[test]
fn local_defaults_match_kind_registry_flow() {
    let settings = from_map(ImageProfile::Local, &[]);
    assert_eq!(settings.push_registry(), "localhost:5001");
    assert_eq!(settings.pull_registry(), "localhost:5001");
    assert_eq!(settings.namespace(), "");
    assert_eq!(settings.tag(), "dev");
    assert_eq!(
        settings.push_ref(ApplicationImage::NextWeb),
        "localhost:5001/next-web:dev"
    );
    assert!(!settings.has_registry_auth());
}

#[test]
fn openshift_local_defaults_match_local_repository_contract() {
    let settings = from_map(ImageProfile::OpenshiftLocal, &[]);
    assert_eq!(settings.push_registry(), "localhost:5002");
    assert_eq!(settings.pull_registry(), "host.crc.testing:5002");
    assert_eq!(settings.namespace(), "company-ci");
    assert_eq!(settings.tag(), "dev");
    assert_eq!(settings.registry_username(), Some("admin"));
    assert_eq!(
        settings.registry_password_file(),
        Some("testbeds/repository/.runtime/admin.password")
    );
    assert_eq!(
        settings.pull_ref(ApplicationImage::SpringApi),
        "host.crc.testing:5002/company-ci/spring-api:dev"
    );
}

#[test]
fn pull_registry_follows_push_registry_when_only_push_is_overridden() {
    let settings = from_map(
        ImageProfile::OpenshiftLocal,
        &[("COMPANY_CI_IMAGE_PUSH_REGISTRY", "registry.example.test")],
    );
    assert_eq!(settings.push_registry(), "registry.example.test");
    assert_eq!(settings.pull_registry(), "registry.example.test");
}

#[test]
fn explicit_image_overrides_apply_to_push_and_pull_refs() {
    let settings = from_map(
        ImageProfile::OpenshiftLocal,
        &[(
            "NEXT_WEB_IMAGE_REF",
            "registry.example.test/custom/next-web:qa",
        )],
    );
    assert_eq!(
        settings.push_ref(ApplicationImage::NextWeb),
        "registry.example.test/custom/next-web:qa"
    );
    assert_eq!(
        settings.pull_ref(ApplicationImage::NextWeb),
        "registry.example.test/custom/next-web:qa"
    );
}

#[test]
fn publish_contract_is_valid_without_registry_auth() {
    let settings = from_map(ImageProfile::Local, &[]);
    assert!(settings.validate_publish_contract("image-publish").is_ok());
}

#[test]
fn publish_contract_requires_password_when_username_is_present() {
    let settings = from_map(
        ImageProfile::Local,
        &[("COMPANY_CI_IMAGE_REGISTRY_USERNAME", "robot")],
    );
    let error = settings
        .validate_publish_contract("image-publish")
        .unwrap_err();
    assert_eq!(
        error.to_string(),
        "missing required secret env or env file for plan image-publish: COMPANY_CI_IMAGE_REGISTRY_PASSWORD|COMPANY_CI_IMAGE_REGISTRY_PASSWORD_FILE"
    );
}

#[test]
fn publish_contract_requires_username_when_password_is_present() {
    let settings = from_map(
        ImageProfile::Local,
        &[("COMPANY_CI_IMAGE_REGISTRY_PASSWORD", "secret")],
    );
    let error = settings
        .validate_publish_contract("image-publish")
        .unwrap_err();
    assert_eq!(
        error.to_string(),
        "missing required secret env for plan image-publish: COMPANY_CI_IMAGE_REGISTRY_USERNAME"
    );
}

#[test]
fn complete_credentials_pass_the_publish_contract() {
    let settings = from_map(
        ImageProfile::Local,
        &[
            ("COMPANY_CI_IMAGE_REGISTRY_USERNAME", "robot"),
            ("COMPANY_CI_IMAGE_REGISTRY_PASSWORD_FILE", "/run/pw"),
        ],
    );
    assert!(settings.has_registry_auth());
    assert!(settings.validate_publish_contract("image-publish").is_ok());
}

#[test]
fn blank_values_fall_back_to_defaults() {
    let settings = from_map(
        ImageProfile::Local,
        &[
            ("COMPANY_CI_IMAGE_TAG", "   "),
            ("COMPANY_CI_IMAGE_NAMESPACE", "team"),
            ("COMPANY_CI_IMAGE_PULL_REGISTRY", "pull.example.test"),
        ],
    );
    assert_eq!(settings.tag(), "dev");
    assert_eq!(settings.push_registry(), "localhost:5001");
    assert_eq!(settings.pull_registry(), "pull.example.test");
    assert_eq!(
        settings.push_ref(ApplicationImage::SpringApi),
        "localhost:5001/team/spring-api:dev"
    );
    assert_eq!(
        settings.pull_ref(ApplicationImage::SpringApi),
        "pull.example.test/team/spring-api:dev"
    );
}

#[test]
fn with_tag_changes_only_the_tag() {
    let settings = from_map(ImageProfile::OpenshiftLocal, &[]);
    let retagged = settings.clone().with_tag("qa".to_string());
    assert_eq!(retagged.tag(), "qa");
    assert_eq!(retagged.push_registry(), settings.push_registry());
    assert_eq!(retagged.namespace(), settings.namespace());
    assert_eq!(
        retagged.push_ref(ApplicationImage::NextWeb),
        "localhost:5002/company-ci/next-web:qa"
    );
}

#[test]
fn application_image_names() {
    assert_eq!(ApplicationImage::NextWeb.name(), "next-web");
    assert_eq!(ApplicationImage::SpringApi.name(), "spring-api");
    assert_eq!(ApplicationImage::NextWeb.override_env(), "NEXT_WEB_IMAGE_REF");
    assert_eq!(
        ApplicationImage::SpringApi.override_env(),
        "SPRING_API_IMAGE_REF"
    );
}
