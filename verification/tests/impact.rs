use lib::impact::{infer_areas, Area};
use lib::repo_layout::RepoLayout;

#[test]
fn maps_component_paths_to_areas() {
    let layout = RepoLayout::company_ci_lab();
    let areas = infer_areas(
        &layout,
        &["apps/next-web/src/app/page.tsx", "libs/java-lib/pom.xml"],
    );
    assert!(areas.contains(&Area::NextWeb));
    assert!(areas.contains(&Area::JavaLib));
}

#[test]
fn defaults_to_tooling_when_no_paths_are_available() {
    let layout = RepoLayout::company_ci_lab();
    let areas = infer_areas(&layout, &Vec::<&str>::new());
    assert_eq!(areas, vec![Area::Tooling]);
}

#[test]
fn areas_are_reported_once_in_order_of_first_appearance() {
    let layout = RepoLayout::company_ci_lab();
    let areas = infer_areas(
        &layout,
        &[
            "docs/a.md",
            "apps/spring-api/pom.xml",
            "docs/b.md",
            "README.md",
            "apps/spring-api/src/Main.java",
        ],
    );
    assert_eq!(areas, vec![Area::Docs, Area::SpringApi]);
}

#[test]
fn unclassified_paths_fall_back_to_tooling() {
    let layout = RepoLayout::company_ci_lab();
    let areas = infer_areas(&layout, &["LICENSE", "apps/next-web"]);
    assert_eq!(areas, vec![Area::Tooling]);
}

#[test]
fn classifies_every_root() {
    let layout = RepoLayout::company_ci_lab();
    let cases: [(&str, Area); 12] = [
        ("libs/node-lib/src/index.ts", Area::NodeLib),
        ("deploy/base/x.yaml", Area::Deploy),
        ("tools/company-ci/src/main.rs", Area::Tooling),
        ("Cargo.toml", Area::Tooling),
        ("Cargo.lock", Area::Tooling),
        ("README.md", Area::Docs),
        ("testbeds/repository/compose.yaml", Area::Testbeds),
        ("scripts/bootstrap-cluster.sh", Area::Testbeds),
        (".github/workflows/verify.yml", Area::Workflows),
        (".github/ISSUE_TEMPLATE/bug.md", Area::Workflows),
        (".github/pull_request_template.md", Area::Workflows),
        ("apps/next-web/package.json", Area::NextWeb),
    ];
    for (path, area) in cases {
        assert_eq!(infer_areas(&layout, &[path]), vec![area], "{path}");
    }
}
