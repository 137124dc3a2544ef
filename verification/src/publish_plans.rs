//! Plans that publish a library to the repository.
use vstd::prelude::*;
use crate::env_snapshot::{EnvSnapshot, EnvSnapshotView};
use crate::error::{CompanyCiError, ErrorView};
use crate::image_config::unwrap_or;
use crate::ordered_set::append_new;
use crate::plan::{owned_step, step_view, strings, strs_view, Plan, PlanView, Step, StepView};
use crate::repo_layout::RepoLayout;
use crate::text::{contains_white_space, has_white_space, is_blank, is_blank_chars};

verus! {

/// What the file system shows of a publish project path.
#[derive(Debug, Clone, Copy, PartialEq, Eq, Structural)]
pub enum PublishTarget {
    /// Nothing exists at the path.
    Missing,
    /// Something that is not a directory exists at the path.
    NotDirectory,
    /// A directory exists at the path; it may hold the contract's manifest.
    Directory { manifest_is_file: bool },
}

/// `name` under the directory `dir`, as `Path::join` spells a relative name:
/// a separator is put between them unless `dir` is empty or ends in one.
pub open spec fn spec_path_join(dir: Seq<char>, name: Seq<char>) -> Seq<char> {
    if dir.len() > 0 && dir.last() != '/' {
        dir + "/"@ + name
    } else {
        dir + name
    }
}

/// The path of a manifest in a project directory.
pub fn manifest_path(project_dir: &str, manifest_name: &str) -> (r: String)
    ensures
        r@ == spec_path_join(project_dir@, manifest_name@),
{
    let n = project_dir.unicode_len();
    if n > 0 && project_dir.get_char(n - 1) != '/' {
        project_dir.to_owned().concat("/").concat(manifest_name)
    } else {
        project_dir.to_owned().concat(manifest_name)
    }
}

/// A publish project: the directory must exist and hold the contract's
/// manifest. The result is the directory and the manifest path.
pub open spec fn spec_resolve_publish_project(
    project_dir: Seq<char>,
    manifest_name: Seq<char>,
    contract: Seq<char>,
    target: PublishTarget,
) -> Result<(Seq<char>, Seq<char>), ErrorView> {
    match target {
        PublishTarget::Missing => Err(
            ErrorView::InvalidArgument("publish project path does not exist: "@ + project_dir),
        ),
        PublishTarget::NotDirectory => Err(
            ErrorView::InvalidArgument("publish project path is not a directory: "@ + project_dir),
        ),
        PublishTarget::Directory { manifest_is_file } => if manifest_is_file {
            Ok((project_dir, spec_path_join(project_dir, manifest_name)))
        } else {
            Err(
                ErrorView::InvalidArgument(
                    "invalid publish target: "@ + contract + " requires "@ + project_dir + "/"@
                        + manifest_name,
                ),
            )
        },
    }
}

/// An npm dist-tag must be neither blank nor hold whitespace.
pub open spec fn spec_validate_npm_tag(tag: Seq<char>) -> Result<(), ErrorView> {
    if is_blank_chars(tag) {
        Err(ErrorView::InvalidArgument("npm publish tag must not be empty"@))
    } else if has_white_space(tag) {
        Err(ErrorView::InvalidArgument("npm publish tag must not contain whitespace"@))
    } else {
        Ok(())
    }
}

/// The Maven publish plan: one helper run on the project's `pom.xml`.
pub open spec fn spec_publish_maven_lib_plan(
    layout: RepoLayout,
    project_dir: Seq<char>,
    target: PublishTarget,
    env: EnvSnapshotView,
) -> Result<PlanView, ErrorView> {
    match spec_resolve_publish_project(project_dir, "pom.xml"@, "maven-lib"@, target) {
        Err(e) => Err(e),
        Ok((dir, manifest)) => Ok(
            PlanView {
                name: "publish-maven-lib"@,
                required_tools: append_new(Seq::empty(), seq!["java"@, "./mvnw"@]),
                required_env: Seq::empty(),
                dry_run_notes: seq![
                    "publish contract: maven-lib"@,
                    "publish path: "@ + dir,
                    "maven deploy url: "@ + unwrap_or(
                        env.var("MAVEN_DEPLOY_URL"@),
                        "http://localhost:8081/repository/maven-snapshots/"@,
                    ),
                    "maven server id: "@ + unwrap_or(env.var("MAVEN_SERVER_ID"@), "local"@),
                ],
                steps: seq![
                    step_view(
                        "publish maven-lib from "@ + dir,
                        seq!["sh"@, layout.maven_publish_helper_path@, manifest],
                    ),
                ],
            },
        ),
    }
}

/// The npm publish plan: build the library, then publish it under the
/// dist-tag; the tag is checked before the project.
pub open spec fn spec_publish_npm_lib_plan(
    layout: RepoLayout,
    project_dir: Seq<char>,
    tag: Seq<char>,
    target: PublishTarget,
    env: EnvSnapshotView,
) -> Result<PlanView, ErrorView> {
    match spec_validate_npm_tag(tag) {
        Err(e) => Err(e),
        Ok(_) => match spec_resolve_publish_project(project_dir, "package.json"@, "npm-lib"@, target) {
            Err(e) => Err(e),
            Ok((dir, _manifest)) => Ok(
                PlanView {
                    name: "publish-npm-lib"@,
                    required_tools: append_new(Seq::empty(), seq!["node"@, "npm"@]),
                    required_env: Seq::empty(),
                    dry_run_notes: seq![
                        "publish contract: npm-lib"@,
                        "publish path: "@ + dir,
                        "npm registry url: "@ + unwrap_or(
                            env.var("NPM_REGISTRY_URL"@),
                            "http://localhost:8081/repository/npm-hosted/"@,
                        ),
                        "npm dist-tag: "@ + tag,
                    ],
                    steps: seq![
                        step_view(
                            "build npm-lib at "@ + dir,
                            seq!["sh"@, "-c"@, "cd \"$1\" && npm run build"@, "sh"@, dir],
                        ),
                        step_view(
                            "publish npm-lib from "@ + dir,
                            seq!["sh"@, layout.npm_publish_helper_path@, dir, tag],
                        ),
                    ],
                },
            ),
        },
    }
}

struct ResolvedPublishProject {
    project_dir_display: String,
    manifest_path_display: String,
}

fn resolve_publish_project(
    project_dir: &str,
    manifest_name: &str,
    contract: &str,
    target: PublishTarget,
) -> (r: Result<ResolvedPublishProject, CompanyCiError>)
    ensures
        match r {
            Ok(p) => spec_resolve_publish_project(project_dir@, manifest_name@, contract@, target)
                == Ok::<(Seq<char>, Seq<char>), ErrorView>(
                (p.project_dir_display@, p.manifest_path_display@),
            ),
            Err(e) => spec_resolve_publish_project(project_dir@, manifest_name@, contract@, target)
                == Err::<(Seq<char>, Seq<char>), ErrorView>(e@),
        },
{
    match target {
        PublishTarget::Missing => Err(
            CompanyCiError::InvalidArgument(
                "publish project path does not exist: ".to_owned().concat(project_dir),
            ),
        ),
        PublishTarget::NotDirectory => Err(
            CompanyCiError::InvalidArgument(
                "publish project path is not a directory: ".to_owned().concat(project_dir),
            ),
        ),
        PublishTarget::Directory { manifest_is_file } => if manifest_is_file {
            Ok(
                ResolvedPublishProject {
                    project_dir_display: project_dir.to_owned(),
                    manifest_path_display: manifest_path(project_dir, manifest_name),
                },
            )
        } else {
            Err(
                CompanyCiError::InvalidArgument(
                    "invalid publish target: ".to_owned().concat(contract).concat(" requires ").concat(
                        project_dir,
                    ).concat("/").concat(manifest_name),
                ),
            )
        },
    }
}

/// Checks an npm dist-tag.
pub fn validate_npm_tag(tag: &str) -> (r: Result<(), CompanyCiError>)
    ensures
        crate::image_config::check_outcome(r) == spec_validate_npm_tag(tag@),
{
    if is_blank(tag) {
        return Err(CompanyCiError::InvalidArgument("npm publish tag must not be empty".to_owned()));
    }
    if contains_white_space(tag) {
        return Err(
            CompanyCiError::InvalidArgument("npm publish tag must not contain whitespace".to_owned()),
        );
    }
    Ok(())
}

fn var_or(env: &EnvSnapshot, name: &str, default: &str) -> (r: String)
    ensures
        r@ == unwrap_or(env@.var(name@), default@),
{
    match env.var(name) {
        Some(v) => v,
        None => default.to_owned(),
    }
}

/// The Maven publish plan for a project path and what the file system shows
/// of it.
pub fn publish_maven_lib_plan(
    layout: &RepoLayout,
    project_dir: &str,
    target: PublishTarget,
    env: &EnvSnapshot,
) -> (r: Result<Plan, CompanyCiError>)
    ensures
        crate::plan::plan_outcome(r) == spec_publish_maven_lib_plan(*layout, project_dir@, target, env@),
{
    let resolved = match resolve_publish_project(project_dir, "pom.xml", "maven-lib", target) {
        Ok(p) => p,
        Err(e) => return Err(e),
    };
    let deploy_url = var_or(env, "MAVEN_DEPLOY_URL", "http://localhost:8081/repository/maven-snapshots/");
    let server_id = var_or(env, "MAVEN_SERVER_ID", "local");
    let dir = resolved.project_dir_display.as_str();
    let command = vec![
        "sh".to_owned(),
        layout.maven_publish_helper_path.to_owned(),
        resolved.manifest_path_display.clone(),
    ];
    assert(command.deep_view() =~= seq![
        "sh"@,
        layout.maven_publish_helper_path@,
        resolved.manifest_path_display@,
    ]);
    let publish = owned_step("publish maven-lib from ".to_owned().concat(dir), command);
    let steps = vec![publish];
    let ghost publish_view = publish@;
    assert(crate::plan::steps_view(steps@) =~= seq![publish_view]);
    let tools = strings(vec!["java", "./mvnw"]);
    assert(tools.deep_view() =~= seq!["java"@, "./mvnw"@]);
    let notes = vec![
        "publish contract: maven-lib".to_owned(),
        "publish path: ".to_owned().concat(dir),
        "maven deploy url: ".to_owned().concat(deploy_url.as_str()),
        "maven server id: ".to_owned().concat(server_id.as_str()),
    ];
    assert(notes.deep_view() =~= seq![
        "publish contract: maven-lib"@,
        "publish path: "@ + dir@,
        "maven deploy url: "@ + deploy_url@,
        "maven server id: "@ + server_id@,
    ]);
    Ok(Plan::new("publish-maven-lib", steps).with_required_tools(tools).with_dry_run_notes(notes))
}

/// The npm publish plan for a project path, dist-tag and what the file
/// system shows of the path.
pub fn publish_npm_lib_plan(
    layout: &RepoLayout,
    project_dir: &str,
    tag: &str,
    target: PublishTarget,
    env: &EnvSnapshot,
) -> (r: Result<Plan, CompanyCiError>)
    ensures
        crate::plan::plan_outcome(r) == spec_publish_npm_lib_plan(
            *layout,
            project_dir@,
            tag@,
            target,
            env@,
        ),
{
    match validate_npm_tag(tag) {
        Ok(_) => {},
        Err(e) => return Err(e),
    }
    let resolved = match resolve_publish_project(project_dir, "package.json", "npm-lib", target) {
        Ok(p) => p,
        Err(e) => return Err(e),
    };
    let registry_url = var_or(env, "NPM_REGISTRY_URL", "http://localhost:8081/repository/npm-hosted/");
    let dir = resolved.project_dir_display.as_str();
    let build_command = vec![
        "sh".to_owned(),
        "-c".to_owned(),
        "cd \"$1\" && npm run build".to_owned(),
        "sh".to_owned(),
        dir.to_owned(),
    ];
    assert(build_command.deep_view() =~= seq![
        "sh"@,
        "-c"@,
        "cd \"$1\" && npm run build"@,
        "sh"@,
        dir@,
    ]);
    let publish_command = vec![
        "sh".to_owned(),
        layout.npm_publish_helper_path.to_owned(),
        dir.to_owned(),
        tag.to_owned(),
    ];
    assert(publish_command.deep_view() =~= seq!["sh"@, layout.npm_publish_helper_path@, dir@, tag@]);
    let build = owned_step("build npm-lib at ".to_owned().concat(dir), build_command);
    let publish = owned_step("publish npm-lib from ".to_owned().concat(dir), publish_command);
    let ghost views = seq![build@, publish@];
    let steps = vec![build, publish];
    assert(crate::plan::steps_view(steps@) =~= views);
    let tools = strings(vec!["node", "npm"]);
    assert(tools.deep_view() =~= seq!["node"@, "npm"@]);
    let notes = vec![
        "publish contract: npm-lib".to_owned(),
        "publish path: ".to_owned().concat(dir),
        "npm registry url: ".to_owned().concat(registry_url.as_str()),
        "npm dist-tag: ".to_owned().concat(tag),
    ];
    assert(notes.deep_view() =~= seq![
        "publish contract: npm-lib"@,
        "publish path: "@ + dir@,
        "npm registry url: "@ + registry_url@,
        "npm dist-tag: "@ + tag@,
    ]);
    Ok(Plan::new("publish-npm-lib", steps).with_required_tools(tools).with_dry_run_notes(notes))
}

} // verus!
