//! From a parsed command to the plan it runs.
use vstd::prelude::*;
use crate::cli::{Cli, Command, CommandView, DeployCommand, E2eCommand, ImageCommand, PublishCommand};
use crate::component_plans::{
    build_plan, package_plan, spec_mode_plan, spec_verify_plan, test_plan, verify_plan, Mode,
};
use crate::context::ExecutionContext;
use crate::env_snapshot::{EnvSnapshot, EnvSnapshotView};
use crate::error::{CompanyCiError, ErrorView};
use crate::image_plans::{
    image_build_plan, image_publish_plan, spec_image_build_plan, spec_image_publish_plan,
};
use crate::openshift_plans::{
    deploy_openshift_plan, e2e_openshift_plan, spec_deploy_openshift_plan, spec_e2e_openshift_plan,
};
use crate::plan::{Plan, PlanView};
use crate::publish_plans::{
    manifest_path, publish_maven_lib_plan, publish_npm_lib_plan, spec_path_join,
    spec_publish_maven_lib_plan, spec_publish_npm_lib_plan, PublishTarget,
};

verus! {

/// A planning outcome paired with the dry-run flag.
pub open spec fn with_dry_run(r: Result<PlanView, ErrorView>, dry_run: bool) -> Result<
    (PlanView, bool),
    ErrorView,
> {
    match r {
        Ok(p) => Ok((p, dry_run)),
        Err(e) => Err(e),
    }
}

/// The plan a command runs and whether it runs dry. `target` is what the
/// file system shows of a publish project path.
pub open spec fn spec_dispatch(
    command: CommandView,
    ctx: ExecutionContext,
    env: EnvSnapshotView,
    target: PublishTarget,
) -> Result<(PlanView, bool), ErrorView> {
    match command {
        CommandView::PublishMavenLib { path, dry_run } => with_dry_run(
            spec_publish_maven_lib_plan(ctx.repo_layout, path, target, env),
            dry_run,
        ),
        CommandView::PublishNpmLib { path, tag, dry_run } => with_dry_run(
            spec_publish_npm_lib_plan(ctx.repo_layout, path, tag, target, env),
            dry_run,
        ),
        CommandView::Verify(d) => Ok((spec_verify_plan(ctx), d)),
        CommandView::Build(d) => Ok((spec_mode_plan(ctx, "build"@, Mode::Build), d)),
        CommandView::Test(d) => Ok((spec_mode_plan(ctx, "test"@, Mode::Test), d)),
        CommandView::Package(d) => Ok((spec_mode_plan(ctx, "package"@, Mode::Package), d)),
        CommandView::ImageBuild(d) => Ok((spec_image_build_plan(ctx, env), d)),
        CommandView::ImagePublish(d) => with_dry_run(spec_image_publish_plan(ctx, env), d),
        CommandView::DeployOpenshift(d) => with_dry_run(spec_deploy_openshift_plan(ctx, env), d),
        CommandView::E2eOpenshift(d) => with_dry_run(
            spec_e2e_openshift_plan(ctx, env),
            d,
        ),
    }
}

/// The value of a dispatch outcome.
pub open spec fn dispatch_outcome(r: Result<(Plan, bool), CompanyCiError>) -> Result<
    (PlanView, bool),
    ErrorView,
> {
    match r {
        Ok((p, d)) => Ok((p@, d)),
        Err(e) => Err(e@),
    }
}

fn pair_with(r: Result<Plan, CompanyCiError>, dry_run: bool) -> (o: Result<(Plan, bool), CompanyCiError>)
    ensures
        dispatch_outcome(o) == with_dry_run(crate::plan::plan_outcome(r), dry_run),
{
    match r {
        Ok(p) => Ok((p, dry_run)),
        Err(e) => Err(e),
    }
}

/// The plan a command runs in a context and environment, and whether it
/// runs dry. `target` is what the file system shows of the project path of
/// a publish command.
pub fn dispatch(
    cli: &Cli,
    context: &ExecutionContext,
    env: &EnvSnapshot,
    target: PublishTarget,
) -> (r: Result<(Plan, bool), CompanyCiError>)
    ensures
        dispatch_outcome(r) == spec_dispatch(cli.command@, *context, env@, target),
{
    match &cli.command {
        Command::Publish(PublishCommand::MavenLib(args)) => pair_with(
            publish_maven_lib_plan(&context.repo_layout, args.path.as_str(), target, env),
            args.dry_run,
        ),
        Command::Publish(PublishCommand::NpmLib(args)) => pair_with(
            publish_npm_lib_plan(
                &context.repo_layout,
                args.path.as_str(),
                args.tag.as_str(),
                target,
                env,
            ),
            args.dry_run,
        ),
        Command::Verify(args) => Ok((verify_plan(context), args.dry_run)),
        Command::Build(args) => Ok((build_plan(context), args.dry_run)),
        Command::Test(args) => Ok((test_plan(context), args.dry_run)),
        Command::Package(args) => Ok((package_plan(context), args.dry_run)),
        Command::Image(ImageCommand::Build(args)) => Ok((image_build_plan(context, env), args.dry_run)),
        Command::Image(ImageCommand::Publish(args)) => pair_with(
            image_publish_plan(context, env),
            args.dry_run,
        ),
        Command::Deploy(DeployCommand::Openshift(args)) => pair_with(
            deploy_openshift_plan(context, env),
            args.dry_run,
        ),
        Command::E2e(E2eCommand::Openshift(args)) => pair_with(
            e2e_openshift_plan(context, env),
            args.dry_run,
        ),
    }
}

/// For a publish command, its project directory and the manifest path the
/// contract needs there; nothing for other commands.
pub open spec fn spec_publish_probe(command: CommandView) -> Option<(Seq<char>, Seq<char>)> {
    match command {
        CommandView::PublishMavenLib { path, .. } => Some((path, spec_path_join(path, "pom.xml"@))),
        CommandView::PublishNpmLib { path, .. } => Some(
            (path, spec_path_join(path, "package.json"@)),
        ),
        _ => None,
    }
}

/// The paths to look at before a publish command is planned.
pub fn publish_probe(command: &Command) -> (r: Option<(String, String)>)
    ensures
        match r {
            Some((d, m)) => spec_publish_probe(command@) == Some((d@, m@)),
            None => spec_publish_probe(command@) is None,
        },
{
    match command {
        Command::Publish(PublishCommand::MavenLib(args)) => Some(
            (args.path.clone(), manifest_path(args.path.as_str(), "pom.xml")),
        ),
        Command::Publish(PublishCommand::NpmLib(args)) => Some(
            (args.path.clone(), manifest_path(args.path.as_str(), "package.json")),
        ),
        _ => None,
    }
}

} // verus!
