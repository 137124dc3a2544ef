//! Plans that deploy to OpenShift and that run the full delivery path end
//! to end.
use vstd::prelude::*;
use crate::container_engine::engine_binary;
use crate::context::ExecutionContext;
use crate::env_snapshot::{EnvSnapshot, EnvSnapshotView};
use crate::error::{CompanyCiError, ErrorView};
use crate::image_config::{spec_image_settings, unwrap_or, ImageProfile, ImageSettings, ImageSettingsView};
use crate::openshift_config::{
    spec_auth_requirements, spec_login_command, spec_skip_tls_verify, OpenshiftConfig,
};
use crate::ordered_set::append_new;
use crate::plan::{
    owned_step, reqs_view, sh_quote, sh_quoted, shell_step, shell_view, step, step_view, steps_view,
    strings, strs_view, Plan, PlanView, Step, StepView,
};
use crate::repo_layout::{ApplicationLayout, RepoLayout};
use crate::requirements::{
    secret_or_file_req, secret_req, variable_req, EnvRequirement, EnvRequirementView,
};
use crate::text::{join, seq_join};

verus! {

/// `true` or `false`.
pub open spec fn bool_text(b: bool) -> Seq<char> {
    if b {
        "true"@
    } else {
        "false"@
    }
}

/// The text of a boolean, as `bool::to_string` gives it.
pub fn bool_to_text(b: bool) -> (r: String)
    ensures
        r@ == bool_text(b),
{
    if b {
        "true".to_owned()
    } else {
        "false".to_owned()
    }
}

/// The image reference a deployment is set to: the application's override
/// variable when set, else the pull registry, namespace and tag variables.
pub open spec fn spec_openshift_image_ref_expression(app: ApplicationLayout) -> Seq<char> {
    "\"${"@ + app.image_override_env@
        + ":-${COMPANY_CI_IMAGE_PULL_REGISTRY}/${COMPANY_CI_IMAGE_NAMESPACE}/"@ + app.name@
        + ":${COMPANY_CI_IMAGE_TAG}}\""@
}

/// The step that points a deployment at its image.
pub open spec fn spec_set_image_step(description: Seq<char>, app: ApplicationLayout) -> StepView {
    shell_view(
        description,
        "oc set image deployment/"@ + app.deployment_name@ + " "@ + app.container_name@ + "="@
            + spec_openshift_image_ref_expression(app),
    )
}

/// The step that checks an application's route answers as expected.
pub open spec fn spec_route_check_step(
    description: Seq<char>,
    layout: RepoLayout,
    app: ApplicationLayout,
) -> StepView {
    step_view(
        description,
        seq![
            "sh"@,
            layout.openshift_route_check_helper_path@,
            app.name@,
            app.route_path@,
            app.route_expected_text@,
        ],
    )
}

/// The deploy steps: log in, apply the pull secret and the overlay, set
/// both images, wait for both rollouts, and check both routes.
pub open spec fn spec_openshift_deploy_steps(layout: RepoLayout, skip_tls_verify: bool) -> Seq<
    StepView,
> {
    seq![
        shell_view("log in to OpenShift"@, spec_login_command(skip_tls_verify)),
        step_view(
            "apply registry pull secret"@,
            seq!["sh"@, layout.openshift_pull_secret_helper_path@, "company-ci-registry"@],
        ),
        step_view(
            "apply openshift dev overlay"@,
            seq!["oc"@, "apply"@, "-k"@, layout.openshift_overlay_path@],
        ),
        spec_set_image_step("set next-web image"@, layout.next_web),
        spec_set_image_step("set spring-api image"@, layout.spring_api),
        step_view(
            "verify next-web rollout"@,
            seq!["oc"@, "rollout"@, "status"@, "deployment/next-web"@],
        ),
        step_view(
            "verify spring-api rollout"@,
            seq!["oc"@, "rollout"@, "status"@, "deployment/spring-api"@],
        ),
        spec_route_check_step("check next-web route"@, layout, layout.next_web),
        spec_route_check_step("check spring-api route"@, layout, layout.spring_api),
    ]
}

/// The env contracts a deploy needs: the login, then the image contract.
pub open spec fn spec_deploy_requirements() -> Seq<EnvRequirementView> {
    spec_auth_requirements() + seq![
        variable_req("COMPANY_CI_IMAGE_PULL_REGISTRY"@),
        variable_req("COMPANY_CI_IMAGE_NAMESPACE"@),
        variable_req("COMPANY_CI_IMAGE_TAG"@),
        secret_req("COMPANY_CI_IMAGE_REGISTRY_USERNAME"@),
        secret_or_file_req(
            "COMPANY_CI_IMAGE_REGISTRY_PASSWORD"@,
            "COMPANY_CI_IMAGE_REGISTRY_PASSWORD_FILE"@,
        ),
    ]
}

/// The deploy plan, or the error a malformed TLS setting gives.
pub open spec fn spec_deploy_openshift_plan(ctx: ExecutionContext, env: EnvSnapshotView) -> Result<
    PlanView,
    ErrorView,
> {
    match spec_skip_tls_verify("deploy-openshift"@, env) {
        Err(e) => Err(e),
        Ok(skip) => Ok(
            PlanView {
                name: "deploy-openshift"@,
                required_tools: append_new(Seq::empty(), seq!["oc"@, "curl"@]),
                required_env: append_new(Seq::empty(), spec_deploy_requirements()),
                dry_run_notes: seq!["openshift skip tls verify: "@ + bool_text(skip)],
                steps: spec_openshift_deploy_steps(ctx.repo_layout, skip),
            },
        ),
    }
}

/// The platform images are built for when none is configured.
pub open spec fn default_platform() -> Seq<char> {
    "linux/amd64"@
}

/// The image settings of an end-to-end run: the OpenShift local contract,
/// whose tag is `dev` unless one is configured.
pub open spec fn spec_e2e_settings(env: EnvSnapshotView) -> ImageSettingsView {
    spec_image_settings(ImageProfile::OpenshiftLocal, env)
}

/// An optional name and value pair.
pub open spec fn pair_if(value: Option<Seq<char>>, name: Seq<char>) -> Seq<(Seq<char>, Seq<char>)> {
    match value {
        Some(v) => seq![(name, v)],
        None => Seq::empty(),
    }
}

/// The variables the nested commands of an end-to-end run default to.
pub open spec fn spec_default_env(s: ImageSettingsView) -> Seq<(Seq<char>, Seq<char>)> {
    seq![
        ("COMPANY_CI_IMAGE_PUSH_REGISTRY"@, s.push_registry),
        ("COMPANY_CI_IMAGE_PULL_REGISTRY"@, s.pull_registry),
        ("COMPANY_CI_IMAGE_NAMESPACE"@, s.namespace),
        ("COMPANY_CI_IMAGE_TAG"@, s.tag),
        ("COMPANY_CI_IMAGE_PLATFORM"@, default_platform()),
    ] + pair_if(s.registry_username, "COMPANY_CI_IMAGE_REGISTRY_USERNAME"@) + pair_if(
        s.registry_password_file,
        "COMPANY_CI_IMAGE_REGISTRY_PASSWORD_FILE"@,
    )
}

/// `NAME=${NAME:-'value'}`: the variable keeps a value it already has.
pub open spec fn default_assignment(d: (Seq<char>, Seq<char>)) -> Seq<char> {
    d.0 + "=${"@ + d.0 + ":-"@ + sh_quoted(d.1) + "}"@
}

/// Each default assignment followed by a space.
pub open spec fn default_env_prefix(defaults: Seq<(Seq<char>, Seq<char>)>) -> Seq<char>
    decreases defaults.len(),
{
    if defaults.len() == 0 {
        Seq::empty()
    } else {
        default_env_prefix(defaults.drop_last()) + default_assignment(defaults.last()) + " "@
    }
}

/// A shell command run with default values for some variables.
pub open spec fn spec_command_with_default_env(
    defaults: Seq<(Seq<char>, Seq<char>)>,
    command: Seq<char>,
) -> Seq<char> {
    default_env_prefix(defaults) + command
}

/// The tool's own binary, quoted, followed by its arguments.
pub open spec fn spec_company_ci_shell_command(binary: Seq<char>, args: Seq<Seq<char>>) -> Seq<char> {
    sh_quoted(binary) + if args.len() > 0 {
        " "@ + seq_join(args, " "@)
    } else {
        Seq::empty()
    }
}

/// A nested run of the tool with the end-to-end defaults.
pub open spec fn nested_run(
    description: Seq<char>,
    defaults: Seq<(Seq<char>, Seq<char>)>,
    binary: Seq<char>,
    args: Seq<Seq<char>>,
) -> StepView {
    shell_view(
        description,
        spec_command_with_default_env(defaults, spec_company_ci_shell_command(binary, args)),
    )
}

/// The end-to-end plan: verify, then build, publish and deploy through
/// nested runs of the tool with the OpenShift local defaults.
pub open spec fn spec_e2e_openshift_plan(
    ctx: ExecutionContext,
    env: EnvSnapshotView,
) -> Result<PlanView, ErrorView> {
    let s = spec_e2e_settings(env);
    let defaults = spec_default_env(s);
    let bin = ctx.company_ci_binary@;
    match spec_skip_tls_verify("e2e-openshift"@, env) {
        Err(e) => Err(e),
        Ok(skip) => Ok(
            PlanView {
                name: "e2e-openshift"@,
                required_tools: append_new(
                    Seq::empty(),
                    seq![
                        "curl"@,
                        "oc"@,
                        "java"@,
                        "./mvnw"@,
                        "node"@,
                        "npm"@,
                        engine_binary(ctx.container_engine),
                    ],
                ),
                required_env: append_new(Seq::empty(), spec_auth_requirements()),
                dry_run_notes: seq![
                    "openshift image tag: "@ + s.tag,
                    "openshift image platform: "@ + unwrap_or(
                        env.non_blank_var("COMPANY_CI_IMAGE_PLATFORM"@),
                        default_platform(),
                    ),
                    "openshift skip tls verify: "@ + bool_text(skip),
                ],
                steps: seq![
                    step_view("verify all components"@, seq![bin, "verify"@]),
                    nested_run("build images"@, defaults, bin, seq!["image"@, "build"@]),
                    nested_run("publish images"@, defaults, bin, seq!["image"@, "publish"@]),
                    nested_run(
                        "deploy openshift overlays"@,
                        defaults,
                        bin,
                        seq!["deploy"@, "openshift"@],
                    ),
                ],
            },
        ),
    }
}

/// The image reference expression a deployment is set to.
pub fn openshift_image_ref_expression(app: &ApplicationLayout) -> (r: String)
    ensures
        r@ == spec_openshift_image_ref_expression(*app),
{
    "\"${".to_owned().concat(app.image_override_env).concat(
        ":-${COMPANY_CI_IMAGE_PULL_REGISTRY}/${COMPANY_CI_IMAGE_NAMESPACE}/",
    ).concat(app.name).concat(":${COMPANY_CI_IMAGE_TAG}}\"")
}

fn set_image_step(description: &str, app: &ApplicationLayout) -> (r: Step)
    ensures
        r@ == spec_set_image_step(description@, *app),
{
    let command = "oc set image deployment/".to_owned().concat(app.deployment_name).concat(
        " ",
    ).concat(app.container_name).concat("=").concat(
        openshift_image_ref_expression(app).as_str(),
    );
    shell_step(description, command.as_str())
}

fn route_check_step(description: &str, layout: &RepoLayout, app: &ApplicationLayout) -> (r: Step)
    ensures
        r@ == spec_route_check_step(description@, *layout, *app),
{
    let parts = vec![
        "sh",
        layout.openshift_route_check_helper_path,
        app.name,
        app.route_path,
        app.route_expected_text,
    ];
    let r = step(description, parts);
    assert(strs_view(parts@) =~= seq![
        "sh"@,
        layout.openshift_route_check_helper_path@,
        app.name@,
        app.route_path@,
        app.route_expected_text@,
    ]);
    r
}

fn fixed_step(description: &str, parts: Vec<&str>) -> (r: Step)
    ensures
        r@ == step_view(description@, strs_view(parts@)),
{
    step(description, parts)
}

/// The deploy steps for a layout and login setting.
pub fn openshift_deploy_steps(layout: &RepoLayout, openshift: &OpenshiftConfig) -> (r: Vec<Step>)
    ensures
        steps_view(r@) == spec_openshift_deploy_steps(*layout, openshift@),
{
    let login = shell_step("log in to OpenShift", openshift.login_command().as_str());
    let pull_secret = fixed_step(
        "apply registry pull secret",
        vec!["sh", layout.openshift_pull_secret_helper_path, "company-ci-registry"],
    );
    assert(pull_secret@.command =~= seq![
        "sh"@,
        layout.openshift_pull_secret_helper_path@,
        "company-ci-registry"@,
    ]);
    let overlay = fixed_step(
        "apply openshift dev overlay",
        vec!["oc", "apply", "-k", layout.openshift_overlay_path],
    );
    assert(overlay@.command =~= seq!["oc"@, "apply"@, "-k"@, layout.openshift_overlay_path@]);
    let next_web_rollout = fixed_step(
        "verify next-web rollout",
        vec!["oc", "rollout", "status", "deployment/next-web"],
    );
    assert(next_web_rollout@.command =~= seq![
        "oc"@,
        "rollout"@,
        "status"@,
        "deployment/next-web"@,
    ]);
    let spring_api_rollout = fixed_step(
        "verify spring-api rollout",
        vec!["oc", "rollout", "status", "deployment/spring-api"],
    );
    assert(spring_api_rollout@.command =~= seq![
        "oc"@,
        "rollout"@,
        "status"@,
        "deployment/spring-api"@,
    ]);
    let r = vec![
        login,
        pull_secret,
        overlay,
        set_image_step("set next-web image", &layout.next_web),
        set_image_step("set spring-api image", &layout.spring_api),
        next_web_rollout,
        spring_api_rollout,
        route_check_step("check next-web route", layout, &layout.next_web),
        route_check_step("check spring-api route", layout, &layout.spring_api),
    ];
    assert(steps_view(r@) =~= spec_openshift_deploy_steps(*layout, openshift@));
    r
}

/// The env contracts a deploy needs.
pub fn openshift_deploy_requirements() -> (r: Vec<EnvRequirement>)
    ensures
        reqs_view(r@) == spec_deploy_requirements(),
{
    let mut requirements = OpenshiftConfig::auth_requirements();
    let ghost auth = reqs_view(requirements@);
    requirements.push(EnvRequirement::variable("COMPANY_CI_IMAGE_PULL_REGISTRY"));
    requirements.push(EnvRequirement::variable("COMPANY_CI_IMAGE_NAMESPACE"));
    requirements.push(EnvRequirement::variable("COMPANY_CI_IMAGE_TAG"));
    requirements.push(EnvRequirement::secret("COMPANY_CI_IMAGE_REGISTRY_USERNAME"));
    requirements.push(
        EnvRequirement::secret_or_file(
            "COMPANY_CI_IMAGE_REGISTRY_PASSWORD",
            "COMPANY_CI_IMAGE_REGISTRY_PASSWORD_FILE",
        ),
    );
    assert(auth =~= spec_auth_requirements());
    assert(reqs_view(requirements@) =~= spec_deploy_requirements());
    requirements
}

/// The deploy plan for a context and environment.
pub fn deploy_openshift_plan(context: &ExecutionContext, env: &EnvSnapshot) -> (r: Result<
    Plan,
    CompanyCiError,
>)
    ensures
        crate::plan::plan_outcome(r) == spec_deploy_openshift_plan(*context, env@),
{
    let openshift = match OpenshiftConfig::from_lookup("deploy-openshift", env) {
        Ok(c) => c,
        Err(e) => return Err(e),
    };
    let layout = &context.repo_layout;
    let tools = strings(vec!["oc", "curl"]);
    assert(tools.deep_view() =~= seq!["oc"@, "curl"@]);
    let note = "openshift skip tls verify: ".to_owned().concat(
        bool_to_text(openshift.skip_tls_verify()).as_str(),
    );
    let notes = vec![note];
    assert(notes.deep_view() =~= seq![note@]);
    Ok(
        Plan::new("deploy-openshift", openshift_deploy_steps(layout, &openshift)).with_required_tools(
            tools,
        ).with_required_env(openshift_deploy_requirements()).with_dry_run_notes(notes),
    )
}

/// The platform images are built for when none is configured.
pub fn default_openshift_image_platform() -> (r: &'static str)
    ensures
        r@ == default_platform(),
{
    "linux/amd64"
}

/// The image settings of an end-to-end run.
pub fn openshift_e2e_settings(env: &EnvSnapshot) -> (r: ImageSettings)
    ensures
        r@ == spec_e2e_settings(env@),
{
    ImageSettings::from_lookup(ImageProfile::OpenshiftLocal, env)
}

fn push_pair(pairs: &mut Vec<(String, String)>, name: &str, value: &str)
    ensures
        pairs_view(final(pairs)@) == pairs_view(old(pairs)@).push((name@, value@)),
{
    let ghost before = pairs_view(pairs@);
    pairs.push((name.to_owned(), value.to_owned()));
    assert(pairs_view(pairs@) =~= before.push((name@, value@)));
}

/// The values of a list of name and value pairs.
pub open spec fn pairs_view(pairs: Seq<(String, String)>) -> Seq<(Seq<char>, Seq<char>)> {
    pairs.map_values(|p: (String, String)| (p.0@, p.1@))
}

/// The variables the nested commands of an end-to-end run default to.
pub fn openshift_default_env(settings: &ImageSettings) -> (r: Vec<(String, String)>)
    ensures
        pairs_view(r@) == spec_default_env(settings@),
{
    let mut defaults: Vec<(String, String)> = Vec::new();
    push_pair(&mut defaults, "COMPANY_CI_IMAGE_PUSH_REGISTRY", settings.push_registry());
    push_pair(&mut defaults, "COMPANY_CI_IMAGE_PULL_REGISTRY", settings.pull_registry());
    push_pair(&mut defaults, "COMPANY_CI_IMAGE_NAMESPACE", settings.namespace());
    push_pair(&mut defaults, "COMPANY_CI_IMAGE_TAG", settings.tag());
    push_pair(&mut defaults, "COMPANY_CI_IMAGE_PLATFORM", default_openshift_image_platform());
    let ghost base = pairs_view(defaults@);
    match settings.registry_username() {
        Some(username) => push_pair(&mut defaults, "COMPANY_CI_IMAGE_REGISTRY_USERNAME", username),
        None => {},
    }
    let ghost with_user = pairs_view(defaults@);
    assert(with_user =~= base + pair_if(settings@.registry_username, "COMPANY_CI_IMAGE_REGISTRY_USERNAME"@));
    match settings.registry_password_file() {
        Some(password_file) => push_pair(
            &mut defaults,
            "COMPANY_CI_IMAGE_REGISTRY_PASSWORD_FILE",
            password_file,
        ),
        None => {},
    }
    assert(pairs_view(defaults@) =~= with_user + pair_if(
        settings@.registry_password_file,
        "COMPANY_CI_IMAGE_REGISTRY_PASSWORD_FILE"@,
    ));
    assert(base =~= seq![
        ("COMPANY_CI_IMAGE_PUSH_REGISTRY"@, settings@.push_registry),
        ("COMPANY_CI_IMAGE_PULL_REGISTRY"@, settings@.pull_registry),
        ("COMPANY_CI_IMAGE_NAMESPACE"@, settings@.namespace),
        ("COMPANY_CI_IMAGE_TAG"@, settings@.tag),
        ("COMPANY_CI_IMAGE_PLATFORM"@, default_platform()),
    ]);
    defaults
}

/// A shell command run with default values for some variables.
pub fn command_with_default_env(defaults: &Vec<(String, String)>, command: &str) -> (r: String)
    ensures
        r@ == spec_command_with_default_env(pairs_view(defaults@), command@),
{
    let ghost all = pairs_view(defaults@);
    let mut prefix = String::new();
    let mut i: usize = 0;
    while i < defaults.len()
        invariant
            i <= defaults.len(),
            all == pairs_view(defaults@),
            prefix@ == default_env_prefix(all.take(i as int)),
        decreases defaults.len() - i,
    {
        assert(all.take(i + 1).drop_last() =~= all.take(i as int));
        let name = defaults[i].0.as_str();
        let value = defaults[i].1.as_str();
        prefix.append(name);
        prefix.append("=${");
        prefix.append(name);
        prefix.append(":-");
        prefix.append(sh_quote(value).as_str());
        prefix.append("}");
        prefix.append(" ");
        i += 1;
    }
    assert(all.take(defaults.len() as int) =~= all);
    prefix.concat(command)
}

/// The tool's own binary, quoted, followed by its arguments.
pub fn company_ci_shell_command(context: &ExecutionContext, args: Vec<&str>) -> (r: String)
    ensures
        r@ == spec_company_ci_shell_command(context.company_ci_binary@, strs_view(args@)),
{
    let quoted = sh_quote(context.company_ci_binary.as_str());
    if args.len() > 0 {
        let words = strings(args);
        quoted.concat(" ").concat(join(&words, " ").as_str())
    } else {
        assert(quoted@ =~= quoted@ + Seq::<char>::empty());
        quoted
    }
}

/// A step that runs the tool's own binary with `args`.
pub fn company_ci_step(context: &ExecutionContext, description: &str, args: Vec<&str>) -> (r: Step)
    ensures
        r@ == step_view(description@, seq![context.company_ci_binary@] + strs_view(args@)),
{
    let mut command = vec![context.company_ci_binary.clone()];
    let ghost head = command.deep_view();
    assert(head =~= seq![context.company_ci_binary@]);
    let mut rest = strings(args);
    let ghost tail = rest.deep_view();
    command.append(&mut rest);
    assert(command.deep_view() =~= head + tail);
    owned_step(description.to_owned(), command)
}

fn nested_run_step(
    context: &ExecutionContext,
    description: &str,
    defaults: &Vec<(String, String)>,
    args: Vec<&str>,
) -> (r: Step)
    ensures
        r@ == nested_run(
            description@,
            pairs_view(defaults@),
            context.company_ci_binary@,
            strs_view(args@),
        ),
{
    let command = command_with_default_env(
        defaults,
        company_ci_shell_command(context, args).as_str(),
    );
    shell_step(description, command.as_str())
}

/// The end-to-end plan for a context and environment; the images are
/// tagged `dev` unless a tag is configured.
pub fn e2e_openshift_plan(context: &ExecutionContext, env: &EnvSnapshot) -> (r: Result<
    Plan,
    CompanyCiError,
>)
    ensures
        crate::plan::plan_outcome(r) == spec_e2e_openshift_plan(*context, env@),
{
    let image_settings = openshift_e2e_settings(env);
    let env_defaults = openshift_default_env(&image_settings);
    let openshift = match OpenshiftConfig::from_lookup("e2e-openshift", env) {
        Ok(c) => c,
        Err(e) => return Err(e),
    };
    let verify_args = vec!["verify"];
    let build_args = vec!["image", "build"];
    let publish_args = vec!["image", "publish"];
    let deploy_args = vec!["deploy", "openshift"];
    assert(strs_view(verify_args@) =~= seq!["verify"@]);
    assert(strs_view(build_args@) =~= seq!["image"@, "build"@]);
    assert(strs_view(publish_args@) =~= seq!["image"@, "publish"@]);
    assert(strs_view(deploy_args@) =~= seq!["deploy"@, "openshift"@]);
    let verify = company_ci_step(context, "verify all components", verify_args);
    assert(verify@.command =~= seq![context.company_ci_binary@, "verify"@]);
    let steps = vec![
        verify,
        nested_run_step(context, "build images", &env_defaults, build_args),
        nested_run_step(context, "publish images", &env_defaults, publish_args),
        nested_run_step(context, "deploy openshift overlays", &env_defaults, deploy_args),
    ];
    let tool_parts = vec![
        "curl",
        "oc",
        "java",
        "./mvnw",
        "node",
        "npm",
        context.container_engine.binary(),
    ];
    let tools = strings(tool_parts);
    assert(tools.deep_view() =~= seq![
        "curl"@,
        "oc"@,
        "java"@,
        "./mvnw"@,
        "node"@,
        "npm"@,
        engine_binary(context.container_engine),
    ]);
    let platform = match env.non_blank_var("COMPANY_CI_IMAGE_PLATFORM") {
        Some(p) => p,
        None => default_openshift_image_platform().to_owned(),
    };
    let notes = vec![
        "openshift image tag: ".to_owned().concat(image_settings.tag()),
        "openshift image platform: ".to_owned().concat(platform.as_str()),
        "openshift skip tls verify: ".to_owned().concat(
            bool_to_text(openshift.skip_tls_verify()).as_str(),
        ),
    ];
    assert(notes.deep_view() =~= seq![
        "openshift image tag: "@ + image_settings@.tag,
        "openshift image platform: "@ + unwrap_or(
            env@.non_blank_var("COMPANY_CI_IMAGE_PLATFORM"@),
            default_platform(),
        ),
        "openshift skip tls verify: "@ + bool_text(openshift@),
    ]);
    let ghost defaults = spec_default_env(image_settings@);
    let ghost bin = context.company_ci_binary@;
    assert(steps_view(steps@) =~= seq![
        step_view("verify all components"@, seq![bin, "verify"@]),
        nested_run("build images"@, defaults, bin, seq!["image"@, "build"@]),
        nested_run("publish images"@, defaults, bin, seq!["image"@, "publish"@]),
        nested_run("deploy openshift overlays"@, defaults, bin, seq!["deploy"@, "openshift"@]),
    ]);
    let auth = OpenshiftConfig::auth_requirements();
    assert(reqs_view(auth@) =~= auth@.map_values(|q: EnvRequirement| q@));
    let plan = Plan::new("e2e-openshift", steps);
    Ok(plan.with_required_tools(tools).with_required_env(auth).with_dry_run_notes(notes))
}

} // verus!
