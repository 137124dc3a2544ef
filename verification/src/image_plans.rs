//! Plans that build application images and push them to a registry.
use vstd::prelude::*;
use crate::component_plans::{java_tools, node_tools};
use crate::container_engine::{engine_binary, ContainerEngine};
use crate::context::{spec_affects, ExecutionContext};
use crate::env_snapshot::{opt_str_view, EnvSnapshot, EnvSnapshotView};
use crate::error::{CompanyCiError, ErrorView};
use crate::image_config::{
    spec_has_registry_auth, spec_image_ref, spec_image_settings, spec_validate_publish_contract,
    ImageProfile, ImageSettings, ImageSettingsView,
};
use crate::impact::Area;
use crate::ordered_set::append_new;
use crate::plan::{
    append_strings, extend_steps, lemma_unique_twice, noop_if_empty, or_noop, pair, reqs_view,
    sh_quote, sh_quoted, shell_step, shell_view, single, step, step_view, steps_view, steps_when,
    steps_if, strs_view, tools_if, tools_when, unique_tools, Plan, PlanView, Step, StepView,
};
use crate::repo_layout::{ApplicationLayout, RepoLayout};
use crate::requirements::{secret_or_file_req, secret_req, EnvRequirement, EnvRequirementView};

verus! {

/// The command that builds an image: `<engine> build [--platform P] -f
/// <containerfile> -t <ref> <context>`, each operand quoted.
pub open spec fn spec_image_build_command(
    engine: ContainerEngine,
    containerfile: Seq<char>,
    image_ref: Seq<char>,
    build_context: Seq<char>,
    image_platform: Option<Seq<char>>,
) -> Seq<char> {
    engine_binary(engine) + " build"@ + match image_platform {
        Some(p) => " --platform "@ + sh_quoted(p),
        None => ""@,
    } + " -f "@ + sh_quoted(containerfile) + " -t "@ + sh_quoted(image_ref) + " "@ + sh_quoted(
        build_context,
    )
}

/// The command that pushes an image; Podman's TLS verification follows
/// `COMPANY_CI_IMAGE_TLS_VERIFY` and is off by default.
pub open spec fn spec_image_push_command(engine: ContainerEngine, image_ref: Seq<char>) -> Seq<char> {
    match engine {
        ContainerEngine::Docker => "docker push "@ + sh_quoted(image_ref),
        ContainerEngine::Podman => "podman push --tls-verify=${COMPANY_CI_IMAGE_TLS_VERIFY:-false} "@
            + sh_quoted(image_ref),
    }
}

/// The two steps that build an application's image: the given inputs
/// step, then the image build described by `description`.
pub open spec fn spec_app_image_steps(
    inputs: StepView,
    description: Seq<char>,
    app: ApplicationLayout,
    engine: ContainerEngine,
    settings: ImageSettingsView,
    platform: Option<Seq<char>>,
) -> Seq<StepView> {
    seq![
        inputs,
        shell_view(
            description,
            spec_image_build_command(
                engine,
                app.containerfile_path@,
                spec_image_ref(settings, app.image, settings.push_registry),
                app.project_dir@,
                platform,
            ),
        ),
    ]
}

/// The image build plan: for each affected application, its inputs and its
/// image, with the tools that needs; a no-op when neither is affected.
pub open spec fn spec_image_build_plan(ctx: ExecutionContext, env: EnvSnapshotView) -> PlanView {
    let layout = ctx.repo_layout;
    let engine = ctx.container_engine;
    let settings = spec_image_settings(ImageProfile::Local, env);
    let platform = env.non_blank_var("COMPANY_CI_IMAGE_PLATFORM"@);
    let nw = spec_affects(ctx.impacted_areas@, Area::NextWeb);
    let sa = spec_affects(ctx.impacted_areas@, Area::SpringApi);
    PlanView {
        name: "image-build"@,
        required_tools: append_new(
            Seq::empty(),
            tools_if(nw, node_tools().push(engine_binary(engine))) + tools_if(
                sa,
                java_tools().push(engine_binary(engine)),
            ),
        ),
        required_env: Seq::empty(),
        dry_run_notes: Seq::empty(),
        steps: or_noop(
            steps_if(
                nw,
                spec_app_image_steps(
                    shell_view(
                        "build next-web image inputs"@,
                        "cd "@ + layout.next_web.project_dir@ + " && npm run build"@,
                    ),
                    "build next-web image"@,
                    layout.next_web,
                    engine,
                    settings,
                    platform,
                ),
            ) + steps_if(
                sa,
                spec_app_image_steps(
                    step_view(
                        "package spring-api image inputs"@,
                        seq![
                            "./mvnw"@,
                            "-B"@,
                            "-ntp"@,
                            "-f"@,
                            layout.spring_api.manifest_path@,
                            "-DskipTests"@,
                            "package"@,
                        ],
                    ),
                    "build spring-api image"@,
                    layout.spring_api,
                    engine,
                    settings,
                    platform,
                ),
            ),
            "no impacted application images detected"@,
        ),
    }
}

/// `reqs` when `cond`, else nothing.
pub open spec fn reqs_if(cond: bool, reqs: Seq<EnvRequirementView>) -> Seq<EnvRequirementView> {
    if cond {
        reqs
    } else {
        Seq::empty()
    }
}

/// The registry credentials an authenticated push needs.
pub open spec fn registry_auth_requirements() -> Seq<EnvRequirementView> {
    seq![
        secret_req("COMPANY_CI_IMAGE_REGISTRY_USERNAME"@),
        secret_or_file_req(
            "COMPANY_CI_IMAGE_REGISTRY_PASSWORD"@,
            "COMPANY_CI_IMAGE_REGISTRY_PASSWORD_FILE"@,
        ),
    ]
}

/// The image publish plan: refused when the registry credentials are
/// incomplete; else a registry login when an affected image is pushed with
/// credentials, then a push of each affected image; a no-op when neither
/// application is affected.
pub open spec fn spec_image_publish_plan(ctx: ExecutionContext, env: EnvSnapshotView) -> Result<
    PlanView,
    ErrorView,
> {
    let layout = ctx.repo_layout;
    let engine = ctx.container_engine;
    let bin = engine_binary(engine);
    let settings = spec_image_settings(ImageProfile::Local, env);
    let nw = spec_affects(ctx.impacted_areas@, Area::NextWeb);
    let sa = spec_affects(ctx.impacted_areas@, Area::SpringApi);
    let auth = (nw || sa) && spec_has_registry_auth(settings);
    match spec_validate_publish_contract(settings, "image-publish"@) {
        Err(e) => Err(e),
        Ok(_) => Ok(
            PlanView {
                name: "image-publish"@,
                required_tools: append_new(
                    Seq::empty(),
                    tools_if(auth, seq![bin]) + tools_if(nw, seq![bin]) + tools_if(sa, seq![bin]),
                ),
                required_env: reqs_if(auth, registry_auth_requirements()),
                dry_run_notes: Seq::empty(),
                steps: or_noop(
                    steps_if(
                        auth,
                        seq![
                            step_view(
                                "authenticate to image registry"@,
                                seq!["sh"@, layout.container_registry_login_helper_path@],
                            ),
                        ],
                    ) + steps_if(
                        nw,
                        seq![
                            shell_view(
                                "push next-web image"@,
                                spec_image_push_command(
                                    engine,
                                    spec_image_ref(settings, layout.next_web.image, settings.push_registry),
                                ),
                            ),
                        ],
                    ) + steps_if(
                        sa,
                        seq![
                            shell_view(
                                "push spring-api image"@,
                                spec_image_push_command(
                                    engine,
                                    spec_image_ref(
                                        settings,
                                        layout.spring_api.image,
                                        settings.push_registry,
                                    ),
                                ),
                            ),
                        ],
                    ),
                    "no impacted application images detected"@,
                ),
            },
        ),
    }
}

/// The command that builds an image.
pub fn image_build_command(
    engine: ContainerEngine,
    containerfile: &str,
    image_ref: &str,
    build_context: &str,
    image_platform: Option<&str>,
) -> (r: String)
    ensures
        r@ == spec_image_build_command(
            engine,
            containerfile@,
            image_ref@,
            build_context@,
            opt_str_view(image_platform),
        ),
{
    let mut command = engine.binary().to_owned().concat(" build");
    match image_platform {
        Some(platform) => {
            command.append(" --platform ");
            command.append(sh_quote(platform).as_str());
        },
        None => {
            proof {
                reveal_strlit("");
            }
            assert(command@ =~= command@ + ""@);
        },
    }
    command.append(" -f ");
    command.append(sh_quote(containerfile).as_str());
    command.append(" -t ");
    command.append(sh_quote(image_ref).as_str());
    command.append(" ");
    command.append(sh_quote(build_context).as_str());
    command
}

/// The command that pushes an image.
pub fn image_push_command(engine: ContainerEngine, image_ref: &str) -> (r: String)
    ensures
        r@ == spec_image_push_command(engine, image_ref@),
{
    match engine {
        ContainerEngine::Docker => "docker push ".to_owned().concat(sh_quote(image_ref).as_str()),
        ContainerEngine::Podman => "podman push --tls-verify=${COMPANY_CI_IMAGE_TLS_VERIFY:-false} ".to_owned().concat(
            sh_quote(image_ref).as_str(),
        ),
    }
}

fn app_image_steps(
    inputs: Step,
    description: &str,
    app: &ApplicationLayout,
    engine: ContainerEngine,
    settings: &ImageSettings,
    platform: Option<&str>,
) -> (r: Vec<Step>)
    ensures
        steps_view(r@) == spec_app_image_steps(
            inputs@,
            description@,
            *app,
            engine,
            settings@,
            opt_str_view(platform),
        ),
{
    let image_ref = settings.push_ref(app.image);
    let command = image_build_command(
        engine,
        app.containerfile_path,
        image_ref.as_str(),
        app.project_dir,
        platform,
    );
    let build = shell_step(description, command.as_str());
    pair(inputs, build)
}

fn next_web_image_steps(
    layout: &RepoLayout,
    engine: ContainerEngine,
    settings: &ImageSettings,
    platform: Option<&str>,
) -> (r: Vec<Step>)
    ensures
        steps_view(r@) == spec_app_image_steps(
            shell_view(
                "build next-web image inputs"@,
                "cd "@ + layout.next_web.project_dir@ + " && npm run build"@,
            ),
            "build next-web image"@,
            layout.next_web,
            engine,
            settings@,
            opt_str_view(platform),
        ),
{
    let inputs = shell_step(
        "build next-web image inputs",
        "cd ".to_owned().concat(layout.next_web.project_dir).concat(" && npm run build").as_str(),
    );
    app_image_steps(inputs, "build next-web image", &layout.next_web, engine, settings, platform)
}

fn spring_api_image_steps(
    layout: &RepoLayout,
    engine: ContainerEngine,
    settings: &ImageSettings,
    platform: Option<&str>,
) -> (r: Vec<Step>)
    ensures
        steps_view(r@) == spec_app_image_steps(
            step_view(
                "package spring-api image inputs"@,
                seq![
                    "./mvnw"@,
                    "-B"@,
                    "-ntp"@,
                    "-f"@,
                    layout.spring_api.manifest_path@,
                    "-DskipTests"@,
                    "package"@,
                ],
            ),
            "build spring-api image"@,
            layout.spring_api,
            engine,
            settings@,
            opt_str_view(platform),
        ),
{
    let parts = vec![
        "./mvnw",
        "-B",
        "-ntp",
        "-f",
        layout.spring_api.manifest_path,
        "-DskipTests",
        "package",
    ];
    let inputs = step("package spring-api image inputs", parts);
    assert(strs_view(parts@) =~= seq![
        "./mvnw"@,
        "-B"@,
        "-ntp"@,
        "-f"@,
        layout.spring_api.manifest_path@,
        "-DskipTests"@,
        "package"@,
    ]);
    app_image_steps(
        inputs,
        "build spring-api image",
        &layout.spring_api,
        engine,
        settings,
        platform,
    )
}

fn opt_as_str(o: &Option<String>) -> (r: Option<&str>)
    ensures
        opt_str_view(r) == crate::env_snapshot::opt_view(*o),
{
    match o {
        Some(s) => Some(s.as_str()),
        None => None,
    }
}

/// The image build plan for a context and environment.
pub fn image_build_plan(context: &ExecutionContext, env: &EnvSnapshot) -> (r: Plan)
    ensures
        r@ == spec_image_build_plan(*context, env@),
{
    let layout = &context.repo_layout;
    let engine = context.container_engine;
    let image_settings = ImageSettings::from_lookup(ImageProfile::Local, env);
    let image_platform = env.non_blank_var("COMPANY_CI_IMAGE_PLATFORM");
    let platform = opt_as_str(&image_platform);
    let nw = context.affects(Area::NextWeb);
    let sa = context.affects(Area::SpringApi);

    let mut steps = steps_when(nw, next_web_image_steps(layout, engine, &image_settings, platform));
    extend_steps(&mut steps, steps_when(sa, spring_api_image_steps(layout, engine, &image_settings, platform)));
    noop_if_empty(&mut steps, "no impacted application images detected");

    let node_and_engine = vec!["node", "npm", engine.binary()];
    let java_and_engine = vec!["java", "./mvnw", engine.binary()];
    assert(strs_view(node_and_engine@) =~= node_tools().push(engine_binary(engine)));
    assert(strs_view(java_and_engine@) =~= java_tools().push(engine_binary(engine)));
    let mut raw = tools_when(nw, node_and_engine);
    append_strings(&mut raw, tools_when(sa, java_and_engine));
    let ghost raw_view = raw.deep_view();
    let tools = unique_tools(raw);
    proof {
        lemma_unique_twice(raw_view);
    }
    Plan::new("image-build", steps).with_required_tools(tools)
}

fn requirements_when(cond: bool) -> (r: Vec<EnvRequirement>)
    ensures
        reqs_view(r@) == reqs_if(cond, registry_auth_requirements()),
{
    if cond {
        let r = vec![
            EnvRequirement::secret("COMPANY_CI_IMAGE_REGISTRY_USERNAME"),
            EnvRequirement::secret_or_file(
                "COMPANY_CI_IMAGE_REGISTRY_PASSWORD",
                "COMPANY_CI_IMAGE_REGISTRY_PASSWORD_FILE",
            ),
        ];
        assert(reqs_view(r@) =~= registry_auth_requirements());
        r
    } else {
        let r: Vec<EnvRequirement> = Vec::new();
        assert(reqs_view(r@) =~= Seq::<EnvRequirementView>::empty());
        r
    }
}

proof fn lemma_registry_auth_requirements_distinct(cond: bool)
    ensures
        append_new(Seq::empty(), reqs_if(cond, registry_auth_requirements())) == reqs_if(
            cond,
            registry_auth_requirements(),
        ),
{
    let r = reqs_if(cond, registry_auth_requirements());
    if cond {
        assert(r[0] != r[1]);
    }
    assert(r.no_duplicates());
    crate::ordered_set::lemma_append_new_distinct(r);
}

fn push_step(description: &str, engine: ContainerEngine, image_ref: String) -> (r: Step)
    ensures
        r@ == shell_view(description@, spec_image_push_command(engine, image_ref@)),
{
    shell_step(description, image_push_command(engine, image_ref.as_str()).as_str())
}

/// The image publish plan for a context and environment.
pub fn image_publish_plan(context: &ExecutionContext, env: &EnvSnapshot) -> (r: Result<
    Plan,
    CompanyCiError,
>)
    ensures
        crate::plan::plan_outcome(r) == spec_image_publish_plan(*context, env@),
{
    let engine = context.container_engine;
    let image_settings = ImageSettings::from_lookup(ImageProfile::Local, env);
    match image_settings.validate_publish_contract("image-publish") {
        Ok(_) => {},
        Err(e) => return Err(e),
    }
    let layout = &context.repo_layout;
    let nw = context.affects(Area::NextWeb);
    let sa = context.affects(Area::SpringApi);
    let auth = (nw || sa) && image_settings.has_registry_auth();

    let login = step(
        "authenticate to image registry",
        vec!["sh", layout.container_registry_login_helper_path],
    );
    assert(login@.command =~= seq!["sh"@, layout.container_registry_login_helper_path@]);
    let mut steps = steps_when(auth, single(login));
    extend_steps(
        &mut steps,
        steps_when(
            nw,
            single(push_step("push next-web image", engine, image_settings.push_ref(layout.next_web.image))),
        ),
    );
    extend_steps(
        &mut steps,
        steps_when(
            sa,
            single(
                push_step("push spring-api image", engine, image_settings.push_ref(layout.spring_api.image)),
            ),
        ),
    );
    noop_if_empty(&mut steps, "no impacted application images detected");

    let mut raw = tools_when(auth, vec![engine.binary()]);
    append_strings(&mut raw, tools_when(nw, vec![engine.binary()]));
    append_strings(&mut raw, tools_when(sa, vec![engine.binary()]));
    let ghost raw_view = raw.deep_view();
    assert(raw_view =~= tools_if(auth, seq![engine_binary(engine)]) + tools_if(
        nw,
        seq![engine_binary(engine)],
    ) + tools_if(sa, seq![engine_binary(engine)]));
    let tools = unique_tools(raw);
    proof {
        lemma_unique_twice(raw_view);
        lemma_registry_auth_requirements_distinct(auth);
    }
    Ok(
        Plan::new("image-publish", steps).with_required_tools(tools).with_required_env(
            requirements_when(auth),
        ),
    )
}

/// An image publish pushes each affected application's image under the
/// very reference its image build tagged it with: the application's own
/// reference in the push registry of the local profile.
pub proof fn lemma_publish_pushes_what_is_built(ctx: ExecutionContext, env: EnvSnapshotView)
    ensures
        match spec_image_publish_plan(ctx, env) {
            Ok(p) => {
                let settings = spec_image_settings(ImageProfile::Local, env);
                let engine = ctx.container_engine;
                let layout = ctx.repo_layout;
                let platform = env.non_blank_var("COMPANY_CI_IMAGE_PLATFORM"@);
                let nw_ref = spec_image_ref(settings, layout.next_web.image, settings.push_registry);
                let sa_ref = spec_image_ref(settings, layout.spring_api.image, settings.push_registry);
                &&& spec_affects(ctx.impacted_areas@, Area::NextWeb) ==> {
                    &&& p.steps.contains(
                        shell_view("push next-web image"@, spec_image_push_command(engine, nw_ref)),
                    )
                    &&& spec_image_build_plan(ctx, env).steps.contains(
                        shell_view(
                            "build next-web image"@,
                            spec_image_build_command(
                                engine,
                                layout.next_web.containerfile_path@,
                                nw_ref,
                                layout.next_web.project_dir@,
                                platform,
                            ),
                        ),
                    )
                }
                &&& spec_affects(ctx.impacted_areas@, Area::SpringApi) ==> {
                    &&& p.steps.contains(
                        shell_view("push spring-api image"@, spec_image_push_command(engine, sa_ref)),
                    )
                    &&& spec_image_build_plan(ctx, env).steps.contains(
                        shell_view(
                            "build spring-api image"@,
                            spec_image_build_command(
                                engine,
                                layout.spring_api.containerfile_path@,
                                sa_ref,
                                layout.spring_api.project_dir@,
                                platform,
                            ),
                        ),
                    )
                }
            },
            Err(_) => true,
        },
{
    if spec_image_publish_plan(ctx, env) is Ok {
        let p = spec_image_publish_plan(ctx, env)->Ok_0;
        let b = spec_image_build_plan(ctx, env);
        let settings = spec_image_settings(ImageProfile::Local, env);
        let engine = ctx.container_engine;
        let layout = ctx.repo_layout;
        let platform = env.non_blank_var("COMPANY_CI_IMAGE_PLATFORM"@);
        let nw = spec_affects(ctx.impacted_areas@, Area::NextWeb);
        let sa = spec_affects(ctx.impacted_areas@, Area::SpringApi);
        let auth = (nw || sa) && spec_has_registry_auth(settings);
        let pa = steps_if(
            auth,
            seq![
                step_view(
                    "authenticate to image registry"@,
                    seq!["sh"@, layout.container_registry_login_helper_path@],
                ),
            ],
        );
        let pb = steps_if(
            nw,
            seq![
                shell_view(
                    "push next-web image"@,
                    spec_image_push_command(
                        engine,
                        spec_image_ref(settings, layout.next_web.image, settings.push_registry),
                    ),
                ),
            ],
        );
        let pc = steps_if(
            sa,
            seq![
                shell_view(
                    "push spring-api image"@,
                    spec_image_push_command(
                        engine,
                        spec_image_ref(settings, layout.spring_api.image, settings.push_registry),
                    ),
                ),
            ],
        );
        let ba = steps_if(
            nw,
            spec_app_image_steps(
                shell_view(
                    "build next-web image inputs"@,
                    "cd "@ + layout.next_web.project_dir@ + " && npm run build"@,
                ),
                "build next-web image"@,
                layout.next_web,
                engine,
                settings,
                platform,
            ),
        );
        let bb = steps_if(
            sa,
            spec_app_image_steps(
                step_view(
                    "package spring-api image inputs"@,
                    seq![
                        "./mvnw"@,
                        "-B"@,
                        "-ntp"@,
                        "-f"@,
                        layout.spring_api.manifest_path@,
                        "-DskipTests"@,
                        "package"@,
                    ],
                ),
                "build spring-api image"@,
                layout.spring_api,
                engine,
                settings,
                platform,
            ),
        );
        if nw {
            assert(pb[0] == shell_view(
                "push next-web image"@,
                spec_image_push_command(
                    engine,
                    spec_image_ref(settings, layout.next_web.image, settings.push_registry),
                ),
            ));
            assert((pa + pb + pc)[pa.len() as int] == pb[0]);
            assert(p.steps == pa + pb + pc);
            assert(p.steps[pa.len() as int] == pb[0]);
            assert(ba[1] == shell_view(
                "build next-web image"@,
                spec_image_build_command(
                    engine,
                    layout.next_web.containerfile_path@,
                    spec_image_ref(settings, layout.next_web.image, settings.push_registry),
                    layout.next_web.project_dir@,
                    platform,
                ),
            ));
            assert((ba + bb)[1] == ba[1]);
            assert(b.steps == ba + bb);
            assert(b.steps[1] == ba[1]);
        }
        if sa {
            assert((pa + pb + pc)[(pa.len() + pb.len()) as int] == pc[0]);
            assert(p.steps == pa + pb + pc);
            assert(p.steps[(pa.len() + pb.len()) as int] == pc[0]);
            assert((ba + bb)[(ba.len() + 1) as int] == bb[1]);
            assert(b.steps == ba + bb);
            assert(b.steps[(ba.len() + 1) as int] == bb[1]);
        }
    }
}

} // verus!
