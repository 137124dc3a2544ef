//! Verify, build, test and package plans for the repository's components,
//! narrowed to the areas the current change affects.
use vstd::prelude::*;
use crate::context::{spec_affects, ExecutionContext};
use crate::impact::Area;
use crate::ordered_set::{
    append_new, lemma_append_new_distinct, lemma_append_new_no_duplicates, lemma_concat_contains,
};
use crate::plan::{
    append_strings, extend_steps, noop_step, noop_view, shell_step, shell_view, single, step,
    step_view, steps_if, steps_view, strs_view, tools_if, tools_when, unique_tools, Plan, PlanView,
    Step, StepView,
};
use crate::repo_layout::{ApplicationLayout, LibraryLayout};

verus! {

/// The phase of work a component plan runs.
#[derive(Debug, Clone, Copy, PartialEq, Eq, Structural)]
pub enum Mode {
    Verify,
    Build,
    Test,
    Package,
}

/// The steps of a Node application.
pub open spec fn spec_node_component_steps(c: ApplicationLayout, mode: Mode) -> Seq<StepView> {
    let name = c.name@;
    let dir = c.project_dir@;
    match mode {
        Mode::Verify => seq![
            shell_view(
                "run "@ + name + " quality checks"@,
                "cd "@ + dir + " && npm run lint && npm test && npm run build"@,
            ),
        ],
        Mode::Build => seq![shell_view("build "@ + name, "cd "@ + dir + " && npm run build"@)],
        Mode::Test => seq![shell_view("test "@ + name, "cd "@ + dir + " && npm test"@)],
        Mode::Package => seq![noop_view("next-web packaging is handled through image commands"@)],
    }
}

/// The steps of a Maven project, application or library.
pub open spec fn spec_maven_steps(name: Seq<char>, manifest: Seq<char>, mode: Mode) -> Seq<StepView> {
    match mode {
        Mode::Verify => seq![
            step_view(
                "verify "@ + name,
                seq!["./mvnw"@, "-B"@, "-ntp"@, "-f"@, manifest, "verify"@],
            ),
        ],
        Mode::Build => seq![
            step_view(
                "build "@ + name,
                seq!["./mvnw"@, "-B"@, "-ntp"@, "-f"@, manifest, "-DskipTests"@, "compile"@],
            ),
        ],
        Mode::Test => seq![
            step_view("test "@ + name, seq!["./mvnw"@, "-B"@, "-ntp"@, "-f"@, manifest, "test"@]),
        ],
        Mode::Package => seq![
            step_view(
                "package "@ + name,
                seq!["./mvnw"@, "-B"@, "-ntp"@, "-f"@, manifest, "-DskipTests"@, "package"@],
            ),
        ],
    }
}

/// The steps of a Node library.
pub open spec fn spec_node_library_steps(l: LibraryLayout, mode: Mode) -> Seq<StepView> {
    let name = l.name@;
    let dir = l.project_dir@;
    match mode {
        Mode::Verify => seq![
            shell_view(
                "run "@ + name + " checks"@,
                "cd "@ + dir
                    + " && npm run lint && npm run typecheck && npm run build && npm test && npm run package"@,
            ),
        ],
        Mode::Build => seq![
            shell_view(
                "build "@ + name,
                "cd "@ + dir + " && npm run lint && npm run typecheck && npm run build"@,
            ),
        ],
        Mode::Test => seq![
            shell_view("test "@ + name, "cd "@ + dir + " && npm run build && npm test"@),
        ],
        Mode::Package => seq![
            shell_view(
                "package "@ + name,
                "mkdir -p target/node-packages && cd "@ + dir
                    + " && npm run lint && npm run typecheck && npm run build && npm pack --pack-destination ../../target/node-packages"@,
            ),
        ],
    }
}


/// The steps for every affected component, in component order; a single
/// no-op step when no component is affected.
pub open spec fn spec_component_steps(ctx: ExecutionContext, mode: Mode) -> Seq<StepView> {
    let layout = ctx.repo_layout;
    let imp = ctx.impacted_areas@;
    let s = steps_if(spec_affects(imp, Area::NextWeb), spec_node_component_steps(layout.next_web, mode))
        + steps_if(
        spec_affects(imp, Area::SpringApi),
        spec_maven_steps(layout.spring_api.name@, layout.spring_api.manifest_path@, mode),
    ) + steps_if(spec_affects(imp, Area::NodeLib), spec_node_library_steps(layout.node_lib, mode))
        + steps_if(
        spec_affects(imp, Area::JavaLib),
        spec_maven_steps(layout.java_lib.name@, layout.java_lib.manifest_path@, mode),
    );
    if s.len() == 0 {
        seq![noop_view("no impacted component work detected"@)]
    } else {
        s
    }
}

/// The Node toolchain.
pub open spec fn node_tools() -> Seq<Seq<char>> {
    seq!["node"@, "npm"@]
}

/// The Java toolchain.
pub open spec fn java_tools() -> Seq<Seq<char>> {
    seq!["java"@, "./mvnw"@]
}


/// The tools each affected component needs, each once in order of first
/// need; packaging the Node application needs none.
pub open spec fn spec_component_tools(impacted: Seq<Area>, mode: Mode) -> Seq<Seq<char>> {
    append_new(Seq::empty(), raw_component_tools(impacted, mode))
}

/// A component plan: the component steps and the tools they need.
pub open spec fn spec_mode_plan(ctx: ExecutionContext, name: Seq<char>, mode: Mode) -> PlanView {
    PlanView {
        name,
        required_tools: spec_component_tools(ctx.impacted_areas@, mode),
        required_env: Seq::empty(),
        dry_run_notes: Seq::empty(),
        steps: spec_component_steps(ctx, mode),
    }
}

/// The verify plan: the manifest checks, then each affected component's
/// checks.
pub open spec fn spec_verify_plan(ctx: ExecutionContext) -> PlanView {
    PlanView {
        name: "verify"@,
        required_tools: spec_component_tools(ctx.impacted_areas@, Mode::Verify),
        required_env: Seq::empty(),
        dry_run_notes: Seq::empty(),
        steps: seq![
            step_view(
                "validate deployment manifests exist"@,
                seq!["test"@, "-f"@, ctx.repo_layout.next_web_kustomization_path@],
            ),
            step_view(
                "validate spring api containerfile exists"@,
                seq!["test"@, "-f"@, ctx.repo_layout.spring_api.containerfile_path@],
            ),
        ] + spec_component_steps(ctx, Mode::Verify),
    }
}


fn node_component_steps(component: &ApplicationLayout, mode: Mode) -> (r: Vec<Step>)
    ensures
        steps_view(r@) == spec_node_component_steps(*component, mode),
{
    let name = component.name;
    let dir = component.project_dir;
    match mode {
        Mode::Verify => single(
            shell_step(
                "run ".to_owned().concat(name).concat(" quality checks").as_str(),
                "cd ".to_owned().concat(dir).concat(
                    " && npm run lint && npm test && npm run build",
                ).as_str(),
            ),
        ),
        Mode::Build => single(
            shell_step(
                "build ".to_owned().concat(name).as_str(),
                "cd ".to_owned().concat(dir).concat(" && npm run build").as_str(),
            ),
        ),
        Mode::Test => single(
            shell_step(
                "test ".to_owned().concat(name).as_str(),
                "cd ".to_owned().concat(dir).concat(" && npm test").as_str(),
            ),
        ),
        Mode::Package => single(noop_step("next-web packaging is handled through image commands")),
    }
}

fn maven_steps(name: &str, manifest: &str, mode: Mode) -> (r: Vec<Step>)
    ensures
        steps_view(r@) == spec_maven_steps(name@, manifest@, mode),
{
    match mode {
        Mode::Verify => {
            let parts = vec!["./mvnw", "-B", "-ntp", "-f", manifest, "verify"];
            let s = step("verify ".to_owned().concat(name).as_str(), parts);
            assert(strs_view(parts@) =~= seq!["./mvnw"@, "-B"@, "-ntp"@, "-f"@, manifest@, "verify"@]);
            single(s)
        },
        Mode::Build => {
            let parts = vec!["./mvnw", "-B", "-ntp", "-f", manifest, "-DskipTests", "compile"];
            let s = step("build ".to_owned().concat(name).as_str(), parts);
            assert(strs_view(parts@) =~= seq![
                "./mvnw"@,
                "-B"@,
                "-ntp"@,
                "-f"@,
                manifest@,
                "-DskipTests"@,
                "compile"@,
            ]);
            single(s)
        },
        Mode::Test => {
            let parts = vec!["./mvnw", "-B", "-ntp", "-f", manifest, "test"];
            let s = step("test ".to_owned().concat(name).as_str(), parts);
            assert(strs_view(parts@) =~= seq!["./mvnw"@, "-B"@, "-ntp"@, "-f"@, manifest@, "test"@]);
            single(s)
        },
        Mode::Package => {
            let parts = vec!["./mvnw", "-B", "-ntp", "-f", manifest, "-DskipTests", "package"];
            let s = step("package ".to_owned().concat(name).as_str(), parts);
            assert(strs_view(parts@) =~= seq![
                "./mvnw"@,
                "-B"@,
                "-ntp"@,
                "-f"@,
                manifest@,
                "-DskipTests"@,
                "package"@,
            ]);
            single(s)
        },
    }
}

fn maven_component_steps(component: &ApplicationLayout, mode: Mode) -> (r: Vec<Step>)
    ensures
        steps_view(r@) == spec_maven_steps(component.name@, component.manifest_path@, mode),
{
    maven_steps(component.name, component.manifest_path, mode)
}

fn maven_library_steps(library: &LibraryLayout, mode: Mode) -> (r: Vec<Step>)
    ensures
        steps_view(r@) == spec_maven_steps(library.name@, library.manifest_path@, mode),
{
    maven_steps(library.name, library.manifest_path, mode)
}

fn node_library_steps(library: &LibraryLayout, mode: Mode) -> (r: Vec<Step>)
    ensures
        steps_view(r@) == spec_node_library_steps(*library, mode),
{
    let name = library.name;
    let dir = library.project_dir;
    match mode {
        Mode::Verify => single(
            shell_step(
                "run ".to_owned().concat(name).concat(" checks").as_str(),
                "cd ".to_owned().concat(dir).concat(
                    " && npm run lint && npm run typecheck && npm run build && npm test && npm run package",
                ).as_str(),
            ),
        ),
        Mode::Build => single(
            shell_step(
                "build ".to_owned().concat(name).as_str(),
                "cd ".to_owned().concat(dir).concat(
                    " && npm run lint && npm run typecheck && npm run build",
                ).as_str(),
            ),
        ),
        Mode::Test => single(
            shell_step(
                "test ".to_owned().concat(name).as_str(),
                "cd ".to_owned().concat(dir).concat(" && npm run build && npm test").as_str(),
            ),
        ),
        Mode::Package => single(
            shell_step(
                "package ".to_owned().concat(name).as_str(),
                "mkdir -p target/node-packages && cd ".to_owned().concat(dir).concat(
                    " && npm run lint && npm run typecheck && npm run build && npm pack --pack-destination ../../target/node-packages",
                ).as_str(),
            ),
        ),
    }
}

fn next_web_steps_if(context: &ExecutionContext, mode: Mode) -> (r: Vec<Step>)
    ensures
        steps_view(r@) == steps_if(
            spec_affects(context.impacted_areas@, Area::NextWeb),
            spec_node_component_steps(context.repo_layout.next_web, mode),
        ),
{
    if context.affects(Area::NextWeb) {
        node_component_steps(&context.repo_layout.next_web, mode)
    } else {
        let r: Vec<Step> = Vec::new();
        assert(steps_view(r@) =~= Seq::<StepView>::empty());
        r
    }
}

fn spring_api_steps_if(context: &ExecutionContext, mode: Mode) -> (r: Vec<Step>)
    ensures
        steps_view(r@) == steps_if(
            spec_affects(context.impacted_areas@, Area::SpringApi),
            spec_maven_steps(
                context.repo_layout.spring_api.name@,
                context.repo_layout.spring_api.manifest_path@,
                mode,
            ),
        ),
{
    if context.affects(Area::SpringApi) {
        maven_component_steps(&context.repo_layout.spring_api, mode)
    } else {
        let r: Vec<Step> = Vec::new();
        assert(steps_view(r@) =~= Seq::<StepView>::empty());
        r
    }
}

fn node_lib_steps_if(context: &ExecutionContext, mode: Mode) -> (r: Vec<Step>)
    ensures
        steps_view(r@) == steps_if(
            spec_affects(context.impacted_areas@, Area::NodeLib),
            spec_node_library_steps(context.repo_layout.node_lib, mode),
        ),
{
    if context.affects(Area::NodeLib) {
        node_library_steps(&context.repo_layout.node_lib, mode)
    } else {
        let r: Vec<Step> = Vec::new();
        assert(steps_view(r@) =~= Seq::<StepView>::empty());
        r
    }
}

fn java_lib_steps_if(context: &ExecutionContext, mode: Mode) -> (r: Vec<Step>)
    ensures
        steps_view(r@) == steps_if(
            spec_affects(context.impacted_areas@, Area::JavaLib),
            spec_maven_steps(
                context.repo_layout.java_lib.name@,
                context.repo_layout.java_lib.manifest_path@,
                mode,
            ),
        ),
{
    if context.affects(Area::JavaLib) {
        maven_library_steps(&context.repo_layout.java_lib, mode)
    } else {
        let r: Vec<Step> = Vec::new();
        assert(steps_view(r@) =~= Seq::<StepView>::empty());
        r
    }
}

fn component_steps(context: &ExecutionContext, mode: Mode) -> (r: Vec<Step>)
    ensures
        steps_view(r@) == spec_component_steps(*context, mode),
{
    let mut steps = next_web_steps_if(context, mode);
    extend_steps(&mut steps, spring_api_steps_if(context, mode));
    extend_steps(&mut steps, node_lib_steps_if(context, mode));
    extend_steps(&mut steps, java_lib_steps_if(context, mode));
    if steps.len() == 0 {
        steps.push(noop_step("no impacted component work detected"));
        assert(steps_view(steps@) =~= seq![noop_view("no impacted component work detected"@)]);
    }
    steps
}




fn component_required_tools(context: &ExecutionContext, mode: Mode) -> (r: Vec<String>)
    ensures
        r.deep_view() == spec_component_tools(context.impacted_areas@, mode),
{
    let node = vec!["node", "npm"];
    let java = vec!["java", "./mvnw"];
    assert(strs_view(node@) =~= node_tools());
    assert(strs_view(java@) =~= java_tools());
    let mut raw = tools_when(context.affects(Area::NextWeb) && mode != Mode::Package, node);
    append_strings(&mut raw, tools_when(context.affects(Area::SpringApi), vec!["java", "./mvnw"]));
    append_strings(&mut raw, tools_when(context.affects(Area::NodeLib), vec!["node", "npm"]));
    append_strings(&mut raw, tools_when(context.affects(Area::JavaLib), java));
    unique_tools(raw)
}

proof fn lemma_component_tools_unique(impacted: Seq<Area>, mode: Mode)
    ensures
        append_new(Seq::empty(), spec_component_tools(impacted, mode)) == spec_component_tools(
            impacted,
            mode,
        ),
{
    let t = spec_component_tools(impacted, mode);
    lemma_append_new_no_duplicates(Seq::<Seq<char>>::empty(), raw_component_tools(impacted, mode));
    lemma_append_new_distinct(t);
}

fn mode_plan(context: &ExecutionContext, name: &str, mode: Mode) -> (r: Plan)
    ensures
        r@ == spec_mode_plan(*context, name@, mode),
{
    proof {
        lemma_component_tools_unique(context.impacted_areas@, mode);
    }
    Plan::new(name, component_steps(context, mode)).with_required_tools(
        component_required_tools(context, mode),
    )
}

/// The verify plan for a context.
pub fn verify_plan(context: &ExecutionContext) -> (r: Plan)
    ensures
        r@ == spec_verify_plan(*context),
{
    let layout = &context.repo_layout;
    let first = step(
        "validate deployment manifests exist",
        vec!["test", "-f", layout.next_web_kustomization_path],
    );
    let second = step(
        "validate spring api containerfile exists",
        vec!["test", "-f", layout.spring_api.containerfile_path],
    );
    assert(first@.command =~= seq!["test"@, "-f"@, layout.next_web_kustomization_path@]);
    assert(second@.command =~= seq!["test"@, "-f"@, layout.spring_api.containerfile_path@]);
    let mut steps = vec![first, second];
    let ghost head = steps_view(steps@);
    extend_steps(&mut steps, component_steps(context, Mode::Verify));
    assert(head =~= seq![
        step_view(
            "validate deployment manifests exist"@,
            seq!["test"@, "-f"@, context.repo_layout.next_web_kustomization_path@],
        ),
        step_view(
            "validate spring api containerfile exists"@,
            seq!["test"@, "-f"@, context.repo_layout.spring_api.containerfile_path@],
        ),
    ]);
    proof {
        lemma_component_tools_unique(context.impacted_areas@, Mode::Verify);
    }
    Plan::new("verify", steps).with_required_tools(component_required_tools(context, Mode::Verify))
}

/// The build plan for a context.
pub fn build_plan(context: &ExecutionContext) -> (r: Plan)
    ensures
        r@ == spec_mode_plan(*context, "build"@, Mode::Build),
{
    mode_plan(context, "build", Mode::Build)
}

/// The test plan for a context.
pub fn test_plan(context: &ExecutionContext) -> (r: Plan)
    ensures
        r@ == spec_mode_plan(*context, "test"@, Mode::Test),
{
    mode_plan(context, "test", Mode::Test)
}

/// The package plan for a context.
pub fn package_plan(context: &ExecutionContext) -> (r: Plan)
    ensures
        r@ == spec_mode_plan(*context, "package"@, Mode::Package),
{
    mode_plan(context, "package", Mode::Package)
}

/// The tools of the affected components before duplicates are dropped.
pub open spec fn raw_component_tools(impacted: Seq<Area>, mode: Mode) -> Seq<Seq<char>> {
    tools_if(spec_affects(impacted, Area::NextWeb) && mode != Mode::Package, node_tools())
        + tools_if(spec_affects(impacted, Area::SpringApi), java_tools()) + tools_if(
        spec_affects(impacted, Area::NodeLib),
        node_tools(),
    ) + tools_if(spec_affects(impacted, Area::JavaLib), java_tools())
}

/// When no component is affected, a component plan runs a single no-op
/// step that says so, and needs no tool.
pub proof fn lemma_no_component_work(ctx: ExecutionContext, mode: Mode)
    requires
        !spec_affects(ctx.impacted_areas@, Area::NextWeb),
        !spec_affects(ctx.impacted_areas@, Area::SpringApi),
        !spec_affects(ctx.impacted_areas@, Area::NodeLib),
        !spec_affects(ctx.impacted_areas@, Area::JavaLib),
    ensures
        spec_component_steps(ctx, mode) == seq![noop_view("no impacted component work detected"@)],
        spec_component_tools(ctx.impacted_areas@, mode) == Seq::<Seq<char>>::empty(),
{
    assert(raw_component_tools(ctx.impacted_areas@, mode) =~= Seq::<Seq<char>>::empty());
}

/// When the tooling changed, a component plan runs the work of every
/// component, in component order.
pub proof fn lemma_tooling_runs_every_component(ctx: ExecutionContext, mode: Mode)
    requires
        ctx.impacted_areas@.contains(Area::Tooling),
    ensures
        spec_component_steps(ctx, mode) == spec_node_component_steps(ctx.repo_layout.next_web, mode)
            + spec_maven_steps(
            ctx.repo_layout.spring_api.name@,
            ctx.repo_layout.spring_api.manifest_path@,
            mode,
        ) + spec_node_library_steps(ctx.repo_layout.node_lib, mode) + spec_maven_steps(
            ctx.repo_layout.java_lib.name@,
            ctx.repo_layout.java_lib.manifest_path@,
            mode,
        ),
{
}

/// A component plan needs each tool once: the Node toolchain when a Node
/// project is affected (the Node application only outside packaging), the
/// Java toolchain when a Maven project is affected, and nothing else.
pub proof fn lemma_component_tools(impacted: Seq<Area>, mode: Mode, tool: Seq<char>)
    ensures
        spec_component_tools(impacted, mode).no_duplicates(),
        spec_component_tools(impacted, mode).contains(tool) <==> ((node_tools().contains(tool) && ((
        spec_affects(impacted, Area::NextWeb) && mode != Mode::Package) || spec_affects(
            impacted,
            Area::NodeLib,
        ))) || (java_tools().contains(tool) && (spec_affects(impacted, Area::SpringApi)
            || spec_affects(impacted, Area::JavaLib)))),
{
    let raw = raw_component_tools(impacted, mode);
    let a = tools_if(spec_affects(impacted, Area::NextWeb) && mode != Mode::Package, node_tools());
    let b = tools_if(spec_affects(impacted, Area::SpringApi), java_tools());
    let c = tools_if(spec_affects(impacted, Area::NodeLib), node_tools());
    let d = tools_if(spec_affects(impacted, Area::JavaLib), java_tools());
    lemma_append_new_no_duplicates(Seq::<Seq<char>>::empty(), raw);
    crate::ordered_set::lemma_append_new_contains(Seq::<Seq<char>>::empty(), raw, tool);
    lemma_concat_contains(a + b + c, d, tool);
    lemma_concat_contains(a + b, c, tool);
    lemma_concat_contains(a, b, tool);
}

/// Each affected component's work appears in a component plan, whichever
/// other areas are affected; the no-op step that says no component work was
/// found is the whole plan exactly when no component is affected.
pub proof fn lemma_affected_components_run(ctx: ExecutionContext, mode: Mode)
    ensures
        spec_affects(ctx.impacted_areas@, Area::NextWeb) ==> spec_component_steps(
            ctx,
            mode,
        ).contains(spec_node_component_steps(ctx.repo_layout.next_web, mode)[0]),
        spec_affects(ctx.impacted_areas@, Area::SpringApi) ==> spec_component_steps(
            ctx,
            mode,
        ).contains(
            spec_maven_steps(
                ctx.repo_layout.spring_api.name@,
                ctx.repo_layout.spring_api.manifest_path@,
                mode,
            )[0],
        ),
        spec_affects(ctx.impacted_areas@, Area::NodeLib) ==> spec_component_steps(
            ctx,
            mode,
        ).contains(spec_node_library_steps(ctx.repo_layout.node_lib, mode)[0]),
        spec_affects(ctx.impacted_areas@, Area::JavaLib) ==> spec_component_steps(
            ctx,
            mode,
        ).contains(
            spec_maven_steps(
                ctx.repo_layout.java_lib.name@,
                ctx.repo_layout.java_lib.manifest_path@,
                mode,
            )[0],
        ),
        (spec_component_steps(ctx, mode) == seq![
            noop_view("no impacted component work detected"@),
        ]) <==> !(spec_affects(ctx.impacted_areas@, Area::NextWeb) || spec_affects(
            ctx.impacted_areas@,
            Area::SpringApi,
        ) || spec_affects(ctx.impacted_areas@, Area::NodeLib) || spec_affects(
            ctx.impacted_areas@,
            Area::JavaLib,
        )),
{
    let layout = ctx.repo_layout;
    let imp = ctx.impacted_areas@;
    let a = steps_if(spec_affects(imp, Area::NextWeb), spec_node_component_steps(layout.next_web, mode));
    let b = steps_if(
        spec_affects(imp, Area::SpringApi),
        spec_maven_steps(layout.spring_api.name@, layout.spring_api.manifest_path@, mode),
    );
    let c = steps_if(spec_affects(imp, Area::NodeLib), spec_node_library_steps(layout.node_lib, mode));
    let d = steps_if(
        spec_affects(imp, Area::JavaLib),
        spec_maven_steps(layout.java_lib.name@, layout.java_lib.manifest_path@, mode),
    );
    let s = a + b + c + d;
    assert(s.len() == a.len() + b.len() + c.len() + d.len());
    if spec_affects(imp, Area::NextWeb) {
        assert(s[0] == a[0]);
    }
    if spec_affects(imp, Area::SpringApi) {
        assert(s[a.len() as int] == b[0]);
    }
    if spec_affects(imp, Area::NodeLib) {
        assert(s[(a.len() + b.len()) as int] == c[0]);
    }
    if spec_affects(imp, Area::JavaLib) {
        assert(s[(a.len() + b.len() + c.len()) as int] == d[0]);
    }
    if s.len() > 0 && s == seq![noop_view("no impacted component work detected"@)] {
        assert(s.len() == 1);
        assert(s[0].command.len() == 1);
        reveal_strlit("no impacted component work detected");
        reveal_strlit("next-web packaging is handled through image commands");
        assert("no impacted component work detected"@[1] != "next-web packaging is handled through image commands"@[1]);
        if a.len() == 1 {
            assert(s[0] == a[0]);
        } else if b.len() == 1 {
            assert(s[0] == b[0]);
        } else if c.len() == 1 {
            assert(s[0] == c[0]);
        } else {
            assert(s[0] == d[0]);
        }
    }
}

} // verus!
