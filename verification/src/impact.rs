//! Which areas of the repository a set of changed files touches.
use vstd::prelude::*;
use crate::ordered_set::{
    append_new, lemma_append_new_contains, lemma_append_new_no_duplicates, lemma_append_new_push,
    lemma_concat_contains, push_new,
};
use crate::repo_layout::RepoLayout;
use crate::text::{has_prefix, starts_with, str_eq};

verus! {

/// The areas of the repository that work can be narrowed to.
#[derive(Debug, Clone, Copy, PartialEq, Eq, Structural)]
pub enum Area {
    NextWeb,
    SpringApi,
    NodeLib,
    JavaLib,
    Deploy,
    Tooling,
    Docs,
    Testbeds,
    Workflows,
}

/// The directory of a component followed by a slash.
pub open spec fn component_prefix_of(root_dir: Seq<char>) -> Seq<char> {
    root_dir + "/"@
}

/// `area` when `hit`, else nothing.
pub open spec fn area_if(hit: bool, area: Area) -> Seq<Area> {
    if hit {
        seq![area]
    } else {
        Seq::empty()
    }
}

/// The areas one changed path belongs to, in the order of [`Area`].
pub open spec fn spec_classify_path(layout: RepoLayout, path: Seq<char>) -> Seq<Area> {
    area_if(has_prefix(path, component_prefix_of(layout.next_web.project_dir@)), Area::NextWeb)
        + area_if(
        has_prefix(path, component_prefix_of(layout.spring_api.project_dir@)),
        Area::SpringApi,
    ) + area_if(has_prefix(path, component_prefix_of(layout.node_lib.project_dir@)), Area::NodeLib)
        + area_if(has_prefix(path, component_prefix_of(layout.java_lib.project_dir@)), Area::JavaLib)
        + area_if(has_prefix(path, layout.deploy_root@), Area::Deploy) + area_if(
        has_prefix(path, layout.tooling_root@) || path == layout.cargo_toml_path@ || path
            == layout.cargo_lock_path@,
        Area::Tooling,
    ) + area_if(has_prefix(path, layout.docs_root@) || path == layout.readme_path@, Area::Docs)
        + area_if(
        has_prefix(path, layout.testbeds_root@) || has_prefix(path, layout.scripts_root@),
        Area::Testbeds,
    ) + area_if(
        has_prefix(path, layout.workflows_root@) || has_prefix(path, layout.issue_template_root@)
            || path == layout.pull_request_template@,
        Area::Workflows,
    )
}

/// The areas of the first `paths`, each once, in order of first appearance.
pub open spec fn collect_areas(layout: RepoLayout, paths: Seq<Seq<char>>) -> Seq<Area>
    decreases paths.len(),
{
    if paths.len() == 0 {
        Seq::empty()
    } else {
        append_new(collect_areas(layout, paths.drop_last()), spec_classify_path(layout, paths.last()))
    }
}

/// The areas the changed paths touch; the tooling area alone when none is.
pub open spec fn spec_infer_areas(layout: RepoLayout, paths: Seq<Seq<char>>) -> Seq<Area> {
    let areas = collect_areas(layout, paths);
    if areas.len() == 0 {
        seq![Area::Tooling]
    } else {
        areas
    }
}

/// The character views of a list of paths.
pub open spec fn paths_view(paths: Seq<&str>) -> Seq<Seq<char>> {
    paths.map_values(|p: &str| p@)
}

fn push_area(areas: &mut Vec<Area>, area: Area)
    ensures
        final(areas)@ == push_new(old(areas)@, area),
{
    let mut i: usize = 0;
    while i < areas.len()
        invariant
            i <= areas.len(),
            areas@ == old(areas)@,
            forall|k: int| 0 <= k < i ==> areas@[k] != area,
        decreases areas.len() - i,
    {
        if areas[i] == area {
            assert(areas@[i as int] == area);
            return;
        }
        i += 1;
    }
    areas.push(area);
}

fn component_prefix(root_dir: &str) -> (r: String)
    ensures
        r@ == component_prefix_of(root_dir@),
{
    root_dir.to_owned().concat("/")
}

fn push_if(areas: &mut Vec<Area>, hit: bool, area: Area)
    ensures
        final(areas)@ == old(areas)@ + area_if(hit, area),
{
    if hit {
        areas.push(area);
    }
    assert(areas@ =~= old(areas)@ + area_if(hit, area));
}

fn areas_from_hits(
    h0: bool,
    h1: bool,
    h2: bool,
    h3: bool,
    h4: bool,
    h5: bool,
    h6: bool,
    h7: bool,
    h8: bool,
) -> (r: Vec<Area>)
    ensures
        r@ == area_if(h0, Area::NextWeb) + area_if(h1, Area::SpringApi) + area_if(h2, Area::NodeLib) + area_if(h3, Area::JavaLib) + area_if(h4, Area::Deploy) + area_if(h5, Area::Tooling) + area_if(h6, Area::Docs) + area_if(h7, Area::Testbeds) + area_if(h8, Area::Workflows),
{
    let mut areas: Vec<Area> = Vec::new();
    assert(areas@ + area_if(h0, Area::NextWeb) =~= area_if(h0, Area::NextWeb));
    push_if(&mut areas, h0, Area::NextWeb);
    push_if(&mut areas, h1, Area::SpringApi);
    push_if(&mut areas, h2, Area::NodeLib);
    push_if(&mut areas, h3, Area::JavaLib);
    push_if(&mut areas, h4, Area::Deploy);
    push_if(&mut areas, h5, Area::Tooling);
    push_if(&mut areas, h6, Area::Docs);
    push_if(&mut areas, h7, Area::Testbeds);
    push_if(&mut areas, h8, Area::Workflows);
    areas
}

fn classify_path(layout: &RepoLayout, path: &str) -> (r: Vec<Area>)
    ensures
        r@ == spec_classify_path(*layout, path@),
{
    let h0 = starts_with(path, component_prefix(layout.next_web.project_dir).as_str());
    let h1 = starts_with(path, component_prefix(layout.spring_api.project_dir).as_str());
    let h2 = starts_with(path, component_prefix(layout.node_lib.project_dir).as_str());
    let h3 = starts_with(path, component_prefix(layout.java_lib.project_dir).as_str());
    let h4 = starts_with(path, layout.deploy_root);
    let h5 = starts_with(path, layout.tooling_root) || str_eq(path, layout.cargo_toml_path)
        || str_eq(path, layout.cargo_lock_path);
    let h6 = starts_with(path, layout.docs_root) || str_eq(path, layout.readme_path);
    let h7 = starts_with(path, layout.testbeds_root) || starts_with(path, layout.scripts_root);
    let h8 = starts_with(path, layout.workflows_root) || starts_with(path, layout.issue_template_root)
        || str_eq(path, layout.pull_request_template);
    areas_from_hits(h0, h1, h2, h3, h4, h5, h6, h7, h8)
}

/// The areas that the changed `paths` touch, each once and in order of
/// first appearance; the tooling area alone when no path belongs to any.
pub fn infer_areas(layout: &RepoLayout, paths: &[&str]) -> (r: Vec<Area>)
    ensures
        r@ == spec_infer_areas(*layout, paths_view(paths@)),
{
    let ghost all = paths_view(paths@);
    let mut areas: Vec<Area> = Vec::new();
    let mut i: usize = 0;
    while i < paths.len()
        invariant
            i <= paths.len(),
            all == paths_view(paths@),
            areas@ == collect_areas(*layout, all.take(i as int)),
        decreases paths.len() - i,
    {
        let classified = classify_path(layout, paths[i]);
        let ghost before = areas@;
        let mut j: usize = 0;
        while j < classified.len()
            invariant
                j <= classified.len(),
                areas@ == append_new(before, classified@.take(j as int)),
            decreases classified.len() - j,
        {
            proof {
                lemma_append_new_push(before, classified@.take(j as int), classified@[j as int]);
                assert(classified@.take(j as int).push(classified@[j as int]) =~= classified@.take(
                    j + 1,
                ));
            }
            push_area(&mut areas, classified[j]);
            j += 1;
        }
        proof {
            assert(classified@.take(classified.len() as int) =~= classified@);
            assert(all.take(i + 1).drop_last() =~= all.take(i as int));
            assert(all.take(i + 1).last() == paths@[i as int]@);
        }
        i += 1;
    }
    assert(all.take(paths.len() as int) =~= all);
    if areas.len() == 0 {
        areas.push(Area::Tooling);
        assert(areas@ =~= seq![Area::Tooling]);
    }
    areas
}

/// No area is reported twice.
pub proof fn lemma_collect_areas_distinct(layout: RepoLayout, paths: Seq<Seq<char>>)
    ensures
        collect_areas(layout, paths).no_duplicates(),
    decreases paths.len(),
{
    if paths.len() > 0 {
        lemma_collect_areas_distinct(layout, paths.drop_last());
        lemma_append_new_no_duplicates(
            collect_areas(layout, paths.drop_last()),
            spec_classify_path(layout, paths.last()),
        );
    }
}

/// An area is collected exactly when some path belongs to it.
pub proof fn lemma_collect_areas_contains(layout: RepoLayout, paths: Seq<Seq<char>>, area: Area)
    ensures
        collect_areas(layout, paths).contains(area) <==> exists|i: int|
            0 <= i < paths.len() && #[trigger] spec_classify_path(layout, paths[i]).contains(area),
    decreases paths.len(),
{
    if paths.len() > 0 {
        let init = paths.drop_last();
        lemma_collect_areas_contains(layout, init, area);
        lemma_append_new_contains(
            collect_areas(layout, init),
            spec_classify_path(layout, paths.last()),
            area,
        );
        if exists|i: int|
            0 <= i < paths.len() && #[trigger] spec_classify_path(layout, paths[i]).contains(area) {
            let i = choose|i: int|
                0 <= i < paths.len() && #[trigger] spec_classify_path(layout, paths[i]).contains(
                    area,
                );
            if i < paths.len() - 1 {
                assert(init[i] == paths[i]);
                assert(spec_classify_path(layout, init[i]).contains(area));
            }
        }
        if exists|i: int|
            0 <= i < init.len() && #[trigger] spec_classify_path(layout, init[i]).contains(area) {
            let i = choose|i: int|
                0 <= i < init.len() && #[trigger] spec_classify_path(layout, init[i]).contains(area);
            assert(paths[i] == init[i]);
            assert(spec_classify_path(layout, paths[i]).contains(area));
        }
        if spec_classify_path(layout, paths.last()).contains(area) {
            assert(spec_classify_path(layout, paths[paths.len() - 1]).contains(area));
        }
    }
}

/// Impact inference reports every area that a changed path belongs to and
/// no other, each once; when no path belongs to any area, it reports the
/// tooling area alone, so that the result is never empty.
pub proof fn lemma_infer_areas_laws(layout: RepoLayout, paths: Seq<Seq<char>>, area: Area)
    ensures
        spec_infer_areas(layout, paths).no_duplicates(),
        spec_infer_areas(layout, paths).len() > 0,
        spec_infer_areas(layout, paths).contains(area) <==> ((exists|i: int|
            0 <= i < paths.len() && #[trigger] spec_classify_path(layout, paths[i]).contains(area))
            || (area == Area::Tooling && collect_areas(layout, paths).len() == 0)),
{
    lemma_collect_areas_distinct(layout, paths);
    lemma_collect_areas_contains(layout, paths, area);
    let areas = collect_areas(layout, paths);
    if areas.len() == 0 {
        if spec_infer_areas(layout, paths).contains(area) {
            assert(seq![Area::Tooling][0] == Area::Tooling);
        }
        if area == Area::Tooling {
            assert(seq![Area::Tooling][0] == area);
        }
        if areas.contains(area) {
            let k = choose|k: int| 0 <= k < areas.len() && areas[k] == area;
            assert(false);
        }
    }
}

/// Whether `path` lies in `area`, read directly from the layout's roots: a
/// component's directory followed by a slash, the deploy, tooling, docs,
/// testbeds, scripts, workflows and issue-template roots, and the files
/// `Cargo.toml`, `Cargo.lock`, the readme and the pull request template.
pub open spec fn path_in_area(layout: RepoLayout, path: Seq<char>, area: Area) -> bool {
    match area {
        Area::NextWeb => has_prefix(path, layout.next_web.project_dir@ + "/"@),
        Area::SpringApi => has_prefix(path, layout.spring_api.project_dir@ + "/"@),
        Area::NodeLib => has_prefix(path, layout.node_lib.project_dir@ + "/"@),
        Area::JavaLib => has_prefix(path, layout.java_lib.project_dir@ + "/"@),
        Area::Deploy => has_prefix(path, layout.deploy_root@),
        Area::Tooling => has_prefix(path, layout.tooling_root@) || path == layout.cargo_toml_path@
            || path == layout.cargo_lock_path@,
        Area::Docs => has_prefix(path, layout.docs_root@) || path == layout.readme_path@,
        Area::Testbeds => has_prefix(path, layout.testbeds_root@) || has_prefix(
            path,
            layout.scripts_root@,
        ),
        Area::Workflows => has_prefix(path, layout.workflows_root@) || has_prefix(
            path,
            layout.issue_template_root@,
        ) || path == layout.pull_request_template@,
    }
}

/// Whether `path` lies in any area at all.
pub open spec fn path_in_some_area(layout: RepoLayout, path: Seq<char>) -> bool {
    path_in_area(layout, path, Area::NextWeb) || path_in_area(layout, path, Area::SpringApi)
        || path_in_area(layout, path, Area::NodeLib) || path_in_area(layout, path, Area::JavaLib)
        || path_in_area(layout, path, Area::Deploy) || path_in_area(layout, path, Area::Tooling)
        || path_in_area(layout, path, Area::Docs) || path_in_area(layout, path, Area::Testbeds)
        || path_in_area(layout, path, Area::Workflows)
}

proof fn lemma_area_if_contains(hit: bool, area: Area, x: Area)
    ensures
        area_if(hit, area).contains(x) <==> (hit && area == x),
{
    if hit && area == x {
        assert(area_if(hit, area)[0] == x);
    }
}

/// A path is classified into exactly the areas whose roots it lies under.
pub proof fn lemma_classify_by_roots(layout: RepoLayout, path: Seq<char>, x: Area)
    ensures
        spec_classify_path(layout, path).contains(x) <==> path_in_area(layout, path, x),
        spec_classify_path(layout, path).len() == 0 <==> !path_in_some_area(layout, path),
{
    let a0 = area_if(has_prefix(path, component_prefix_of(layout.next_web.project_dir@)), Area::NextWeb);
    let a1 = area_if(has_prefix(path, component_prefix_of(layout.spring_api.project_dir@)), Area::SpringApi);
    let a2 = area_if(has_prefix(path, component_prefix_of(layout.node_lib.project_dir@)), Area::NodeLib);
    let a3 = area_if(has_prefix(path, component_prefix_of(layout.java_lib.project_dir@)), Area::JavaLib);
    let a4 = area_if(has_prefix(path, layout.deploy_root@), Area::Deploy);
    let a5 = area_if(
        has_prefix(path, layout.tooling_root@) || path == layout.cargo_toml_path@ || path
            == layout.cargo_lock_path@,
        Area::Tooling,
    );
    let a6 = area_if(has_prefix(path, layout.docs_root@) || path == layout.readme_path@, Area::Docs);
    let a7 = area_if(
        has_prefix(path, layout.testbeds_root@) || has_prefix(path, layout.scripts_root@),
        Area::Testbeds,
    );
    let a8 = area_if(
        has_prefix(path, layout.workflows_root@) || has_prefix(path, layout.issue_template_root@)
            || path == layout.pull_request_template@,
        Area::Workflows,
    );
    assert(spec_classify_path(layout, path) == a0 + a1 + a2 + a3 + a4 + a5 + a6 + a7 + a8);
    lemma_concat_contains(a0 + a1 + a2 + a3 + a4 + a5 + a6 + a7, a8, x);
    lemma_concat_contains(a0 + a1 + a2 + a3 + a4 + a5 + a6, a7, x);
    lemma_concat_contains(a0 + a1 + a2 + a3 + a4 + a5, a6, x);
    lemma_concat_contains(a0 + a1 + a2 + a3 + a4, a5, x);
    lemma_concat_contains(a0 + a1 + a2 + a3, a4, x);
    lemma_concat_contains(a0 + a1 + a2, a3, x);
    lemma_concat_contains(a0 + a1, a2, x);
    lemma_concat_contains(a0, a1, x);
    lemma_area_if_contains(has_prefix(path, component_prefix_of(layout.next_web.project_dir@)), Area::NextWeb, x);
    lemma_area_if_contains(has_prefix(path, component_prefix_of(layout.spring_api.project_dir@)), Area::SpringApi, x);
    lemma_area_if_contains(has_prefix(path, component_prefix_of(layout.node_lib.project_dir@)), Area::NodeLib, x);
    lemma_area_if_contains(has_prefix(path, component_prefix_of(layout.java_lib.project_dir@)), Area::JavaLib, x);
    lemma_area_if_contains(has_prefix(path, layout.deploy_root@), Area::Deploy, x);
    lemma_area_if_contains(
        has_prefix(path, layout.tooling_root@) || path == layout.cargo_toml_path@ || path
            == layout.cargo_lock_path@,
        Area::Tooling,
        x,
    );
    lemma_area_if_contains(has_prefix(path, layout.docs_root@) || path == layout.readme_path@, Area::Docs, x);
    lemma_area_if_contains(
        has_prefix(path, layout.testbeds_root@) || has_prefix(path, layout.scripts_root@),
        Area::Testbeds,
        x,
    );
    lemma_area_if_contains(
        has_prefix(path, layout.workflows_root@) || has_prefix(path, layout.issue_template_root@)
            || path == layout.pull_request_template@,
        Area::Workflows,
        x,
    );
}

/// Impact inference, read from the layout's roots: an area is reported
/// exactly when some changed path lies under it, and the tooling area is
/// reported besides only when no changed path lies in any area. A path
/// under no root adds nothing.
pub proof fn lemma_impact_by_roots(layout: RepoLayout, paths: Seq<Seq<char>>, area: Area)
    ensures
        spec_infer_areas(layout, paths).contains(area) <==> ((exists|i: int|
            0 <= i < paths.len() && #[trigger] path_in_area(layout, paths[i], area)) || (area
            == Area::Tooling && forall|i: int|
            0 <= i < paths.len() ==> !#[trigger] path_in_some_area(layout, paths[i]))),
{
    lemma_infer_areas_laws(layout, paths, area);
    assert forall|i: int| 0 <= i < paths.len() implies (spec_classify_path(layout, paths[i]).contains(
        area,
    ) <==> path_in_area(layout, paths[i], area)) by {
        lemma_classify_by_roots(layout, paths[i], area);
    }
    let areas = collect_areas(layout, paths);
    if areas.len() == 0 {
        assert forall|i: int| 0 <= i < paths.len() implies !#[trigger] path_in_some_area(layout, paths[i]) by {
            lemma_classify_by_roots(layout, paths[i], area);
            if spec_classify_path(layout, paths[i]).len() > 0 {
                let a = spec_classify_path(layout, paths[i])[0];
                lemma_collect_areas_contains(layout, paths, a);
                assert(spec_classify_path(layout, paths[i]).contains(a));
                assert(areas.contains(a));
            }
        }
    } else {
        let a = areas[0];
        assert(areas.contains(a));
        lemma_collect_areas_contains(layout, paths, a);
        let i = choose|i: int|
            0 <= i < paths.len() && #[trigger] spec_classify_path(layout, paths[i]).contains(a);
        lemma_classify_by_roots(layout, paths[i], a);
        assert(path_in_some_area(layout, paths[i]));
    }
}

/// A changed path under no root of the layout leaves the reported areas as
/// they were, once some other path lies in an area.
pub proof fn lemma_unrooted_path_adds_nothing(
    layout: RepoLayout,
    paths: Seq<Seq<char>>,
    path: Seq<char>,
)
    requires
        !path_in_some_area(layout, path),
        exists|i: int| 0 <= i < paths.len() && #[trigger] path_in_some_area(layout, paths[i]),
    ensures
        spec_infer_areas(layout, paths.push(path)) == spec_infer_areas(layout, paths),
{
    lemma_classify_by_roots(layout, path, Area::Tooling);
    assert(paths.push(path).drop_last() =~= paths);
    assert(spec_classify_path(layout, path) =~= Seq::<Area>::empty());
    let i = choose|i: int| 0 <= i < paths.len() && #[trigger] path_in_some_area(layout, paths[i]);
    lemma_classify_by_roots(layout, paths[i], Area::Tooling);
    let a = spec_classify_path(layout, paths[i])[0];
    assert(spec_classify_path(layout, paths[i]).contains(a));
    lemma_collect_areas_contains(layout, paths, a);
}

} // verus!
