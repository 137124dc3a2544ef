//! The execution context: which binary runs, with which container engine,
//! and which areas of the repository the current change touches.
use vstd::prelude::*;
use crate::container_engine::{engine_outcome, spec_engine_from_env, ContainerEngine};
use crate::env_snapshot::EnvSnapshot;
use crate::error::{CompanyCiError, ErrorView};
use crate::impact::{infer_areas, paths_view, spec_infer_areas, Area};
use crate::repo_layout::{spec_company_ci_lab, RepoLayout};
use crate::text::{split, split_chars, trim, trim_chars};

verus! {

/// What a command runs with.
#[derive(Debug, Clone)]
pub struct ExecutionContext {
    pub company_ci_binary: String,
    pub container_engine: ContainerEngine,
    pub impacted_areas: Vec<Area>,
    pub repo_layout: RepoLayout,
}

/// Whether work on `area` is needed: the area is impacted, or the tooling
/// itself changed.
pub open spec fn spec_affects(impacted: Seq<Area>, area: Area) -> bool {
    impacted.contains(area) || impacted.contains(Area::Tooling)
}

/// Every area, in declaration order.
pub open spec fn all_areas() -> Seq<Area> {
    seq![
        Area::NextWeb,
        Area::SpringApi,
        Area::NodeLib,
        Area::JavaLib,
        Area::Deploy,
        Area::Tooling,
        Area::Docs,
        Area::Testbeds,
        Area::Workflows,
    ]
}

/// The trimmed pieces that are not empty.
pub open spec fn non_empty_trimmed(pieces: Seq<Seq<char>>) -> Seq<Seq<char>>
    decreases pieces.len(),
{
    if pieces.len() == 0 {
        Seq::empty()
    } else {
        let init = non_empty_trimmed(pieces.drop_last());
        let t = trim_chars(pieces.last());
        if t.len() > 0 {
            init.push(t)
        } else {
            init
        }
    }
}

/// The changed files listed in a comma-separated value.
pub open spec fn changed_file_entries(value: Seq<char>) -> Seq<Seq<char>> {
    non_empty_trimmed(split_chars(value, ','))
}

/// The impacted areas: every area when no changed file is listed, else the
/// areas the listed files touch.
pub open spec fn spec_impacted_areas(layout: RepoLayout, changed: Option<Seq<char>>) -> Seq<Area> {
    let files = match changed {
        Some(v) => changed_file_entries(v),
        None => Seq::empty(),
    };
    if files.len() == 0 {
        all_areas()
    } else {
        spec_infer_areas(layout, files)
    }
}

/// The variable that lists the changed files.
pub open spec fn changed_files_variable() -> Seq<char> {
    "COMPANY_CI_CHANGED_FILES"@
}

fn changed_files(value: &str) -> (r: Vec<String>)
    ensures
        r.deep_view() == changed_file_entries(value@),
{
    let pieces = split(value, ',');
    let ghost all = pieces.deep_view();
    let mut files: Vec<String> = Vec::new();
    let mut i: usize = 0;
    while i < pieces.len()
        invariant
            i <= pieces.len(),
            all == pieces.deep_view(),
            files.deep_view() == non_empty_trimmed(all.take(i as int)),
        decreases pieces.len() - i,
    {
        assert(all.take(i + 1).drop_last() =~= all.take(i as int));
        let t = trim(pieces[i].as_str());
        if t.unicode_len() > 0 {
            let ghost before = files.deep_view();
            files.push(t.to_owned());
            assert(files.deep_view() =~= before.push(t@));
        }
        i += 1;
    }
    assert(all.take(pieces.len() as int) =~= all);
    files
}

fn every_area() -> (r: Vec<Area>)
    ensures
        r@ == all_areas(),
{
    let r = vec![
        Area::NextWeb,
        Area::SpringApi,
        Area::NodeLib,
        Area::JavaLib,
        Area::Deploy,
        Area::Tooling,
        Area::Docs,
        Area::Testbeds,
        Area::Workflows,
    ];
    assert(r@ =~= all_areas());
    r
}

fn impacted_areas(layout: &RepoLayout, changed: Option<String>) -> (r: Vec<Area>)
    ensures
        r@ == spec_impacted_areas(*layout, match changed {
            Some(v) => Some(v@),
            None => None,
        }),
{
    let files: Vec<String> = match &changed {
        Some(v) => changed_files(v.as_str()),
        None => {
            let empty: Vec<String> = Vec::new();
            assert(empty.deep_view() =~= Seq::<Seq<char>>::empty());
            empty
        },
    };
    if files.len() == 0 {
        return every_area();
    }
    let mut refs: Vec<&str> = Vec::new();
    let mut i: usize = 0;
    while i < files.len()
        invariant
            i <= files.len(),
            paths_view(refs@) =~= files.deep_view().take(i as int),
        decreases files.len() - i,
    {
        let ghost before = refs@;
        refs.push(files[i].as_str());
        assert(paths_view(refs@) =~= paths_view(before).push(files.deep_view()[i as int]));
        i += 1;
    }
    assert(files.deep_view().take(files.len() as int) =~= files.deep_view());
    infer_areas(layout, refs.as_slice())
}

/// The value of a context outcome: the engine and areas, or the error.
pub open spec fn context_matches(
    r: Result<ExecutionContext, CompanyCiError>,
    env_vars: Seq<(Seq<char>, Seq<char>)>,
    env_not_unicode: Seq<Seq<char>>,
    company_ci_binary: Seq<char>,
) -> bool {
    match r {
        Ok(c) => {
            &&& spec_engine_from_env(env_vars, env_not_unicode) == Ok::<ContainerEngine, ErrorView>(
                c.container_engine,
            )
            &&& c.repo_layout == spec_company_ci_lab()
            &&& c.company_ci_binary@ == company_ci_binary
            &&& c.impacted_areas@ == spec_impacted_areas(
                spec_company_ci_lab(),
                crate::env_snapshot::lookup(env_vars, changed_files_variable()),
            )
        },
        Err(e) => spec_engine_from_env(env_vars, env_not_unicode) == Err::<ContainerEngine, ErrorView>(
            e@,
        ),
    }
}

impl ExecutionContext {
    /// The context of a command run by `company_ci_binary` in the given
    /// environment: the areas come from `COMPANY_CI_CHANGED_FILES` and the
    /// engine from `COMPANY_CI_CONTAINER_ENGINE`.
    pub fn resolve(env: &EnvSnapshot, company_ci_binary: String) -> (r: Result<
        Self,
        CompanyCiError,
    >)
        ensures
            context_matches(r, env@.vars, env@.not_unicode, company_ci_binary@),
    {
        let repo_layout = RepoLayout::company_ci_lab();
        let changed = env.var("COMPANY_CI_CHANGED_FILES");
        let impacted_areas = impacted_areas(&repo_layout, changed);
        let engine = ContainerEngine::from_env(env);
        match engine {
            Ok(container_engine) => Ok(
                ExecutionContext { company_ci_binary, container_engine, impacted_areas, repo_layout },
            ),
            Err(e) => Err(e),
        }
    }

    /// Whether work on `area` is needed in this context.
    pub fn affects(&self, area: Area) -> (r: bool)
        ensures
            r == spec_affects(self.impacted_areas@, area),
    {
        let mut found_area = false;
        let mut found_tooling = false;
        let mut i: usize = 0;
        while i < self.impacted_areas.len()
            invariant
                i <= self.impacted_areas.len(),
                found_area == self.impacted_areas@.take(i as int).contains(area),
                found_tooling == self.impacted_areas@.take(i as int).contains(Area::Tooling),
            decreases self.impacted_areas.len() - i,
        {
            let a = self.impacted_areas[i];
            proof {
                let prev = self.impacted_areas@.take(i as int);
                let next = self.impacted_areas@.take(i + 1);
                assert(next =~= prev.push(a));
                assert(forall|x: Area| next.contains(x) <==> (prev.contains(x) || x == a)) by {
                    assert forall|x: Area| next.contains(x) implies (prev.contains(x) || x == a) by {
                        let k = choose|k: int| 0 <= k < next.len() && next[k] == x;
                        if k < prev.len() {
                            assert(prev[k] == x);
                        }
                    }
                    assert forall|x: Area| (prev.contains(x) || x == a) implies next.contains(x) by {
                        if x == a {
                            assert(next[i as int] == x);
                        } else {
                            let k = choose|k: int| 0 <= k < prev.len() && prev[k] == x;
                            assert(next[k] == x);
                        }
                    }
                }
            }
            if a == area {
                found_area = true;
            }
            if a == Area::Tooling {
                found_tooling = true;
            }
            i += 1;
        }
        assert(self.impacted_areas@.take(self.impacted_areas.len() as int) =~= self.impacted_areas@);
        found_area || found_tooling
    }
}

/// When the tooling itself changed, every area needs work.
pub proof fn lemma_tooling_affects_everything(impacted: Seq<Area>, area: Area)
    requires
        impacted.contains(Area::Tooling),
    ensures
        spec_affects(impacted, area),
{
}

/// Without a list of changed files every area is impacted, so every area
/// needs work.
pub proof fn lemma_no_changed_files_affects_everything(layout: RepoLayout, area: Area)
    ensures
        spec_affects(spec_impacted_areas(layout, None), area),
{
    assert(all_areas()[5] == Area::Tooling);
}

} // verus!
