//! Plans: ordered steps, with the tools, env contracts and notes they need,
//! and the order in which a runner acts on them.
use vstd::prelude::*;
use crate::ordered_set::{
    append_new, lemma_append_new_contains, lemma_append_new_no_duplicates,
    lemma_append_new_prefix, lemma_append_new_push, push_new,
};
use crate::requirements::{spec_dry_run_message, EnvRequirement, EnvRequirementView};
use crate::text::{join, seq_join};

verus! {

/// One command to run, with what it is for.
#[derive(Debug, Clone, PartialEq, Eq)]
pub struct Step {
    pub description: String,
    pub command: Vec<String>,
}

/// The value of a step.
pub struct StepView {
    pub description: Seq<char>,
    pub command: Seq<Seq<char>>,
}

impl View for Step {
    type V = StepView;

    open spec fn view(&self) -> StepView {
        StepView { description: self.description@, command: self.command.deep_view() }
    }
}

/// A named, ordered list of steps with the tools and env contracts that
/// must be present before the steps run, and notes a dry run reports.
#[derive(Debug, Clone, PartialEq, Eq)]
pub struct Plan {
    pub name: String,
    pub required_tools: Vec<String>,
    pub required_env: Vec<EnvRequirement>,
    pub dry_run_notes: Vec<String>,
    pub steps: Vec<Step>,
}

/// The value of a plan.
pub struct PlanView {
    pub name: Seq<char>,
    pub required_tools: Seq<Seq<char>>,
    pub required_env: Seq<EnvRequirementView>,
    pub dry_run_notes: Seq<Seq<char>>,
    pub steps: Seq<StepView>,
}

/// The values of a list of steps.
pub open spec fn steps_view(steps: Seq<Step>) -> Seq<StepView> {
    steps.map_values(|s: Step| s@)
}

/// The values of a list of requirements.
pub open spec fn reqs_view(reqs: Seq<EnvRequirement>) -> Seq<EnvRequirementView> {
    reqs.map_values(|r: EnvRequirement| r@)
}

/// The character views of a list of string slices.
pub open spec fn strs_view(parts: Seq<&str>) -> Seq<Seq<char>> {
    parts.map_values(|p: &str| p@)
}

impl View for Plan {
    type V = PlanView;

    open spec fn view(&self) -> PlanView {
        PlanView {
            name: self.name@,
            required_tools: self.required_tools.deep_view(),
            required_env: reqs_view(self.required_env@),
            dry_run_notes: self.dry_run_notes.deep_view(),
            steps: steps_view(self.steps@),
        }
    }
}

/// A plan with steps and nothing else declared.
pub open spec fn bare_plan(name: Seq<char>, steps: Seq<StepView>) -> PlanView {
    PlanView {
        name,
        required_tools: Seq::empty(),
        required_env: Seq::empty(),
        dry_run_notes: Seq::empty(),
        steps,
    }
}

/// A step.
pub open spec fn step_view(description: Seq<char>, command: Seq<Seq<char>>) -> StepView {
    StepView { description, command }
}

/// A step that does nothing and reports why.
pub open spec fn noop_view(description: Seq<char>) -> StepView {
    step_view(description, seq!["true"@])
}

/// A step that runs `command` through `sh -c`.
pub open spec fn shell_view(description: Seq<char>, command: Seq<char>) -> StepView {
    step_view(description, seq!["sh"@, "-c"@, command])
}

/// `s` with each single quote written as `'"'"'`.
pub open spec fn escape_single_quotes(s: Seq<char>) -> Seq<char>
    decreases s.len(),
{
    if s.len() == 0 {
        Seq::empty()
    } else {
        escape_single_quotes(s.drop_last()) + if s.last() == '\'' {
            "'\"'\"'"@
        } else {
            seq![s.last()]
        }
    }
}

/// `s` quoted for a POSIX shell: inside single quotes, with each single
/// quote closed, written in double quotes and reopened.
pub open spec fn sh_quoted(s: Seq<char>) -> Seq<char> {
    "'"@ + escape_single_quotes(s) + "'"@
}

/// Text without a single quote is quoted by wrapping it in single quotes.
pub proof fn lemma_sh_quote_plain(s: Seq<char>)
    requires
        !s.contains('\''),
    ensures
        sh_quoted(s) == "'"@ + s + "'"@,
{
    lemma_escape_plain(s);
}

proof fn lemma_escape_plain(s: Seq<char>)
    requires
        !s.contains('\''),
    ensures
        escape_single_quotes(s) == s,
    decreases s.len(),
{
    if s.len() > 0 {
        let init = s.drop_last();
        if init.contains('\'') {
            let k = choose|k: int| 0 <= k < init.len() && init[k] == '\'';
            assert(s[k] == '\'');
        }
        lemma_escape_plain(init);
        assert(s[s.len() - 1] != '\'');
        assert(init + seq![s.last()] =~= s);
    }
}

/// `value` quoted for a POSIX shell.
pub fn sh_quote(value: &str) -> (r: String)
    ensures
        r@ == sh_quoted(value@),
{
    let n = value.unicode_len();
    let mut escaped = String::new();
    let mut i: usize = 0;
    while i < n
        invariant
            n == value@.len(),
            i <= n,
            escaped@ == escape_single_quotes(value@.take(i as int)),
        decreases n - i,
    {
        assert(value@.take(i + 1).drop_last() =~= value@.take(i as int));
        if value.get_char(i) == '\'' {
            escaped.append("'\"'\"'");
        } else {
            escaped.append(value.substring_char(i, i + 1));
            assert(value@.subrange(i as int, i + 1) =~= seq![value@[i as int]]);
        }
        i += 1;
    }
    assert(value@.take(n as int) =~= value@);
    "'".to_owned().concat(escaped.as_str()).concat("'")
}

/// Owned copies of string slices.
pub fn strings(parts: Vec<&str>) -> (r: Vec<String>)
    ensures
        r.deep_view() == strs_view(parts@),
{
    let mut out: Vec<String> = Vec::new();
    let mut i: usize = 0;
    while i < parts.len()
        invariant
            i <= parts.len(),
            out@.len() == i,
            out.deep_view() =~= strs_view(parts@).take(i as int),
        decreases parts.len() - i,
    {
        let ghost prev = out@;
        out.push(parts[i].to_owned());
        assert(forall|k: int| 0 <= k < i ==> out@[k] == prev[k]);
        assert(out.deep_view() =~= strs_view(parts@).take(i + 1));
        i += 1;
    }
    out
}

/// A step whose command is given word by word.
pub fn step(description: &str, parts: Vec<&str>) -> (r: Step)
    ensures
        r@ == step_view(description@, strs_view(parts@)),
{
    Step { description: description.to_owned(), command: strings(parts) }
}

/// A step built from owned text.
pub fn owned_step(description: String, command: Vec<String>) -> (r: Step)
    ensures
        r@ == step_view(description@, command.deep_view()),
{
    Step { description, command }
}

/// A step that does nothing and reports why.
pub fn noop_step(description: &str) -> (r: Step)
    ensures
        r@ == noop_view(description@),
{
    let r = step(description, vec!["true"]);
    assert(r@.command =~= seq!["true"@]);
    r
}

/// A step that runs `command` through `sh -c`.
pub fn shell_step(description: &str, command: &str) -> (r: Step)
    ensures
        r@ == shell_view(description@, command@),
{
    let r = step(description, vec!["sh", "-c", command]);
    assert(r@.command =~= seq!["sh"@, "-c"@, command@]);
    r
}

/// Moves the steps of `more` to the end of `steps`.
pub fn extend_steps(steps: &mut Vec<Step>, more: Vec<Step>)
    ensures
        steps_view(final(steps)@) == steps_view(old(steps)@) + steps_view(more@),
{
    let mut more = more;
    let ghost added = more@;
    steps.append(&mut more);
    assert(steps_view(steps@) =~= steps_view(old(steps)@) + steps_view(added));
}

/// Adds `tool` to `tools` when it is not there yet.
pub fn push_tool(tools: &mut Vec<String>, tool: &str)
    ensures
        final(tools).deep_view() == push_new(old(tools).deep_view(), tool@),
{
    let mut i: usize = 0;
    while i < tools.len()
        invariant
            i <= tools.len(),
            tools@ == old(tools)@,
            forall|k: int| 0 <= k < i ==> tools.deep_view()[k] != tool@,
        decreases tools.len() - i,
    {
        if crate::text::str_eq(tools[i].as_str(), tool) {
            assert(tools.deep_view()[i as int] == tool@);
            return;
        }
        i += 1;
    }
    let ghost before = tools.deep_view();
    tools.push(tool.to_owned());
    assert(tools.deep_view() =~= before.push(tool@));
}

fn push_requirement(reqs: &mut Vec<EnvRequirement>, req: EnvRequirement)
    ensures
        reqs_view(final(reqs)@) == push_new(reqs_view(old(reqs)@), req@),
{
    let mut i: usize = 0;
    while i < reqs.len()
        invariant
            i <= reqs.len(),
            reqs@ == old(reqs)@,
            forall|k: int| 0 <= k < i ==> reqs_view(reqs@)[k] != req@,
        decreases reqs.len() - i,
    {
        if reqs[i].same_as(&req) {
            assert(reqs_view(reqs@)[i as int] == req@);
            return;
        }
        i += 1;
    }
    let ghost before = reqs_view(reqs@);
    let ghost r = req@;
    reqs.push(req);
    assert(reqs_view(reqs@) =~= before.push(r));
}

impl Plan {
    /// A plan of `steps` that declares nothing else yet.
    pub fn new(name: &str, steps: Vec<Step>) -> (r: Self)
        ensures
            r@ == bare_plan(name@, steps_view(steps@)),
    {
        let r = Plan {
            name: name.to_owned(),
            required_tools: Vec::new(),
            required_env: Vec::new(),
            dry_run_notes: Vec::new(),
            steps,
        };
        assert(r@.required_tools =~= Seq::<Seq<char>>::empty());
        assert(r@.required_env =~= Seq::<EnvRequirementView>::empty());
        assert(r@.dry_run_notes =~= Seq::<Seq<char>>::empty());
        r
    }

    /// The same plan, also requiring each of `tools` not required yet.
    pub fn with_required_tools(self, tools: Vec<String>) -> (r: Self)
        ensures
            r@ == (PlanView {
                required_tools: append_new(self@.required_tools, tools.deep_view()),
                ..self@
            }),
    {
        let mut plan = self;
        let ghost start = plan@.required_tools;
        let mut i: usize = 0;
        while i < tools.len()
            invariant
                i <= tools.len(),
                plan@ == (PlanView { required_tools: plan@.required_tools, ..self@ }),
                plan@.required_tools == append_new(start, tools.deep_view().take(i as int)),
                start == self@.required_tools,
            decreases tools.len() - i,
        {
            proof {
                lemma_append_new_push(start, tools.deep_view().take(i as int), tools.deep_view()[i as int]);
                assert(tools.deep_view().take(i as int).push(tools.deep_view()[i as int])
                    =~= tools.deep_view().take(i + 1));
            }
            push_tool(&mut plan.required_tools, tools[i].as_str());
            i += 1;
        }
        assert(tools.deep_view().take(tools.len() as int) =~= tools.deep_view());
        plan
    }

    /// The same plan, also requiring each of `requirements` not required yet.
    pub fn with_required_env(self, requirements: Vec<EnvRequirement>) -> (r: Self)
        ensures
            r@ == (PlanView {
                required_env: append_new(self@.required_env, reqs_view(requirements@)),
                ..self@
            }),
    {
        let mut plan = self;
        let ghost start = plan@.required_env;
        let ghost all = reqs_view(requirements@);
        let mut rest = requirements;
        let mut taken: usize = 0;
        let total = rest.len();
        while rest.len() > 0
            invariant
                all.len() == total,
                taken <= all.len(),
                reqs_view(rest@) == all.skip(taken as int),
                plan@ == (PlanView { required_env: plan@.required_env, ..self@ }),
                plan@.required_env == append_new(start, all.take(taken as int)),
                start == self@.required_env,
            decreases rest.len(),
        {
            let ghost before_rest = rest@;
            let next = rest.remove(0);
            proof {
                assert(reqs_view(before_rest).len() == before_rest.len());
                assert(reqs_view(before_rest)[0] == next@);
                assert(all.skip(taken as int)[0] == all[taken as int]);
                assert(all[taken as int] == next@);
                assert forall|k: int| 0 <= k < rest@.len() implies #[trigger] reqs_view(rest@)[k]
                    == all.skip(taken + 1)[k] by {
                    assert(rest@[k] == before_rest[k + 1]);
                    assert(reqs_view(before_rest)[k + 1] == all.skip(taken as int)[k + 1]);
                }
                assert(reqs_view(rest@) =~= all.skip(taken + 1));
                lemma_append_new_push(start, all.take(taken as int), next@);
                assert(all.take(taken as int).push(next@) =~= all.take(taken + 1));
            }
            push_requirement(&mut plan.required_env, next);
            taken += 1;
        }
        assert(all.take(taken as int) =~= all);
        plan
    }

    /// The same plan with `notes` added to what a dry run reports.
    pub fn with_dry_run_notes(self, notes: Vec<String>) -> (r: Self)
        ensures
            r@ == (PlanView { dry_run_notes: self@.dry_run_notes + notes.deep_view(), ..self@ }),
    {
        let mut plan = self;
        let mut notes = notes;
        let ghost added = notes.deep_view();
        let ghost before = plan.dry_run_notes.deep_view();
        plan.dry_run_notes.append(&mut notes);
        assert(plan.dry_run_notes.deep_view() =~= before + added);
        plan
    }
}

} // verus!

verus! {

/// The value of a planning outcome.
pub open spec fn plan_outcome(r: Result<Plan, crate::error::CompanyCiError>) -> Result<
    PlanView,
    crate::error::ErrorView,
> {
    match r {
        Ok(p) => Ok(p@),
        Err(e) => Err(e@),
    }
}

/// `s` when `cond`, else nothing.
pub open spec fn steps_if(cond: bool, s: Seq<StepView>) -> Seq<StepView> {
    if cond {
        s
    } else {
        Seq::empty()
    }
}

/// `s` when `cond`, else nothing.
pub open spec fn tools_if(cond: bool, s: Seq<Seq<char>>) -> Seq<Seq<char>> {
    if cond {
        s
    } else {
        Seq::empty()
    }
}

/// `steps`, or a single no-op step that says why when there are none.
pub open spec fn or_noop(steps: Seq<StepView>, why: Seq<char>) -> Seq<StepView> {
    if steps.len() == 0 {
        seq![noop_view(why)]
    } else {
        steps
    }
}

/// `steps` when `cond`, else no steps.
pub fn steps_when(cond: bool, steps: Vec<Step>) -> (r: Vec<Step>)
    ensures
        steps_view(r@) == steps_if(cond, steps_view(steps@)),
{
    if cond {
        steps
    } else {
        let r: Vec<Step> = Vec::new();
        assert(steps_view(r@) =~= Seq::<StepView>::empty());
        r
    }
}

/// `tools` when `cond`, else no tools.
pub fn tools_when(cond: bool, tools: Vec<&str>) -> (r: Vec<String>)
    ensures
        r.deep_view() == tools_if(cond, strs_view(tools@)),
{
    if cond {
        strings(tools)
    } else {
        let r: Vec<String> = Vec::new();
        assert(r.deep_view() =~= Seq::<Seq<char>>::empty());
        r
    }
}

/// Moves the strings of `b` to the end of `a`.
pub fn append_strings(a: &mut Vec<String>, b: Vec<String>)
    ensures
        final(a).deep_view() == old(a).deep_view() + b.deep_view(),
{
    let mut b = b;
    let ghost added = b.deep_view();
    let ghost before = a.deep_view();
    a.append(&mut b);
    assert(a.deep_view() =~= before + added);
}

/// Adds a no-op step that says why when there are no steps.
pub fn noop_if_empty(steps: &mut Vec<Step>, why: &str)
    ensures
        steps_view(final(steps)@) == or_noop(steps_view(old(steps)@), why@),
{
    if steps.len() == 0 {
        steps.push(noop_step(why));
        assert(steps_view(steps@) =~= seq![noop_view(why@)]);
    }
}

/// A list of one step.
pub fn single(s: Step) -> (r: Vec<Step>)
    ensures
        steps_view(r@) == seq![s@],
{
    let r = vec![s];
    assert(steps_view(r@) =~= seq![s@]);
    r
}

/// A list of two steps.
pub fn pair(a: Step, b: Step) -> (r: Vec<Step>)
    ensures
        steps_view(r@) == seq![a@, b@],
{
    let r = vec![a, b];
    assert(steps_view(r@) =~= seq![a@, b@]);
    r
}

/// The tools of `tools`, each once, in order of first appearance.
pub fn unique_tools(tools: Vec<String>) -> (r: Vec<String>)
    ensures
        r.deep_view() == append_new(Seq::empty(), tools.deep_view()),
{
    let mut out: Vec<String> = Vec::new();
    assert(out.deep_view() =~= Seq::<Seq<char>>::empty());
    let mut i: usize = 0;
    while i < tools.len()
        invariant
            i <= tools.len(),
            out.deep_view() == append_new(Seq::<Seq<char>>::empty(), tools.deep_view().take(i as int)),
        decreases tools.len() - i,
    {
        proof {
            lemma_append_new_push(
                Seq::<Seq<char>>::empty(),
                tools.deep_view().take(i as int),
                tools.deep_view()[i as int],
            );
            assert(tools.deep_view().take(i as int).push(tools.deep_view()[i as int])
                =~= tools.deep_view().take(i + 1));
        }
        push_tool(&mut out, tools[i].as_str());
        i += 1;
    }
    assert(tools.deep_view().take(tools.len() as int) =~= tools.deep_view());
    out
}

/// Adding required tools or env contracts keeps every earlier entry in its
/// place, adds each requested one that was missing, adds nothing else, and
/// never lists an entry twice.
pub proof fn lemma_required_entries<T>(existing: Seq<T>, added: Seq<T>)
    requires
        existing.no_duplicates(),
    ensures
        append_new(existing, added).no_duplicates(),
        existing.is_prefix_of(append_new(existing, added)),
        forall|x: T| #[trigger]
            append_new(existing, added).contains(x) <==> (existing.contains(x) || added.contains(x)),
{
    lemma_append_new_no_duplicates(existing, added);
    lemma_append_new_prefix(existing, added);
    assert forall|x: T| #[trigger]
        append_new(existing, added).contains(x) <==> (existing.contains(x) || added.contains(x)) by {
        lemma_append_new_contains(existing, added, x);
    }
}

/// Deduplicating twice is deduplicating once.
pub proof fn lemma_unique_twice<T>(items: Seq<T>)
    ensures
        append_new(Seq::empty(), append_new(Seq::empty(), items)) == append_new(Seq::empty(), items),
{
    lemma_append_new_no_duplicates(Seq::<T>::empty(), items);
    crate::ordered_set::lemma_append_new_distinct(append_new(Seq::<T>::empty(), items));
}

} // verus!
