//! Data model of the walkthrough tree: routes, chapters, steps, and the
//! mathematical views that the contracts speak of.

use vstd::prelude::*;

use crate::progress::ProgressMap;

verus! {

/// Emotional valence of a delusion trigger.
#[derive(Debug, Clone, Copy, PartialEq, Eq, Structural)]
pub enum Polarity {
    Positive,
    Negative,
    Neutral,
}

/// One question of a YES/NO prompt sequence, with the answer the guide expects.
#[derive(Debug, Clone)]
pub struct PromptChoice {
    pub question: String,
    pub answer: bool,
}

/// Mathematical value of a `PromptChoice`.
#[verifier::ext_equal]
pub ghost struct PromptChoiceView {
    pub question: Seq<char>,
    pub answer: bool,
}

impl View for PromptChoice {
    type V = PromptChoiceView;

    open spec fn view(&self) -> PromptChoiceView {
        PromptChoiceView { question: self.question@, answer: self.answer }
    }
}

/// The kind of a step: read-only reference data.
#[derive(Debug, Clone)]
pub enum StepType {
    DelusionTrigger { trigger_number: u32, polarity: Polarity, location: String },
    YesNoPrompts { prompts: Vec<PromptChoice> },
    GeneralInstruction { instruction: String },
    Checkpoint { save_point: String },
}

/// Mathematical value of a `StepType`.
#[verifier::ext_equal]
pub ghost enum StepTypeView {
    DelusionTrigger { trigger_number: u32, polarity: Polarity, location: Seq<char> },
    YesNoPrompts { prompts: Seq<PromptChoiceView> },
    GeneralInstruction { instruction: Seq<char> },
    Checkpoint { save_point: Seq<char> },
}

impl View for StepType {
    type V = StepTypeView;

    open spec fn view(&self) -> StepTypeView {
        match self {
            StepType::DelusionTrigger { trigger_number, polarity, location } => {
                StepTypeView::DelusionTrigger {
                    trigger_number: *trigger_number,
                    polarity: *polarity,
                    location: location@,
                }
            },
            StepType::YesNoPrompts { prompts } => {
                StepTypeView::YesNoPrompts {
                    prompts: prompts@.map_values(|p: PromptChoice| p@),
                }
            },
            StepType::GeneralInstruction { instruction } => {
                StepTypeView::GeneralInstruction { instruction: instruction@ }
            },
            StepType::Checkpoint { save_point } => {
                StepTypeView::Checkpoint { save_point: save_point@ }
            },
        }
    }
}

/// The smallest trackable unit of progress; only `completed` ever mutates.
#[derive(Debug, Clone)]
pub struct Step {
    pub id: String,
    pub description: String,
    pub step_type: StepType,
    pub completed: bool,
}

/// Mathematical value of a `Step`.
#[verifier::ext_equal]
pub ghost struct StepView {
    pub id: Seq<char>,
    pub description: Seq<char>,
    pub step_type: StepTypeView,
    pub completed: bool,
}

impl View for Step {
    type V = StepView;

    open spec fn view(&self) -> StepView {
        StepView {
            id: self.id@,
            description: self.description@,
            step_type: self.step_type@,
            completed: self.completed,
        }
    }
}

/// An ordered subdivision of a route; structurally immutable at runtime.
#[derive(Debug, Clone)]
pub struct Chapter {
    pub number: u32,
    pub name: String,
    pub steps: Vec<Step>,
}

/// Mathematical value of a `Chapter`.
#[verifier::ext_equal]
pub ghost struct ChapterView {
    pub number: u32,
    pub name: Seq<char>,
    pub steps: Seq<StepView>,
}

impl View for Chapter {
    type V = ChapterView;

    open spec fn view(&self) -> ChapterView {
        ChapterView {
            number: self.number,
            name: self.name@,
            steps: self.steps@.map_values(|s: Step| s@),
        }
    }
}

/// One complete story branch, gated by the names of prerequisite routes.
#[derive(Debug, Clone)]
pub struct Route {
    pub name: String,
    pub description: String,
    pub chapters: Vec<Chapter>,
    pub prerequisites: Vec<String>,
}

/// Mathematical value of a `Route`.
#[verifier::ext_equal]
pub ghost struct RouteView {
    pub name: Seq<char>,
    pub description: Seq<char>,
    pub chapters: Seq<ChapterView>,
    pub prerequisites: Seq<Seq<char>>,
}

impl View for Route {
    type V = RouteView;

    open spec fn view(&self) -> RouteView {
        RouteView {
            name: self.name@,
            description: self.description@,
            chapters: self.chapters@.map_values(|c: Chapter| c@),
            prerequisites: self.prerequisites@.map_values(|p: String| p@),
        }
    }
}

/// Index of the first element satisfying `p`, if any.
pub open spec fn first_where<A>(s: Seq<A>, p: spec_fn(A) -> bool) -> Option<int>
    decreases s.len(),
{
    if s.len() == 0 {
        None
    } else if p(s[0]) {
        Some(0)
    } else {
        match first_where(s.drop_first(), p) {
            Some(i) => Some(i + 1),
            None => None,
        }
    }
}

/// `first_where` returns exactly the least index satisfying `p`, or `None`
/// when no element satisfies it.
pub proof fn lemma_first_where<A>(s: Seq<A>, p: spec_fn(A) -> bool)
    ensures
        match first_where(s, p) {
            Some(i) => 0 <= i < s.len() && p(s[i]) && (forall|j: int|
                0 <= j < i ==> !p(#[trigger] s[j])),
            None => forall|j: int| 0 <= j < s.len() ==> !p(#[trigger] s[j]),
        },
    decreases s.len(),
{
    if s.len() > 0 && !p(s[0]) {
        lemma_first_where(s.drop_first(), p);
        match first_where(s.drop_first(), p) {
            Some(i) => {
                assert(s.drop_first()[i] == s[i + 1]);
                assert forall|j: int| 0 <= j < i + 1 implies !p(#[trigger] s[j]) by {
                    if j > 0 {
                        assert(s.drop_first()[j - 1] == s[j]);
                    }
                }
            },
            None => {
                assert forall|j: int| 0 <= j < s.len() implies !p(#[trigger] s[j]) by {
                    if j > 0 {
                        assert(s.drop_first()[j - 1] == s[j]);
                    }
                }
            },
        }
    }
}

/// Index of the first route called `name`, if any.
pub open spec fn first_route_named(routes: Seq<RouteView>, name: Seq<char>) -> Option<int> {
    first_where(routes, |r: RouteView| r.name == name)
}

/// Index of the first step with identifier `id`, if any.
pub open spec fn first_step_named(steps: Seq<StepView>, id: Seq<char>) -> Option<int> {
    first_where(steps, |s: StepView| s.id == id)
}

/// Number of steps in all chapters together.
pub open spec fn total_steps_of(chapters: Seq<ChapterView>) -> int
    decreases chapters.len(),
{
    if chapters.len() == 0 {
        0
    } else {
        total_steps_of(chapters.drop_last()) + chapters.last().steps.len()
    }
}

/// Number of completed steps in one step sequence.
pub open spec fn completed_in(steps: Seq<StepView>) -> int
    decreases steps.len(),
{
    if steps.len() == 0 {
        0
    } else {
        completed_in(steps.drop_last()) + if steps.last().completed {
            1int
        } else {
            0int
        }
    }
}

/// Number of completed steps in all chapters together.
pub open spec fn completed_of(chapters: Seq<ChapterView>) -> int
    decreases chapters.len(),
{
    if chapters.len() == 0 {
        0
    } else {
        completed_of(chapters.drop_last()) + completed_in(chapters.last().steps)
    }
}

pub open spec fn route_total_steps(r: RouteView) -> int {
    total_steps_of(r.chapters)
}

pub open spec fn route_completed_steps(r: RouteView) -> int {
    completed_of(r.chapters)
}

/// A route counts as complete when it has at least one step and every step
/// is completed; a route without steps never completes.
pub open spec fn route_complete(r: RouteView) -> bool {
    route_total_steps(r) > 0 && route_completed_steps(r) == route_total_steps(r)
}

/// A route whose every step is still not completed.
pub open spec fn route_fresh(r: RouteView) -> bool {
    forall|c: int, s: int|
        0 <= c < r.chapters.len() && 0 <= s < r.chapters[c].steps.len() ==> !(
        #[trigger] r.chapters[c].steps[s]).completed
}

/// `(c, s)` names an existing step of `r`.
pub open spec fn step_in_route(r: RouteView, c: int, s: int) -> bool {
    0 <= c < r.chapters.len() && 0 <= s < r.chapters[c].steps.len()
}

/// No two steps of one route share an identifier.
pub open spec fn route_ids_distinct(r: RouteView) -> bool {
    forall|c1: int, s1: int, c2: int, s2: int|
        step_in_route(r, c1, s1) && step_in_route(r, c2, s2) && #[trigger] r.chapters[
            c1
        ].steps[s1].id == #[trigger] r.chapters[c2].steps[s2].id ==> c1 == c2 && s1 == s2
}

/// Every step identifier of `r` is at least three characters long and opens
/// with the three given characters: the route's identifier prefix.
pub open spec fn route_ids_prefixed(r: RouteView, a: char, b: char, c: char) -> bool {
    forall|ci: int, si: int|
        step_in_route(r, ci, si) ==> {
            let id = (#[trigger] r.chapters[ci].steps[si]).id;
            &&& id.len() >= 3
            &&& id[0] == a
            &&& id[1] == b
            &&& id[2] == c
        }
}

/// No two steps anywhere in `routes` share an identifier: identifiers are
/// never reused across steps.
pub open spec fn step_ids_unique(routes: Seq<RouteView>) -> bool {
    forall|r1: int, c1: int, s1: int, r2: int, c2: int, s2: int|
        0 <= r1 < routes.len() && step_in_route(routes[r1], c1, s1) && 0 <= r2 < routes.len()
            && step_in_route(routes[r2], c2, s2) && #[trigger] routes[r1].chapters[c1].steps[
            s1
        ].id == #[trigger] routes[r2].chapters[c2].steps[s2].id ==> r1 == r2 && c1 == c2 && s1
            == s2
}

/// Every prerequisite name occurring in `routes` is the name of some route
/// in `routes`: prerequisite gating always resolves.
pub open spec fn prereqs_resolve(routes: Seq<RouteView>) -> bool {
    forall|r: int, p: int|
        0 <= r < routes.len() && 0 <= p < routes[r].prerequisites.len() ==> exists|j: int|
            0 <= j < routes.len() && routes[j].name == #[trigger] routes[r].prerequisites[p]
}

/// Machine bound: each route's step count fits in `usize`.
pub open spec fn routes_bounded(routes: Seq<RouteView>) -> bool {
    forall|i: int| 0 <= i < routes.len() ==> route_total_steps(#[trigger] routes[i]) <= usize::MAX
}

pub proof fn lemma_total_take_succ(chapters: Seq<ChapterView>, n: int)
    requires
        0 <= n < chapters.len(),
    ensures
        total_steps_of(chapters.take(n + 1)) == total_steps_of(chapters.take(n))
            + chapters[n].steps.len(),
        completed_of(chapters.take(n + 1)) == completed_of(chapters.take(n)) + completed_in(
            chapters[n].steps,
        ),
{
    assert(chapters.take(n + 1).drop_last() =~= chapters.take(n));
    assert(chapters.take(n + 1).last() == chapters[n]);
}

pub proof fn lemma_completed_in_bounds(steps: Seq<StepView>)
    ensures
        0 <= completed_in(steps) <= steps.len(),
    decreases steps.len(),
{
    if steps.len() > 0 {
        lemma_completed_in_bounds(steps.drop_last());
    }
}

pub proof fn lemma_counts_bounds(chapters: Seq<ChapterView>)
    ensures
        0 <= completed_of(chapters) <= total_steps_of(chapters),
    decreases chapters.len(),
{
    if chapters.len() > 0 {
        lemma_counts_bounds(chapters.drop_last());
        lemma_completed_in_bounds(chapters.last().steps);
    }
}

pub proof fn lemma_counts_take_le(chapters: Seq<ChapterView>, n: int)
    requires
        0 <= n <= chapters.len(),
    ensures
        total_steps_of(chapters.take(n)) <= total_steps_of(chapters),
        completed_of(chapters.take(n)) <= completed_of(chapters),
    decreases chapters.len() - n,
{
    if n == chapters.len() {
        assert(chapters.take(n) =~= chapters);
    } else {
        lemma_total_take_succ(chapters, n);
        lemma_counts_take_le(chapters, n + 1);
        lemma_completed_in_bounds(chapters[n].steps);
    }
}

/// The step sequence after the completion flag of the first step with
/// identifier `id` has been set to `completed`.
pub open spec fn mark_steps(steps: Seq<StepView>, id: Seq<char>, completed: bool) -> Seq<
    StepView,
> {
    match first_step_named(steps, id) {
        Some(i) => steps.update(i, StepView { completed, ..steps[i] }),
        None => steps,
    }
}

/// Marking changes no step's identity and no count: only one completion
/// flag, at most, differs.
pub proof fn lemma_mark_steps_shape(steps: Seq<StepView>, id: Seq<char>, v: bool)
    ensures
        mark_steps(steps, id, v).len() == steps.len(),
        forall|k: int| 0 <= k < steps.len() ==> (#[trigger] mark_steps(steps, id, v)[k]).id
            == steps[k].id,
{
    lemma_first_where(steps, |s: StepView| s.id == id);
}

/// A chapter after marking the first step called `id`, if present.
pub open spec fn mark_chapter(c: ChapterView, id: Seq<char>, completed: bool) -> ChapterView {
    ChapterView { steps: mark_steps(c.steps, id, completed), ..c }
}

/// A route after marking, chapter by chapter: within each chapter, the first
/// step called `id` (if any) takes the new flag.
pub open spec fn mark_route(r: RouteView, id: Seq<char>, completed: bool) -> RouteView {
    RouteView { chapters: r.chapters.map_values(|c: ChapterView| mark_chapter(c, id, completed)), ..r }
}

/// The store with the cached flag of one step — route `r`, chapter `c`,
/// step `s` — set to `v`; the store unchanged when an index is out of range.
pub open spec fn set_step_flag(g: GameDataView, r: int, c: int, s: int, v: bool) -> GameDataView {
    if 0 <= r < g.routes.len() && 0 <= c < g.routes[r].chapters.len() && 0 <= s < g.routes[
        r
    ].chapters[c].steps.len() {
        let route = g.routes[r];
        let chapter = route.chapters[c];
        let step = chapter.steps[s];
        GameDataView {
            routes: g.routes.update(
                r,
                RouteView {
                    chapters: route.chapters.update(
                        c,
                        ChapterView {
                            steps: chapter.steps.update(s, StepView { completed: v, ..step }),
                            ..chapter
                        },
                    ),
                    ..route
                },
            ),
            ..g
        }
    } else {
        g
    }
}

/// The whole store after `mark_step_completed(id, completed)`: the progress
/// record always takes the new flag; the cached flags change only within the
/// active route, if its index is in range.
pub open spec fn game_marked(g: GameDataView, id: Seq<char>, completed: bool) -> GameDataView {
    let routes = match g.current_route {
        Some(i) => if i < g.routes.len() {
            g.routes.update(i as int, mark_route(g.routes[i as int], id, completed))
        } else {
            g.routes
        },
        None => g.routes,
    };
    GameDataView { routes, progress: g.progress.insert(id, completed), ..g }
}

/// Completion ratio of route `i` as a whole percentage, rounded down;
/// zero for a route without steps and for an out-of-range index.
pub open spec fn completion_percent_spec(g: GameDataView, i: int) -> int {
    if 0 <= i < g.routes.len() {
        let total = route_total_steps(g.routes[i]);
        let completed = route_completed_steps(g.routes[i]);
        if total == 0 {
            0
        } else {
            completed * 100 / total
        }
    } else {
        0
    }
}

/// A prerequisite name is satisfied when some route carries that name and the
/// first route carrying it is complete; an unmatched name never satisfies.
pub open spec fn prereq_satisfied(routes: Seq<RouteView>, name: Seq<char>) -> bool {
    match first_route_named(routes, name) {
        Some(i) => route_complete(routes[i]),
        None => false,
    }
}

/// Route `i` is unlocked when every one of its prerequisite names is
/// satisfied; a route without prerequisites, or an out-of-range index,
/// counts as unlocked.
pub open spec fn route_unlocked(g: GameDataView, i: int) -> bool {
    0 <= i < g.routes.len() ==> forall|p: int|
        0 <= p < g.routes[i].prerequisites.len() ==> prereq_satisfied(
            g.routes,
            #[trigger] g.routes[i].prerequisites[p],
        )
}

pub proof fn lemma_percent_props(completed: int, total: int)
    requires
        0 <= completed <= total,
        0 < total,
    ensures
        0 <= completed * 100 / total <= 100,
        (completed * 100 / total == 100) <==> (completed == total),
{
    vstd::arithmetic::div_mod::lemma_div_pos_is_pos(completed * 100, total);
    vstd::arithmetic::div_mod::lemma_multiply_divide_le(completed * 100, total, 100);
    if completed == total {
        vstd::arithmetic::div_mod::lemma_div_multiples_vanish(100, total);
    } else {
        vstd::arithmetic::div_mod::lemma_multiply_divide_lt(completed * 100, total, 100);
    }
}

/// Marking touches one element at most: every element of the marked
/// sequence is either unchanged or the same step with its flag set to `v`.
pub proof fn lemma_mark_steps_element(steps: Seq<StepView>, id: Seq<char>, v: bool, s: int)
    requires
        0 <= s < steps.len(),
    ensures
        mark_steps(steps, id, v)[s] == steps[s] || mark_steps(steps, id, v)[s] == (StepView {
            completed: v,
            ..steps[s]
        }),
{
    lemma_first_where(steps, |st: StepView| st.id == id);
}

/// The store after one `toggle` on the step at route `r`, chapter `c`,
/// step `s`: the cached flag is set directly, then the same value is
/// recorded through the store's single mutation path.
pub open spec fn toggled_once(g: GameDataView, r: usize, c: int, s: int) -> GameDataView {
    let step = g.routes[r as int].chapters[c].steps[s];
    let v = !step.completed;
    game_marked(set_step_flag(g, r as int, c, s, v), step.id, v)
}

/// One toggle on the active route inverts exactly the cached flag of the
/// toggled step, keeps its identifier and the tree's shape, and records the
/// new flag in the progress mapping — so the mapping agrees with the cache.
pub proof fn lemma_toggle_once(g: GameDataView, r: usize, c: int, s: int)
    requires
        (r as int) < g.routes.len(),
        0 <= c < g.routes[r as int].chapters.len(),
        0 <= s < g.routes[r as int].chapters[c].steps.len(),
        g.current_route == Some(r),
    ensures
        ({
            let g1 = toggled_once(g, r, c, s);
            let step0 = g.routes[r as int].chapters[c].steps[s];
            &&& g1.routes.len() == g.routes.len()
            &&& g1.routes[r as int].chapters.len() == g.routes[r as int].chapters.len()
            &&& g1.routes[r as int].chapters[c].steps.len() == g.routes[
                r as int
            ].chapters[c].steps.len()
            &&& g1.current_route == g.current_route
            &&& g1.routes[r as int].chapters[c].steps[s] == (StepView {
                completed: !step0.completed,
                ..step0
            })
            &&& g1.progress == g.progress.insert(step0.id, !step0.completed)
        }),
{
    let step0 = g.routes[r as int].chapters[c].steps[s];
    let v = !step0.completed;
    let flagged = set_step_flag(g, r as int, c, s, v);
    let flagged_route = flagged.routes[r as int];
    let flagged_steps = flagged_route.chapters[c].steps;
    assert(flagged_steps == g.routes[r as int].chapters[c].steps.update(
        s,
        StepView { completed: v, ..step0 },
    ));
    assert(flagged_steps[s] == (StepView { completed: v, ..step0 }));
    let g1 = toggled_once(g, r, c, s);
    assert(g1 == game_marked(flagged, step0.id, v));
    assert(g1.routes[r as int] == mark_route(flagged_route, step0.id, v));
    assert(g1.routes[r as int].chapters[c] == mark_chapter(
        flagged_route.chapters[c],
        step0.id,
        v,
    ));
    lemma_mark_steps_shape(flagged_steps, step0.id, v);
    lemma_mark_steps_element(flagged_steps, step0.id, v, s);
    assert(g1.routes[r as int].chapters[c].steps[s] == (StepView { completed: v, ..step0 }));
}

/// Toggling the same step twice returns its cached completion flag to the
/// original value, never changes its identifier, and leaves the progress
/// mapping consistent with the cached flag after each of the two toggles.
pub proof fn lemma_toggle_twice(g: GameDataView, r: usize, c: int, s: int)
    requires
        (r as int) < g.routes.len(),
        0 <= c < g.routes[r as int].chapters.len(),
        0 <= s < g.routes[r as int].chapters[c].steps.len(),
        g.current_route == Some(r),
    ensures
        ({
            let g1 = toggled_once(g, r, c, s);
            let g2 = toggled_once(g1, r, c, s);
            let step0 = g.routes[r as int].chapters[c].steps[s];
            let step1 = g1.routes[r as int].chapters[c].steps[s];
            let step2 = g2.routes[r as int].chapters[c].steps[s];
            &&& step2.completed == step0.completed
            &&& step1.id == step0.id
            &&& step2.id == step0.id
            &&& g1.progress.contains_key(step0.id)
            &&& g1.progress[step0.id] == step1.completed
            &&& g2.progress.contains_key(step0.id)
            &&& g2.progress[step0.id] == step2.completed
        }),
{
    lemma_toggle_once(g, r, c, s);
    let g1 = toggled_once(g, r, c, s);
    lemma_toggle_once(g1, r, c, s);
}

/// Replacing one element changes the completed count by exactly the
/// difference of the two flags.
proof fn lemma_completed_in_update(steps: Seq<StepView>, j: int, x: StepView)
    requires
        0 <= j < steps.len(),
    ensures
        completed_in(steps.update(j, x)) == completed_in(steps) - (if steps[j].completed {
            1int
        } else {
            0int
        }) + (if x.completed {
            1int
        } else {
            0int
        }),
    decreases steps.len(),
{
    let upd = steps.update(j, x);
    if j == steps.len() - 1 {
        assert(upd.drop_last() =~= steps.drop_last());
        assert(upd.last() == x);
    } else {
        assert(upd.drop_last() =~= steps.drop_last().update(j, x));
        lemma_completed_in_update(steps.drop_last(), j, x);
        assert(upd.last() == steps.last());
        assert(steps.drop_last()[j] == steps[j]);
    }
}

/// Marking a step completed never lowers a sequence's completed count.
proof fn lemma_mark_steps_true_monotone(steps: Seq<StepView>, id: Seq<char>)
    ensures
        mark_steps(steps, id, true).len() == steps.len(),
        completed_in(mark_steps(steps, id, true)) >= completed_in(steps),
{
    lemma_first_where(steps, |s: StepView| s.id == id);
    match first_step_named(steps, id) {
        Some(j) => {
            lemma_completed_in_update(steps, j, StepView { completed: true, ..steps[j] });
        },
        None => {},
    }
}

/// Marking a step completed keeps every chapter's step count and never
/// lowers the completed count.
proof fn lemma_mark_chapters_counts(chapters: Seq<ChapterView>, id: Seq<char>)
    ensures
        ({
            let marked = chapters.map_values(|c: ChapterView| mark_chapter(c, id, true));
            &&& total_steps_of(marked) == total_steps_of(chapters)
            &&& completed_of(marked) >= completed_of(chapters)
        }),
    decreases chapters.len(),
{
    let f = |c: ChapterView| mark_chapter(c, id, true);
    let marked = chapters.map_values(f);
    if chapters.len() > 0 {
        lemma_mark_chapters_counts(chapters.drop_last(), id);
        assert(marked.drop_last() =~= chapters.drop_last().map_values(f));
        assert(marked.last() == f(chapters.last()));
        lemma_mark_steps_true_monotone(chapters.last().steps, id);
    }
}

/// A complete route stays complete when one of its steps is marked
/// completed.
proof fn lemma_mark_route_true_keeps_complete(r: RouteView, id: Seq<char>)
    requires
        route_complete(r),
    ensures
        route_complete(mark_route(r, id, true)),
{
    lemma_mark_chapters_counts(r.chapters, id);
    lemma_counts_bounds(mark_route(r, id, true).chapters);
}

/// Marking a step completed never locks a route: a route unlocked before
/// `mark_step_completed(id, true)` is still unlocked afterwards, whichever
/// route is active.
pub proof fn lemma_mark_true_keeps_unlocked(g: GameDataView, id: Seq<char>, i: int)
    requires
        0 <= i < g.routes.len(),
        route_unlocked(g, i),
    ensures
        route_unlocked(game_marked(g, id, true), i),
{
    let g2 = game_marked(g, id, true);
    assert(g2.routes.len() == g.routes.len());
    assert forall|j: int| 0 <= j < g.routes.len() implies (#[trigger] g.routes[j]).name
        == g2.routes[j].name by {}
    assert forall|j: int|
        0 <= j < g.routes.len() && route_complete(#[trigger] g.routes[j]) implies route_complete(
        g2.routes[j],
    ) by {
        if g2.routes[j] != g.routes[j] {
            lemma_mark_route_true_keeps_complete(g.routes[j], id);
        }
    }
    lemma_unlocked_monotonic(g, g2, i);
}

/// Extremes of the completion percentage: a route with no completed step
/// reports zero, and a complete route — one with steps, all of them
/// completed — reports one hundred. (A route with no steps at all reports
/// zero even though "all" of its steps are completed.)
pub proof fn lemma_completion_percentage_extremes(g: GameDataView, i: int)
    requires
        0 <= i < g.routes.len(),
    ensures
        route_completed_steps(g.routes[i]) == 0 ==> completion_percent_spec(g, i) == 0,
        route_complete(g.routes[i]) ==> completion_percent_spec(g, i) == 100,
{
    let r = g.routes[i];
    lemma_counts_bounds(r.chapters);
    let total = route_total_steps(r);
    let completed = route_completed_steps(r);
    if total > 0 {
        lemma_percent_props(completed, total);
        if completed == 0 {
            vstd::arithmetic::div_mod::lemma_div_of0(total);
        }
    }
}

/// Unlocking is monotonic. Between two stores with the same route names in
/// the same order, where route `i` keeps its prerequisite list and every
/// route complete in the first store is still complete in the second,
/// a route unlocked in the first store stays unlocked in the second.
pub proof fn lemma_unlocked_monotonic(g1: GameDataView, g2: GameDataView, i: int)
    requires
        0 <= i < g1.routes.len(),
        g1.routes.len() == g2.routes.len(),
        forall|j: int| 0 <= j < g1.routes.len() ==> (#[trigger] g1.routes[j]).name
            == g2.routes[j].name,
        forall|j: int|
            0 <= j < g1.routes.len() && route_complete(#[trigger] g1.routes[j]) ==> route_complete(
                g2.routes[j],
            ),
        g2.routes[i].prerequisites == g1.routes[i].prerequisites,
        route_unlocked(g1, i),
    ensures
        route_unlocked(g2, i),
{
    let prereqs = g1.routes[i].prerequisites;
    assert forall|p: int|
        0 <= p < g2.routes[i].prerequisites.len() implies prereq_satisfied(
        g2.routes,
        #[trigger] g2.routes[i].prerequisites[p],
    ) by {
        let name = prereqs[p];
        assert(prereq_satisfied(g1.routes, name));
        let m1 = |r: RouteView| r.name == name;
        lemma_first_where(g1.routes, m1);
        lemma_first_where(g2.routes, m1);
        let j = first_route_named(g1.routes, name)->Some_0;
        assert(m1(g2.routes[j]));
        assert forall|k: int| 0 <= k < j implies !m1(#[trigger] g2.routes[k]) by {
            assert(!m1(g1.routes[k]));
            assert(g1.routes[k].name == g2.routes[k].name);
        }
        assert(first_route_named(g2.routes, name) == Some(j));
        assert(route_complete(g2.routes[j]));
    }
}

/// Aggregate root of the progress store.
#[derive(Debug)]
pub struct GameData {
    pub routes: Vec<Route>,
    pub current_route: Option<usize>,
    pub progress: ProgressMap,
}

/// Mathematical value of a `GameData`.
#[verifier::ext_equal]
pub ghost struct GameDataView {
    pub routes: Seq<RouteView>,
    pub current_route: Option<usize>,
    pub progress: Map<Seq<char>, bool>,
}

impl View for GameData {
    type V = GameDataView;

    open spec fn view(&self) -> GameDataView {
        GameDataView {
            routes: self.routes@.map_values(|r: Route| r@),
            current_route: self.current_route,
            progress: self.progress@,
        }
    }
}

/// Set the completion flag of the first step called `step_id` within one
/// chapter; a chapter without such a step is left unchanged.
fn mark_in_chapter(chapter: &mut Chapter, step_id: &String, completed: bool)
    ensures
        final(chapter)@ == mark_chapter(old(chapter)@, step_id@, completed),
{
    let ghost steps_view = old(chapter)@.steps;
    let ghost p = |s: StepView| s.id == step_id@;
    let mut s: usize = 0;
    while s < chapter.steps.len()
        invariant
            chapter == old(chapter),
            steps_view == chapter@.steps,
            p == (|s: StepView| s.id == step_id@),
            s <= chapter.steps@.len(),
            steps_view.len() == chapter.steps@.len(),
            forall|j: int| 0 <= j < s ==> !p(#[trigger] steps_view[j]),
        decreases chapter.steps@.len() - s,
    {
        if chapter.steps[s].id == *step_id {
            proof {
                assert(steps_view[s as int] == chapter.steps@[s as int]@);
                assert(p(steps_view[s as int]));
                lemma_first_where(steps_view, p);
                assert(first_step_named(steps_view, step_id@) == Some(s as int));
            }
            chapter.steps[s].completed = completed;
            proof {
                assert(chapter.steps@ =~= old(chapter).steps@.update(
                    s as int,
                    chapter.steps@[s as int],
                ));
                assert(chapter@.steps =~= mark_steps(steps_view, step_id@, completed));
                assert(chapter@ =~= mark_chapter(old(chapter)@, step_id@, completed));
            }
            return ;
        }
        s += 1;
    }
    proof {
        lemma_first_where(steps_view, p);
        assert(first_step_named(steps_view, step_id@) is None);
        assert(chapter@ =~= mark_chapter(old(chapter)@, step_id@, completed));
    }
}

/// Apply `mark_in_chapter` to every chapter of a route in order.
fn mark_in_route(route: &mut Route, step_id: &String, completed: bool)
    ensures
        final(route)@ == mark_route(old(route)@, step_id@, completed),
{
    let mut c: usize = 0;
    while c < route.chapters.len()
        invariant
            c <= route.chapters@.len(),
            route.chapters@.len() == old(route).chapters@.len(),
            route.name == old(route).name,
            route.description == old(route).description,
            route.prerequisites == old(route).prerequisites,
            forall|j: int|
                0 <= j < c ==> #[trigger] route.chapters@[j]@ == mark_chapter(
                    old(route).chapters@[j]@,
                    step_id@,
                    completed,
                ),
            forall|j: int|
                c <= j < route.chapters@.len() ==> #[trigger] route.chapters@[j] == old(
                    route,
                ).chapters@[j],
        decreases route.chapters@.len() - c,
    {
        mark_in_chapter(&mut route.chapters[c], step_id, completed);
        c += 1;
    }
    proof {
        assert(route@.chapters =~= mark_route(old(route)@, step_id@, completed).chapters);
        assert(route@ =~= mark_route(old(route)@, step_id@, completed));
    }
}

/// Count a route's completed and total steps in one pass.
fn route_counts(route: &Route) -> (counts: (usize, usize))
    requires
        route_total_steps(route@) <= usize::MAX,
    ensures
        counts.0 == route_completed_steps(route@),
        counts.1 == route_total_steps(route@),
        counts.0 <= counts.1,
{
    let ghost chs = route@.chapters;
    let mut completed: usize = 0;
    let mut total: usize = 0;
    let mut c: usize = 0;
    while c < route.chapters.len()
        invariant
            chs == route@.chapters,
            c <= route.chapters@.len(),
            chs.len() == route.chapters@.len(),
            total_steps_of(chs) <= usize::MAX,
            total == total_steps_of(chs.take(c as int)),
            completed == completed_of(chs.take(c as int)),
            completed <= total,
        decreases route.chapters@.len() - c,
    {
        proof {
            assert(chs[c as int] == route.chapters@[c as int]@);
            lemma_total_take_succ(chs, c as int);
            lemma_counts_take_le(chs, c as int + 1);
            lemma_counts_bounds(chs.take(c as int + 1));
        }
        let ghost steps_view = chs[c as int].steps;
        let steps_len = route.chapters[c].steps.len();
        total = total + steps_len;
        let mut s: usize = 0;
        let mut comp_in: usize = 0;
        while s < route.chapters[c].steps.len()
            invariant
                chs == route@.chapters,
                c < route.chapters@.len(),
                chs.len() == route.chapters@.len(),
                steps_view == chs[c as int].steps,
                steps_view.len() == route.chapters@[c as int].steps@.len(),
                s <= steps_view.len(),
                comp_in == completed_in(steps_view.take(s as int)),
                comp_in <= s,
            decreases steps_view.len() - s,
        {
            proof {
                assert(chs[c as int] == route.chapters@[c as int]@);
                assert(steps_view[s as int] == route.chapters@[c as int].steps@[s as int]@);
                assert(steps_view.take(s as int + 1).drop_last() =~= steps_view.take(s as int));
                lemma_completed_in_bounds(steps_view.take(s as int + 1));
            }
            if route.chapters[c].steps[s].completed {
                comp_in = comp_in + 1;
            }
            s += 1;
        }
        proof {
            assert(steps_view.take(s as int) =~= steps_view);
        }
        completed = completed + comp_in;
        c += 1;
    }
    proof {
        assert(chs.take(c as int) =~= chs);
    }
    (completed, total)
}

impl GameData {
    /// The store's internal invariant: the progress record is well formed.
    pub open spec fn wf(&self) -> bool {
        self.progress.wf()
    }

    /// An empty store: no routes, no active route, no recorded progress.
    pub fn new() -> (g: GameData)
        ensures
            g.wf(),
            g@.routes == Seq::<RouteView>::empty(),
            g@.current_route is None,
            g@.progress == Map::<Seq<char>, bool>::empty(),
    {
        let g = GameData {
            routes: Vec::new(),
            current_route: None,
            progress: ProgressMap::new(),
        };
        proof {
            assert(g@.routes =~= Seq::<RouteView>::empty());
        }
        g
    }

    /// Record the flag for `step_id` in the progress record and, when a route
    /// is active and in range, update the cached flags inside that route.
    pub fn mark_step_completed(&mut self, step_id: &str, completed: bool)
        requires
            old(self).wf(),
        ensures
            final(self).wf(),
            final(self)@ == game_marked(old(self)@, step_id@, completed),
    {
        let key: String = step_id.to_owned();
        self.progress.set(step_id, completed);
        if let Some(route_idx) = self.current_route {
            if route_idx < self.routes.len() {
                mark_in_route(&mut self.routes[route_idx], &key, completed);
                proof {
                    assert(self@.routes =~= game_marked(old(self)@, step_id@, completed).routes);
                }
            }
        }
        proof {
            assert(self@ =~= game_marked(old(self)@, step_id@, completed));
        }
    }

    /// Completion of route `route_idx` as a whole percentage, rounded down.
    pub fn get_completion_percentage(&self, route_idx: usize) -> (percent: u32)
        requires
            route_idx < self.routes@.len() ==> route_total_steps(
                self.routes@[route_idx as int]@,
            ) <= usize::MAX,
        ensures
            percent == completion_percent_spec(self@, route_idx as int),
            percent <= 100,
    {
        if route_idx < self.routes.len() {
            proof {
                assert(self@.routes[route_idx as int] == self.routes@[route_idx as int]@);
            }
            let counts = route_counts(&self.routes[route_idx]);
            let completed = counts.0;
            let total = counts.1;
            if total == 0 {
                0
            } else {
                proof {
                    lemma_percent_props(completed as int, total as int);
                }
                (((completed as u128) * 100) / (total as u128)) as u32
            }
        } else {
            0
        }
    }

    /// Whether every prerequisite of route `route_idx` resolves to a complete
    /// route; unmatched prerequisite names leave the route locked.
    pub fn is_route_unlocked(&self, route_idx: usize) -> (unlocked: bool)
        requires
            routes_bounded(self@.routes),
        ensures
            unlocked == route_unlocked(self@, route_idx as int),
    {
        let ghost routes_view = self@.routes;
        if route_idx >= self.routes.len() {
            return true;
        }
        let ghost prereqs = routes_view[route_idx as int].prerequisites;
        let mut p: usize = 0;
        while p < self.routes[route_idx].prerequisites.len()
            invariant
                routes_view == self@.routes,
                routes_bounded(routes_view),
                route_idx < self.routes@.len(),
                routes_view.len() == self.routes@.len(),
                prereqs == routes_view[route_idx as int].prerequisites,
                prereqs.len() == self.routes@[route_idx as int].prerequisites@.len(),
                p <= prereqs.len(),
                forall|q: int| 0 <= q < p ==> prereq_satisfied(routes_view, #[trigger] prereqs[q]),
            decreases prereqs.len() - p,
        {
            proof {
                assert(routes_view[route_idx as int] == self.routes@[route_idx as int]@);
                assert(prereqs[p as int] == self.routes@[route_idx as int].prerequisites@[p as int]@);
            }
            let ghost name = prereqs[p as int];
            let ghost matcher = |r: RouteView| r.name == name;
            let mut j: usize = 0;
            let mut satisfied = false;
            let mut resolved = false;
            while j < self.routes.len()
                invariant
                    routes_view == self@.routes,
                    routes_bounded(routes_view),
                    route_idx < self.routes@.len(),
                    routes_view.len() == self.routes@.len(),
                    name == prereqs[p as int],
                    p < prereqs.len(),
                    prereqs == routes_view[route_idx as int].prerequisites,
                    matcher == (|r: RouteView| r.name == name),
                    j <= routes_view.len(),
                    !resolved ==> forall|k: int| 0 <= k < j ==> !matcher(#[trigger] routes_view[k]),
                    !resolved ==> !satisfied,
                    resolved ==> satisfied == prereq_satisfied(routes_view, name),
                    resolved ==> j == routes_view.len(),
                decreases routes_view.len() - j,
            {
                if !resolved {
                    proof {
                        assert(routes_view[j as int] == self.routes@[j as int]@);
                    }
                    if self.routes[j].name == self.routes[route_idx].prerequisites[p] {
                        proof {
                            assert(matcher(routes_view[j as int]));
                            lemma_first_where(routes_view, matcher);
                            assert(first_route_named(routes_view, name) == Some(j as int));
                        }
                        let pct = self.get_completion_percentage(j);
                        proof {
                            let r = routes_view[j as int];
                            lemma_counts_bounds(r.chapters);
                            if route_total_steps(r) > 0 {
                                lemma_percent_props(
                                    route_completed_steps(r),
                                    route_total_steps(r),
                                );
                            }
                        }
                        satisfied = pct >= 100;
                        resolved = true;
                        j = self.routes.len();
                    } else {
                        j += 1;
                    }
                } else {
                    j += 1;
                }
            }
            if !resolved {
                proof {
                    lemma_first_where(routes_view, matcher);
                    assert(first_route_named(routes_view, name) is None);
                }
            }
            if !satisfied {
                proof {
                    if !resolved {
                        assert(!prereq_satisfied(routes_view, name));
                    }
                }
                return false;
            }
            p += 1;
        }
        true
    }
}

} // verus!
