//! The view-state machine: three screens, cursor handling, and the display
//! mapping that flattens a route's chapter/step tree into one list whose
//! header rows cannot be selected.

use vstd::prelude::*;

use crate::models::{ChapterView, GameData, GameDataView, Route, RouteView, game_marked, set_step_flag};
use vstd::view::View as _;

verus! {

/// One row of the flat route-detail list: either an unselectable chapter
/// heading or a selectable row standing for one step.
#[derive(Debug, Clone, Copy, PartialEq, Eq, Structural)]
pub enum DisplayRow {
    Header { chapter_idx: usize },
    Selectable { chapter_idx: usize, step_idx: usize },
}

/// The three screens of the browser.
#[derive(Debug, Clone, Copy, PartialEq, Eq, Structural)]
pub enum View {
    RouteSelection,
    RouteDetails { route_idx: usize },
    StepDetails { route_idx: usize, chapter_idx: usize, step_idx: usize },
}

/// One user action, as decoded from a key press by the caller.
#[derive(Debug, Clone, Copy, PartialEq, Eq, Structural)]
pub enum Action {
    Quit,
    ToggleHelp,
    Back,
    Confirm,
    MoveUp,
    MoveDown,
    ToggleStep,
}

/// The rows contributed by chapter `cidx`: its header, then one selectable
/// row per step.
pub open spec fn chapter_rows(c: ChapterView, cidx: int) -> Seq<DisplayRow> {
    seq![DisplayRow::Header { chapter_idx: cidx as usize }] + Seq::new(
        c.steps.len(),
        |j: int| DisplayRow::Selectable { chapter_idx: cidx as usize, step_idx: j as usize },
    )
}

/// The rows of the first `n` chapters, in order.
pub open spec fn rows_up_to(chapters: Seq<ChapterView>, n: int) -> Seq<DisplayRow>
    decreases n,
{
    if n <= 0 {
        Seq::empty()
    } else {
        rows_up_to(chapters, n - 1) + chapter_rows(chapters[n - 1], n - 1)
    }
}

/// The whole display list of a route.
pub open spec fn route_rows(r: RouteView) -> Seq<DisplayRow> {
    rows_up_to(r.chapters, r.chapters.len() as int)
}

/// Whether display row `i` exists and is selectable.
pub open spec fn selectable_at(rows: Seq<DisplayRow>, i: int) -> bool {
    0 <= i < rows.len() && rows[i] is Selectable
}

/// Machine bound under which row indices fit in `usize`.
pub open spec fn chapters_sized(chapters: Seq<ChapterView>) -> bool {
    chapters.len() <= usize::MAX && (forall|c: int|
        0 <= c < chapters.len() ==> (#[trigger] chapters[c].steps).len() <= usize::MAX)
}

/// Every selectable row of a route's display list points at an existing
/// step: the chapter index is in range and the step index is in range for
/// that chapter. Headers point at existing chapters.
pub proof fn lemma_rows_up_to_valid(chapters: Seq<ChapterView>, n: int)
    requires
        chapters_sized(chapters),
        0 <= n <= chapters.len(),
    ensures
        forall|i: int|
            0 <= i < rows_up_to(chapters, n).len() ==> match #[trigger] rows_up_to(chapters, n)[i] {
                DisplayRow::Header { chapter_idx } => chapter_idx < n,
                DisplayRow::Selectable { chapter_idx, step_idx } => chapter_idx < n && step_idx
                    < chapters[chapter_idx as int].steps.len(),
            },
    decreases n,
{
    if n > 0 {
        lemma_rows_up_to_valid(chapters, n - 1);
        let prev = rows_up_to(chapters, n - 1);
        let added = chapter_rows(chapters[n - 1], n - 1);
        assert forall|i: int|
            0 <= i < rows_up_to(chapters, n).len() implies match #[trigger] rows_up_to(
            chapters,
            n,
        )[i] {
            DisplayRow::Header { chapter_idx } => chapter_idx < n,
            DisplayRow::Selectable { chapter_idx, step_idx } => chapter_idx < n && step_idx
                < chapters[chapter_idx as int].steps.len(),
        } by {
            if i < prev.len() {
                assert(rows_up_to(chapters, n)[i] == prev[i]);
            } else {
                assert(rows_up_to(chapters, n)[i] == added[i - prev.len()]);
            }
        }
    }
}

/// Display-mapping round trip: every selectable row of `route_rows(r)`
/// resolves to a chapter that exists and a step that exists within it.
pub proof fn lemma_route_rows_valid(r: RouteView)
    requires
        chapters_sized(r.chapters),
    ensures
        forall|i: int|
            selectable_at(route_rows(r), i) ==> {
                let row = #[trigger] route_rows(r)[i];
                &&& row->Selectable_chapter_idx < r.chapters.len()
                &&& row->Selectable_step_idx < r.chapters[
                    row->Selectable_chapter_idx as int
                ].steps.len()
            },
{
    lemma_rows_up_to_valid(r.chapters, r.chapters.len() as int);
}

/// The display list is as long as the number of chapters plus the number of
/// steps: one header per chapter, one row per step.
pub proof fn lemma_rows_up_to_len(chapters: Seq<ChapterView>, n: int)
    requires
        0 <= n <= chapters.len(),
    ensures
        rows_up_to(chapters, n).len() == n + crate::models::total_steps_of(chapters.take(n)),
    decreases n,
{
    if n > 0 {
        lemma_rows_up_to_len(chapters, n - 1);
        crate::models::lemma_total_take_succ(chapters, n - 1);
    } else {
        assert(chapters.take(0) =~= Seq::<ChapterView>::empty());
    }
}

pub proof fn lemma_route_rows_len(r: RouteView)
    ensures
        route_rows(r).len() == r.chapters.len() + crate::models::route_total_steps(r),
{
    lemma_rows_up_to_len(r.chapters, r.chapters.len() as int);
    assert(r.chapters.take(r.chapters.len() as int) =~= r.chapters);
}

/// The least selectable index in `[lo, hi)`, if any.
pub open spec fn first_selectable_in(rows: Seq<DisplayRow>, lo: int, hi: int) -> Option<int>
    decreases hi - lo,
{
    if lo >= hi {
        None
    } else if selectable_at(rows, lo) {
        Some(lo)
    } else {
        first_selectable_in(rows, lo + 1, hi)
    }
}

/// The greatest selectable index in `[lo, hi)`, if any.
pub open spec fn last_selectable_in(rows: Seq<DisplayRow>, lo: int, hi: int) -> Option<int>
    decreases hi - lo,
{
    if lo >= hi {
        None
    } else if selectable_at(rows, hi - 1) {
        Some(hi - 1)
    } else {
        last_selectable_in(rows, lo, hi - 1)
    }
}

/// `first_selectable_in` returns exactly the least selectable index of the
/// range, or `None` when the range holds none.
pub proof fn lemma_first_selectable_in(rows: Seq<DisplayRow>, lo: int, hi: int)
    ensures
        match first_selectable_in(rows, lo, hi) {
            Some(i) => lo <= i < hi && selectable_at(rows, i) && (forall|j: int|
                lo <= j < i ==> !selectable_at(rows, j)),
            None => forall|j: int| lo <= j < hi ==> !selectable_at(rows, j),
        },
    decreases hi - lo,
{
    if lo < hi && !selectable_at(rows, lo) {
        lemma_first_selectable_in(rows, lo + 1, hi);
    }
}

/// `last_selectable_in` returns exactly the greatest selectable index of the
/// range, or `None` when the range holds none.
pub proof fn lemma_last_selectable_in(rows: Seq<DisplayRow>, lo: int, hi: int)
    ensures
        match last_selectable_in(rows, lo, hi) {
            Some(i) => lo <= i < hi && selectable_at(rows, i) && (forall|j: int|
                i < j < hi ==> !selectable_at(rows, j)),
            None => forall|j: int| lo <= j < hi ==> !selectable_at(rows, j),
        },
    decreases hi - lo,
{
    if lo < hi && !selectable_at(rows, hi - 1) {
        lemma_last_selectable_in(rows, lo, hi - 1);
    }
}

/// The cursor position the row list treats as current: the selection, or
/// row zero while nothing is selected.
pub open spec fn cursor_or_zero(sel: Option<usize>) -> int {
    match sel {
        Some(s) => s as int,
        None => 0,
    }
}

/// Where `move_down` puts the step cursor: the next selectable row below,
/// else — wrapping around — the first selectable row from the top of the
/// list up to and including the current row; an unchanged cursor when the
/// list has no selectable row at all.
pub open spec fn move_down_target(rows: Seq<DisplayRow>, sel: Option<usize>) -> Option<usize> {
    let cur = cursor_or_zero(sel);
    match first_selectable_in(rows, cur + 1, rows.len() as int) {
        Some(i) => Some(i as usize),
        None => match first_selectable_in(rows, 0, cur + 1) {
            Some(i) => Some(i as usize),
            None => sel,
        },
    }
}

/// Where `move_up` puts the step cursor: the nearest selectable row above,
/// else — wrapping around — the last selectable row of the whole list; an
/// unchanged cursor when the list has no selectable row at all.
pub open spec fn move_up_target(rows: Seq<DisplayRow>, sel: Option<usize>) -> Option<usize> {
    let cur = cursor_or_zero(sel);
    match last_selectable_in(rows, 0, cur) {
        Some(i) => Some(i as usize),
        None => match last_selectable_in(rows, 0, rows.len() as int) {
            Some(i) => Some(i as usize),
            None => sel,
        },
    }
}

/// The selectable row indices of a list, in increasing order, considering
/// only rows below `n`.
pub open spec fn sel_indices_up_to(rows: Seq<DisplayRow>, n: int) -> Seq<int>
    decreases n,
{
    if n <= 0 {
        Seq::empty()
    } else if selectable_at(rows, n - 1) {
        sel_indices_up_to(rows, n - 1).push(n - 1)
    } else {
        sel_indices_up_to(rows, n - 1)
    }
}

/// All selectable row indices of a list, in increasing order.
pub open spec fn selectable_indices(rows: Seq<DisplayRow>) -> Seq<int> {
    sel_indices_up_to(rows, rows.len() as int)
}

/// `sel_indices_up_to` lists exactly the selectable indices below `n`,
/// strictly increasing.
pub proof fn lemma_sel_indices_up_to(rows: Seq<DisplayRow>, n: int)
    requires
        0 <= n <= rows.len(),
    ensures
        ({
            let inds = sel_indices_up_to(rows, n);
            &&& forall|k: int|
                0 <= k < inds.len() ==> 0 <= #[trigger] inds[k] < n && selectable_at(rows, inds[k])
            &&& forall|k1: int, k2: int| 0 <= k1 < k2 < inds.len() ==> inds[k1] < inds[k2]
            &&& forall|i: int| 0 <= i < n && selectable_at(rows, i) ==> inds.contains(i)
        }),
    decreases n,
{
    if n > 0 {
        lemma_sel_indices_up_to(rows, n - 1);
        let prev = sel_indices_up_to(rows, n - 1);
        let inds = sel_indices_up_to(rows, n);
        if selectable_at(rows, n - 1) {
            assert forall|i: int| 0 <= i < n && selectable_at(rows, i) implies inds.contains(
                i,
            ) by {
                if i < n - 1 {
                    let k = choose|k: int| 0 <= k < prev.len() && prev[k] == i;
                    assert(inds[k] == i);
                } else {
                    assert(inds[inds.len() - 1] == i);
                }
            }
        } else {
            assert forall|i: int| 0 <= i < n && selectable_at(rows, i) implies inds.contains(
                i,
            ) by {
                assert(i < n - 1);
            }
        }
    }
}

/// Where `move_down` sends a cursor that sits on a selectable row: the next
/// selectable row, wrapping to the first one when none follows. (The wrap
/// scan covers the current row itself, so from a selectable row it always
/// lands somewhere.)
pub open spec fn next_selectable(rows: Seq<DisplayRow>, cur: int) -> int {
    match first_selectable_in(rows, cur + 1, rows.len() as int) {
        Some(i) => i,
        None => match first_selectable_in(rows, 0, cur + 1) {
            Some(i) => i,
            None => cur,
        },
    }
}

/// On a selectable row, `move_down_target` is exactly `next_selectable`,
/// and the landing row is selectable again.
pub proof fn lemma_move_down_target_selectable(rows: Seq<DisplayRow>, s: usize)
    requires
        selectable_at(rows, s as int),
    ensures
        selectable_at(rows, next_selectable(rows, s as int)),
        move_down_target(rows, Some(s)) == Some(next_selectable(rows, s as int) as usize),
{
    lemma_first_selectable_in(rows, s as int + 1, rows.len() as int);
    lemma_first_selectable_in(rows, 0, s as int + 1);
}

/// The cursor after `n` repetitions of `move_down` from `cur`, all rows
/// selectable along the way.
pub open spec fn iterate_move_down(rows: Seq<DisplayRow>, cur: int, n: nat) -> int
    decreases n,
{
    if n == 0 {
        cur
    } else {
        iterate_move_down(rows, next_selectable(rows, cur), (n - 1) as nat)
    }
}

/// One `move_down` from the selectable row of rank `k` lands on the
/// selectable row of rank `k + 1`, modulo the number of selectable rows.
proof fn lemma_next_selectable_rank(rows: Seq<DisplayRow>, k: int)
    requires
        0 <= k < selectable_indices(rows).len(),
    ensures
        next_selectable(rows, selectable_indices(rows)[k]) == selectable_indices(rows)[(k + 1) % (
        selectable_indices(rows).len() as int)],
{
    lemma_sel_indices_up_to(rows, rows.len() as int);
    let inds = selectable_indices(rows);
    let len = inds.len() as int;
    let cur = inds[k];
    lemma_first_selectable_in(rows, cur + 1, rows.len() as int);
    if k + 1 < len {
        vstd::arithmetic::div_mod::lemma_small_mod((k + 1) as nat, len as nat);
        match first_selectable_in(rows, cur + 1, rows.len() as int) {
            Some(i) => {
                assert(inds.contains(i));
                let m = choose|m: int| 0 <= m < inds.len() && inds[m] == i;
                assert(inds[k + 1] >= cur + 1);
                assert(m > k);
                assert(i <= inds[k + 1]);
                assert(i == inds[k + 1]);
            },
            None => {
                assert(!selectable_at(rows, inds[k + 1]));
                assert(false);
            },
        }
    } else {
        assert((k + 1) % len == 0) by {
            vstd::arithmetic::div_mod::lemma_mod_self_0(len);
        }
        match first_selectable_in(rows, cur + 1, rows.len() as int) {
            Some(i) => {
                assert(inds.contains(i));
                let m = choose|m: int| 0 <= m < inds.len() && inds[m] == i;
                assert(m > k);
                assert(false);
            },
            None => {},
        }
        lemma_first_selectable_in(rows, 0, cur + 1);
        match first_selectable_in(rows, 0, cur + 1) {
            Some(i) => {
                assert(inds.contains(i));
                let m = choose|m: int| 0 <= m < inds.len() && inds[m] == i;
                assert(inds[0] <= inds[m]);
                assert(selectable_at(rows, inds[0]));
                assert(inds[0] <= cur);
                assert(i <= inds[0]);
                assert(i == inds[0]);
            },
            None => {
                assert(!selectable_at(rows, cur));
                assert(false);
            },
        }
    }
}

/// After `n` repetitions of `move_down` from the selectable row of rank
/// `k`, the cursor sits on the row of rank `(k + n)` modulo the number of
/// selectable rows.
proof fn lemma_iterate_rank(rows: Seq<DisplayRow>, k: int, n: nat)
    requires
        0 <= k < selectable_indices(rows).len(),
    ensures
        iterate_move_down(rows, selectable_indices(rows)[k], n) == selectable_indices(rows)[(k
            + n) % (selectable_indices(rows).len() as int)],
    decreases n,
{
    let inds = selectable_indices(rows);
    let len = inds.len() as int;
    if n == 0 {
        vstd::arithmetic::div_mod::lemma_small_mod(k as nat, len as nat);
    } else {
        lemma_next_selectable_rank(rows, k);
        let k1 = (k + 1) % len;
        vstd::arithmetic::div_mod::lemma_mod_bound(k + 1, len);
        lemma_iterate_rank(rows, k1, (n - 1) as nat);
        assert((k1 + (n - 1)) % len == (k + n) % len) by {
            vstd::arithmetic::div_mod::lemma_add_mod_noop(k + 1, n - 1, len);
            vstd::arithmetic::div_mod::lemma_add_mod_noop(k1, n - 1, len);
            vstd::arithmetic::div_mod::lemma_mod_twice(k + 1, len);
        }
    }
}

/// Wraparound closure: from any selectable row, repeating `move_down` once
/// per selectable row of the list returns the cursor to the starting row.
pub proof fn lemma_move_down_cycle(rows: Seq<DisplayRow>, start: int)
    requires
        selectable_at(rows, start),
    ensures
        iterate_move_down(rows, start, selectable_indices(rows).len()) == start,
{
    lemma_sel_indices_up_to(rows, rows.len() as int);
    let inds = selectable_indices(rows);
    let len = inds.len() as int;
    assert(inds.contains(start));
    let k = choose|k: int| 0 <= k < inds.len() && inds[k] == start;
    lemma_iterate_rank(rows, k, inds.len());
    assert((k + len) % len == k) by {
        vstd::arithmetic::div_mod::lemma_add_mod_noop(k, len, len);
        vstd::arithmetic::div_mod::lemma_mod_self_0(len);
        vstd::arithmetic::div_mod::lemma_mod_twice(k, len);
        vstd::arithmetic::div_mod::lemma_small_mod(k as nat, len as nat);
    }
}

/// The navigator: the store, the active screen, the two cursors, and the
/// display mapping of the open route.
#[derive(Debug)]
pub struct App {
    pub game_data: GameData,
    pub current_view: View,
    pub route_selected: Option<usize>,
    pub step_selected: Option<usize>,
    pub should_quit: bool,
    pub show_help: bool,
    pub display_rows: Vec<DisplayRow>,
}

impl App {
    /// Within a detail screen of route `route_idx`: the route exists, it is
    /// the store's active route, the display mapping is exactly the route's
    /// row list, and the step cursor stays inside it.
    pub open spec fn detail_wf(&self, route_idx: usize) -> bool {
        &&& route_idx < self.game_data@.routes.len()
        &&& self.game_data@.current_route == Some(route_idx)
        &&& self.display_rows@ == route_rows(self.game_data@.routes[route_idx as int])
        &&& (match self.step_selected {
            Some(k) => k < self.display_rows@.len(),
            None => true,
        })
    }

    /// The navigator's invariant, preserved by every action.
    pub open spec fn wf(&self) -> bool {
        &&& self.game_data.wf()
        &&& (match self.route_selected {
            Some(k) => k == 0 || k < self.game_data@.routes.len(),
            None => true,
        })
        &&& (match self.current_view {
            View::RouteSelection => true,
            View::RouteDetails { route_idx } => self.detail_wf(route_idx),
            View::StepDetails { route_idx, chapter_idx, step_idx } => {
                &&& self.detail_wf(route_idx)
                &&& chapter_idx < self.game_data@.routes[route_idx as int].chapters.len()
                &&& step_idx < self.game_data@.routes[route_idx as int].chapters[
                    chapter_idx as int
                ].steps.len()
            },
        })
    }

    /// A fresh navigator over `game_data`: route list screen, route cursor
    /// on the first entry, nothing else selected.
    pub fn new(game_data: GameData) -> (app: App)
        requires
            game_data.wf(),
        ensures
            app.wf(),
            app.game_data == game_data,
            app.current_view == View::RouteSelection,
            app.route_selected == Some(0usize),
            app.step_selected is None,
            app.should_quit == false,
            app.show_help == false,
            app.display_rows@ == Seq::<DisplayRow>::empty(),
    {
        let app = App {
            game_data,
            current_view: View::RouteSelection,
            route_selected: Some(0),
            step_selected: None,
            should_quit: false,
            show_help: false,
            display_rows: Vec::new(),
        };
        proof {
            assert(app.display_rows@ =~= Seq::<DisplayRow>::empty());
        }
        app
    }

    /// Rebuild the display mapping for route `route_idx`: one header row per
    /// chapter, immediately followed by one selectable row per step; an
    /// out-of-range index leaves the mapping empty.
    fn build_step_display_mapping(&mut self, route_idx: usize)
        ensures
            final(self).display_rows@ == (if route_idx < old(self).game_data@.routes.len() {
                route_rows(old(self).game_data@.routes[route_idx as int])
            } else {
                Seq::<DisplayRow>::empty()
            }),
            forall|i: int|
                selectable_at(final(self).display_rows@, i) ==> {
                    let row = #[trigger] final(self).display_rows@[i];
                    let chapters = old(self).game_data@.routes[route_idx as int].chapters;
                    &&& route_idx < old(self).game_data@.routes.len()
                    &&& row->Selectable_chapter_idx < chapters.len()
                    &&& row->Selectable_step_idx < chapters[
                        row->Selectable_chapter_idx as int
                    ].steps.len()
                },
            final(self).game_data == old(self).game_data,
            final(self).current_view == old(self).current_view,
            final(self).route_selected == old(self).route_selected,
            final(self).step_selected == old(self).step_selected,
            final(self).should_quit == old(self).should_quit,
            final(self).show_help == old(self).show_help,
    {
        self.display_rows.clear();
        proof {
            assert(self.display_rows@ =~= Seq::<DisplayRow>::empty());
        }
        if route_idx < self.game_data.routes.len() {
            let ghost chapters = self.game_data@.routes[route_idx as int].chapters;
            proof {
                assert(chapters == self.game_data.routes@[route_idx as int]@.chapters);
            }
            let chapter_count = self.game_data.routes[route_idx].chapters.len();
            let mut c: usize = 0;
            while c < chapter_count
                invariant
                    self.game_data == old(self).game_data,
                    self.current_view == old(self).current_view,
                    self.route_selected == old(self).route_selected,
                    self.step_selected == old(self).step_selected,
                    self.should_quit == old(self).should_quit,
                    self.show_help == old(self).show_help,
                    route_idx < self.game_data@.routes.len(),
                    chapters == self.game_data@.routes[route_idx as int].chapters,
                    chapter_count == chapters.len(),
                    c <= chapter_count,
                    self.display_rows@ == rows_up_to(chapters, c as int),
                decreases chapter_count - c,
            {
                self.display_rows.push(DisplayRow::Header { chapter_idx: c });
                let ghost header_rows = rows_up_to(chapters, c as int) + seq![
                    DisplayRow::Header { chapter_idx: c },
                ];
                proof {
                    assert(self.display_rows@ =~= header_rows);
                    assert(chapters[c as int]
                        == self.game_data.routes@[route_idx as int].chapters@[c as int]@);
                }
                let step_count = self.game_data.routes[route_idx].chapters[c].steps.len();
                let mut s: usize = 0;
                while s < step_count
                    invariant
                        route_idx < self.game_data@.routes.len(),
                        chapters == self.game_data@.routes[route_idx as int].chapters,
                        c < chapters.len(),
                        step_count == chapters[c as int].steps.len(),
                        s <= step_count,
                        header_rows == rows_up_to(chapters, c as int) + seq![
                            DisplayRow::Header { chapter_idx: c },
                        ],
                        self.display_rows@ == header_rows + Seq::new(
                            s as nat,
                            |j: int| DisplayRow::Selectable { chapter_idx: c, step_idx: j as usize },
                        ),
                        self.game_data == old(self).game_data,
                        self.current_view == old(self).current_view,
                        self.route_selected == old(self).route_selected,
                        self.step_selected == old(self).step_selected,
                        self.should_quit == old(self).should_quit,
                        self.show_help == old(self).show_help,
                    decreases step_count - s,
                {
                    self.display_rows.push(DisplayRow::Selectable { chapter_idx: c, step_idx: s });
                    proof {
                        assert(self.display_rows@ =~= header_rows + Seq::new(
                            (s + 1) as nat,
                            |j: int| DisplayRow::Selectable { chapter_idx: c, step_idx: j as usize },
                        ));
                    }
                    s += 1;
                }
                proof {
                    assert(self.display_rows@ =~= rows_up_to(chapters, c as int + 1));
                }
                c += 1;
            }
            proof {
                assert(rows_up_to(chapters, chapter_count as int) == route_rows(
                    self.game_data@.routes[route_idx as int],
                ));
                lemma_route_sized(self.game_data.routes@[route_idx as int]);
                lemma_route_rows_valid(self.game_data@.routes[route_idx as int]);
            }
        }
    }

    /// Leave the current screen: route details fall back to the route list,
    /// dropping the mapping and the step cursor; step details fall back to
    /// route details and clear the step cursor; the route list ignores
    /// `back`.
    pub fn go_back(&mut self)
        requires
            old(self).wf(),
        ensures
            final(self).wf(),
            back_transition(*old(self), *final(self)),
    {
        match self.current_view {
            View::RouteSelection => {},
            View::RouteDetails { route_idx: _ } => {
                self.current_view = View::RouteSelection;
                self.display_rows.clear();
                self.step_selected = None;
                proof {
                    assert(self.display_rows@ =~= Seq::<DisplayRow>::empty());
                }
            },
            View::StepDetails { route_idx, chapter_idx: _, step_idx: _ } => {
                self.current_view = View::RouteDetails { route_idx };
                self.step_selected = None;
            },
        }
    }

    /// Move the route cursor one entry up (route list, no wrap) or the step
    /// cursor to the nearest selectable row above, wrapping to the bottom of
    /// the list when none lies above; ignored elsewhere.
    pub fn move_up(&mut self)
        requires
            old(self).wf(),
        ensures
            final(self).wf(),
            move_up_transition(*old(self), *final(self)),
    {
        match self.current_view {
            View::RouteSelection => {
                let selected = match self.route_selected {
                    Some(s) => s,
                    None => 0,
                };
                if selected > 0 {
                    self.route_selected = Some(selected - 1);
                }
            },
            View::RouteDetails { route_idx: _ } => {
                let ghost rows = self.display_rows@;
                let selected = match self.step_selected {
                    Some(s) => s,
                    None => 0,
                };
                let mut i: usize = selected;
                while i > 0
                    invariant
                        old(self).wf(),
                        old(self).current_view is RouteDetails,
                        selected as int == cursor_or_zero(old(self).step_selected),
                        rows == self.display_rows@,
                        self == old(self),
                        i <= selected <= rows.len(),
                        forall|j: int| i <= j < selected ==> !selectable_at(rows, j),
                    decreases i,
                {
                    i -= 1;
                    if matches!(self.display_rows[i], DisplayRow::Selectable { .. }) {
                        proof {
                            assert(selectable_at(rows, i as int));
                            lemma_last_selectable_in(rows, 0, selected as int);
                            assert(last_selectable_in(rows, 0, selected as int) == Some(
                                i as int,
                            ));
                        }
                        self.step_selected = Some(i);
                        return ;
                    }
                }
                proof {
                    lemma_last_selectable_in(rows, 0, selected as int);
                    assert(last_selectable_in(rows, 0, selected as int) is None);
                }
                let mut k: usize = self.display_rows.len();
                while k > 0
                    invariant
                        old(self).wf(),
                        old(self).current_view is RouteDetails,
                        selected as int == cursor_or_zero(old(self).step_selected),
                        rows == self.display_rows@,
                        self == old(self),
                        k <= rows.len(),
                        last_selectable_in(rows, 0, selected as int) is None,
                        forall|j: int| k <= j < rows.len() ==> !selectable_at(rows, j),
                    decreases k,
                {
                    k -= 1;
                    if matches!(self.display_rows[k], DisplayRow::Selectable { .. }) {
                        proof {
                            assert(selectable_at(rows, k as int));
                            lemma_last_selectable_in(rows, 0, rows.len() as int);
                            assert(last_selectable_in(rows, 0, rows.len() as int) == Some(
                                k as int,
                            ));
                        }
                        self.step_selected = Some(k);
                        return ;
                    }
                }
                proof {
                    lemma_last_selectable_in(rows, 0, rows.len() as int);
                    assert(last_selectable_in(rows, 0, rows.len() as int) is None);
                }
            },
            View::StepDetails { .. } => {},
        }
    }

    /// Move the route cursor one entry down (route list, no wrap) or the
    /// step cursor to the next selectable row, wrapping to the top of the
    /// list past the end; ignored elsewhere.
    pub fn move_down(&mut self)
        requires
            old(self).wf(),
        ensures
            final(self).wf(),
            move_down_transition(*old(self), *final(self)),
    {
        match self.current_view {
            View::RouteSelection => {
                let selected = match self.route_selected {
                    Some(s) => s,
                    None => 0,
                };
                let count = self.game_data.routes.len();
                if count > 0 && selected < count - 1 {
                    self.route_selected = Some(selected + 1);
                }
            },
            View::RouteDetails { route_idx: _ } => {
                let ghost rows = self.display_rows@;
                let selected = match self.step_selected {
                    Some(s) => s,
                    None => 0,
                };
                let total = self.display_rows.len();
                let mut i: usize = selected + 1;
                while i < total
                    invariant
                        old(self).wf(),
                        old(self).current_view is RouteDetails,
                        selected as int == cursor_or_zero(old(self).step_selected),
                        rows == self.display_rows@,
                        self == old(self),
                        total == rows.len(),
                        selected + 1 <= i,
                        forall|j: int| selected + 1 <= j < i ==> !selectable_at(rows, j),
                    decreases total - i,
                {
                    if matches!(self.display_rows[i], DisplayRow::Selectable { .. }) {
                        proof {
                            assert(selectable_at(rows, i as int));
                            lemma_first_selectable_in(rows, selected as int + 1, total as int);
                            assert(first_selectable_in(rows, selected as int + 1, total as int)
                                == Some(i as int));
                        }
                        self.step_selected = Some(i);
                        return ;
                    }
                    i += 1;
                }
                proof {
                    lemma_first_selectable_in(rows, selected as int + 1, total as int);
                    assert(first_selectable_in(rows, selected as int + 1, total as int) is None);
                }
                let mut k: usize = 0;
                while k < selected + 1
                    invariant
                        old(self).wf(),
                        old(self).current_view is RouteDetails,
                        selected as int == cursor_or_zero(old(self).step_selected),
                        rows == self.display_rows@,
                        self == old(self),
                        total == rows.len(),
                        first_selectable_in(rows, selected as int + 1, total as int) is None,
                        selected + 1 <= usize::MAX,
                        k <= selected + 1,
                        forall|j: int| 0 <= j < k ==> !selectable_at(rows, j),
                    decreases selected + 1 - k,
                {
                    if k < total {
                        if matches!(self.display_rows[k], DisplayRow::Selectable { .. }) {
                            proof {
                                assert(selectable_at(rows, k as int));
                                lemma_first_selectable_in(rows, 0, selected as int + 1);
                                assert(first_selectable_in(rows, 0, selected as int + 1) == Some(
                                    k as int,
                                ));
                            }
                            self.step_selected = Some(k);
                            return ;
                        }
                    }
                    k += 1;
                }
                proof {
                    lemma_first_selectable_in(rows, 0, selected as int + 1);
                    assert(first_selectable_in(rows, 0, selected as int + 1) is None);
                }
            },
            View::StepDetails { .. } => {},
        }
    }
}

/// Every chapter of an exec route fits the machine bounds of the display
/// mapping: index arithmetic over it cannot leave `usize`.
proof fn lemma_route_sized(r: Route)
    ensures
        chapters_sized(r@.chapters),
{
    assert(r.chapters@.len() == r.chapters.len());
    assert forall|c: int|
        0 <= c < r@.chapters.len() implies (#[trigger] r@.chapters[c].steps).len()
        <= usize::MAX by {
        assert(r@.chapters[c] == r.chapters@[c]@);
        let ch = r.chapters@[c];
        assert(ch.steps@.len() == ch.steps.len());
        assert(r@.chapters[c].steps.len() == ch.steps@.len());
    }
}

/// Two routes with the same chapter count and the same step count in each
/// chapter produce the same display list: the rows carry indices only.
proof fn lemma_rows_up_to_same_shape(a: Seq<ChapterView>, b: Seq<ChapterView>, n: int)
    requires
        0 <= n <= a.len(),
        a.len() == b.len(),
        forall|c: int| 0 <= c < a.len() ==> (#[trigger] a[c].steps).len() == b[c].steps.len(),
    ensures
        rows_up_to(a, n) == rows_up_to(b, n),
    decreases n,
{
    if n > 0 {
        lemma_rows_up_to_same_shape(a, b, n - 1);
        assert(chapter_rows(a[n - 1], n - 1) =~= chapter_rows(b[n - 1], n - 1));
    }
}

pub proof fn lemma_route_rows_same_shape(a: RouteView, b: RouteView)
    requires
        a.chapters.len() == b.chapters.len(),
        forall|c: int|
            0 <= c < a.chapters.len() ==> (#[trigger] a.chapters[c].steps).len()
                == b.chapters[c].steps.len(),
    ensures
        route_rows(a) == route_rows(b),
{
    lemma_rows_up_to_same_shape(a.chapters, b.chapters, a.chapters.len() as int);
}

/// The first selectable row of the whole list, if any.
fn first_selectable_row(rows: &Vec<DisplayRow>) -> (r: Option<usize>)
    ensures
        r == (match first_selectable_in(rows@, 0, rows@.len() as int) {
            Some(i) => Some(i as usize),
            None => None::<usize>,
        }),
{
    let mut i: usize = 0;
    while i < rows.len()
        invariant
            i <= rows@.len(),
            forall|j: int| 0 <= j < i ==> !selectable_at(rows@, j),
        decreases rows@.len() - i,
    {
        if matches!(rows[i], DisplayRow::Selectable { .. }) {
            proof {
                assert(selectable_at(rows@, i as int));
                lemma_first_selectable_in(rows@, 0, rows@.len() as int);
            }
            return Some(i);
        }
        i += 1;
    }
    proof {
        lemma_first_selectable_in(rows@, 0, rows@.len() as int);
    }
    None
}

impl App {
    /// Enter the screen the cursor points at: on the route list, open the
    /// selected route — make it active, rebuild the display mapping, and put
    /// the step cursor on the first selectable row; on route details, open
    /// the selected step; separators and invalid cursors do nothing.
    pub fn select_current(&mut self)
        requires
            old(self).wf(),
        ensures
            final(self).wf(),
            confirm_transition(*old(self), *final(self)),
    {
        match self.current_view {
            View::RouteSelection => {
                if let Some(selected) = self.route_selected {
                    if selected < self.game_data.routes.len() {
                        self.current_view = View::RouteDetails { route_idx: selected };
                        self.game_data.current_route = Some(selected);
                        proof {
                            assert(self.game_data@ =~= (GameDataView {
                                current_route: Some(selected),
                                ..old(self).game_data@
                            }));
                        }
                        self.build_step_display_mapping(selected);
                        match first_selectable_row(&self.display_rows) {
                            Some(first) => {
                                self.step_selected = Some(first);
                                proof {
                                    lemma_first_selectable_in(
                                        self.display_rows@,
                                        0,
                                        self.display_rows@.len() as int,
                                    );
                                }
                            },
                            None => {
                                self.step_selected = None;
                            },
                        }
                    }
                }
            },
            View::RouteDetails { route_idx } => {
                if let Some(sel) = self.step_selected {
                    if sel < self.display_rows.len() {
                        match self.display_rows[sel] {
                            DisplayRow::Selectable { chapter_idx, step_idx } => {
                                proof {
                                    assert(selectable_at(self.display_rows@, sel as int));
                                    lemma_route_sized(self.game_data.routes@[route_idx as int]);
                                    lemma_route_rows_valid(
                                        self.game_data@.routes[route_idx as int],
                                    );
                                }
                                self.current_view = View::StepDetails {
                                    route_idx,
                                    chapter_idx,
                                    step_idx,
                                };
                            },
                            DisplayRow::Header { chapter_idx: _ } => {},
                        }
                    }
                }
            },
            View::StepDetails { .. } => {},
        }
    }

    /// Invert the completion flag of the step under the cursor, writing the
    /// new flag both into the cached tree and — through the store — into the
    /// progress record; separators and invalid cursors do nothing.
    pub fn toggle_step_completion(&mut self)
        requires
            old(self).wf(),
        ensures
            final(self).wf(),
            toggle_transition(*old(self), *final(self)),
    {
        match self.current_view {
            View::RouteDetails { route_idx } => {
                if let Some(sel) = self.step_selected {
                    if sel < self.display_rows.len() {
                        match self.display_rows[sel] {
                            DisplayRow::Selectable { chapter_idx, step_idx } => {
                                proof {
                                    assert(selectable_at(self.display_rows@, sel as int));
                                    lemma_route_sized(self.game_data.routes@[route_idx as int]);
                                    lemma_route_rows_valid(
                                        self.game_data@.routes[route_idx as int],
                                    );
                                }
                                let step_id = self.game_data.routes[route_idx].chapters[
                                    chapter_idx
                                ].steps[step_idx].id.clone();
                                let new_completion = !self.game_data.routes[route_idx].chapters[
                                    chapter_idx
                                ].steps[step_idx].completed;
                                self.game_data.routes[route_idx].chapters[chapter_idx].steps[
                                    step_idx
                                ].completed = new_completion;
                                let ghost flagged = set_step_flag(
                                    old(self).game_data@,
                                    route_idx as int,
                                    chapter_idx as int,
                                    step_idx as int,
                                    new_completion,
                                );
                                proof {
                                    assert(self.game_data@ =~~= flagged);
                                }
                                self.game_data.mark_step_completed(
                                    step_id.as_str(),
                                    new_completion,
                                );
                                proof {
                                    let marked = game_marked(
                                        flagged,
                                        step_id@,
                                        new_completion,
                                    );
                                    assert(self.game_data@ == marked);
                                    let pre_route = old(self).game_data@.routes[route_idx as int];
                                    let post_route = self.game_data@.routes[route_idx as int];
                                    let flagged_route = flagged.routes[route_idx as int];
                                    assert(marked.routes[route_idx as int]
                                        == crate::models::mark_route(
                                        flagged_route,
                                        step_id@,
                                        new_completion,
                                    ));
                                    assert(flagged_route.chapters.len()
                                        == pre_route.chapters.len());
                                    assert(post_route.chapters.len() == pre_route.chapters.len());
                                    assert forall|c: int|
                                        0 <= c < pre_route.chapters.len() implies (
                                    #[trigger] pre_route.chapters[c].steps).len()
                                        == post_route.chapters[c].steps.len() by {
                                        if c != chapter_idx as int {
                                            assert(flagged_route.chapters[c]
                                                == pre_route.chapters[c]);
                                        }
                                        assert(flagged_route.chapters[c].steps.len()
                                            == pre_route.chapters[c].steps.len());
                                        assert(post_route.chapters[c]
                                            == crate::models::mark_chapter(
                                            flagged_route.chapters[c],
                                            step_id@,
                                            new_completion,
                                        ));
                                        crate::models::lemma_mark_steps_shape(
                                            flagged_route.chapters[c].steps,
                                            step_id@,
                                            new_completion,
                                        );
                                    }
                                    lemma_route_rows_same_shape(pre_route, post_route);
                                }
                            },
                            DisplayRow::Header { chapter_idx: _ } => {},
                        }
                    }
                }
            },
            View::RouteSelection => {},
            View::StepDetails { .. } => {},
        }
    }

    /// Dispatch one action. While the help overlay is open, only the help
    /// key and `back` act — they close it — and everything else is ignored.
    pub fn handle_action(&mut self, action: Action)
        requires
            old(self).wf(),
        ensures
            final(self).wf(),
            handle_transition(*old(self), *final(self), action),
    {
        if self.show_help {
            if matches!(action, Action::ToggleHelp | Action::Back) {
                self.show_help = false;
            }
            return ;
        }
        match action {
            Action::Quit => {
                self.should_quit = true;
            },
            Action::ToggleHelp => {
                self.show_help = true;
            },
            Action::Back => self.go_back(),
            Action::Confirm => self.select_current(),
            Action::MoveUp => self.move_up(),
            Action::MoveDown => self.move_down(),
            Action::ToggleStep => self.toggle_step_completion(),
        }
    }
}

/// What `select_current` does, screen by screen.
pub open spec fn confirm_transition(pre: App, post: App) -> bool {
    match pre.current_view {
        View::RouteSelection => {
            match pre.route_selected {
                Some(selected) => {
                    if (selected as int) < pre.game_data@.routes.len() {
                        let route = pre.game_data@.routes[selected as int];
                        let rows = route_rows(route);
                        &&& post.current_view == (View::RouteDetails { route_idx: selected })
                        &&& post.game_data@ == (GameDataView {
                            current_route: Some(selected),
                            ..pre.game_data@
                        })
                        &&& post.display_rows@ == rows
                        &&& post.step_selected == (match first_selectable_in(
                            rows,
                            0,
                            rows.len() as int,
                        ) {
                            Some(i) => Some(i as usize),
                            None => None::<usize>,
                        })
                        &&& post.route_selected == pre.route_selected
                        &&& post.should_quit == pre.should_quit
                        &&& post.show_help == pre.show_help
                    } else {
                        post == pre
                    }
                },
                None => post == pre,
            }
        },
        View::RouteDetails { route_idx } => {
            match pre.step_selected {
                Some(sel) => {
                    if selectable_at(pre.display_rows@, sel as int) {
                        let row = pre.display_rows@[sel as int];
                        &&& post.current_view == (View::StepDetails {
                            route_idx,
                            chapter_idx: row->Selectable_chapter_idx,
                            step_idx: row->Selectable_step_idx,
                        })
                        &&& post.game_data == pre.game_data
                        &&& post.display_rows == pre.display_rows
                        &&& post.route_selected == pre.route_selected
                        &&& post.step_selected == pre.step_selected
                        &&& post.should_quit == pre.should_quit
                        &&& post.show_help == pre.show_help
                    } else {
                        post == pre
                    }
                },
                None => post == pre,
            }
        },
        View::StepDetails { .. } => post == pre,
    }
}

/// What `toggle_step_completion` does: on a selectable row, the cached flag
/// of that step is inverted and the same value is recorded through the
/// store's single mutation path; anywhere else, nothing.
pub open spec fn toggle_transition(pre: App, post: App) -> bool {
    match pre.current_view {
        View::RouteDetails { route_idx } => {
            match pre.step_selected {
                Some(sel) => {
                    if selectable_at(pre.display_rows@, sel as int) {
                        let row = pre.display_rows@[sel as int];
                        let c = row->Selectable_chapter_idx;
                        let s = row->Selectable_step_idx;
                        let step = pre.game_data@.routes[route_idx as int].chapters[
                            c as int
                        ].steps[s as int];
                        let v = !step.completed;
                        &&& post.game_data@ == game_marked(
                            set_step_flag(pre.game_data@, route_idx as int, c as int, s as int, v),
                            step.id,
                            v,
                        )
                        &&& post.current_view == pre.current_view
                        &&& post.display_rows == pre.display_rows
                        &&& post.route_selected == pre.route_selected
                        &&& post.step_selected == pre.step_selected
                        &&& post.should_quit == pre.should_quit
                        &&& post.show_help == pre.show_help
                    } else {
                        post == pre
                    }
                },
                None => post == pre,
            }
        },
        View::RouteSelection => post == pre,
        View::StepDetails { .. } => post == pre,
    }
}

/// What `handle_action` does: with the help overlay open only the help key
/// and `back` act, closing it; otherwise the action is dispatched to the
/// matching transition.
pub open spec fn handle_transition(pre: App, post: App, action: Action) -> bool {
    if pre.show_help {
        if action is ToggleHelp || action is Back {
            post == (App { show_help: false, ..pre })
        } else {
            post == pre
        }
    } else {
        match action {
            Action::Quit => post == (App { should_quit: true, ..pre }),
            Action::ToggleHelp => post == (App { show_help: true, ..pre }),
            Action::Back => back_transition(pre, post),
            Action::Confirm => confirm_transition(pre, post),
            Action::MoveUp => move_up_transition(pre, post),
            Action::MoveDown => move_down_transition(pre, post),
            Action::ToggleStep => toggle_transition(pre, post),
        }
    }
}

/// What `go_back` does, screen by screen.
pub open spec fn back_transition(pre: App, post: App) -> bool {
    match pre.current_view {
        View::RouteSelection => post == pre,
        View::RouteDetails { route_idx: _ } => {
            &&& post.current_view == View::RouteSelection
            &&& post.display_rows@ == Seq::<DisplayRow>::empty()
            &&& post.step_selected is None
            &&& post.game_data == pre.game_data
            &&& post.route_selected == pre.route_selected
            &&& post.should_quit == pre.should_quit
            &&& post.show_help == pre.show_help
        },
        View::StepDetails { route_idx, chapter_idx: _, step_idx: _ } => {
            &&& post.current_view == View::RouteDetails { route_idx }
            &&& post.step_selected is None
            &&& post.game_data == pre.game_data
            &&& post.display_rows == pre.display_rows
            &&& post.route_selected == pre.route_selected
            &&& post.should_quit == pre.should_quit
            &&& post.show_help == pre.show_help
        },
    }
}

/// What `move_up` does, screen by screen.
pub open spec fn move_up_transition(pre: App, post: App) -> bool {
    match pre.current_view {
        View::RouteSelection => {
            let cur = cursor_or_zero(pre.route_selected);
            &&& post.route_selected == (if cur > 0 {
                Some((cur - 1) as usize)
            } else {
                pre.route_selected
            })
            &&& post.game_data == pre.game_data
            &&& post.current_view == pre.current_view
            &&& post.step_selected == pre.step_selected
            &&& post.should_quit == pre.should_quit
            &&& post.show_help == pre.show_help
            &&& post.display_rows == pre.display_rows
        },
        View::RouteDetails { route_idx: _ } => {
            &&& post.step_selected == move_up_target(pre.display_rows@, pre.step_selected)
            &&& post.game_data == pre.game_data
            &&& post.current_view == pre.current_view
            &&& post.route_selected == pre.route_selected
            &&& post.should_quit == pre.should_quit
            &&& post.show_help == pre.show_help
            &&& post.display_rows == pre.display_rows
        },
        View::StepDetails { .. } => post == pre,
    }
}

/// What `move_down` does, screen by screen.
pub open spec fn move_down_transition(pre: App, post: App) -> bool {
    match pre.current_view {
        View::RouteSelection => {
            let cur = cursor_or_zero(pre.route_selected);
            let count = pre.game_data@.routes.len() as int;
            &&& post.route_selected == (if cur < count - 1 {
                Some((cur + 1) as usize)
            } else {
                pre.route_selected
            })
            &&& post.game_data == pre.game_data
            &&& post.current_view == pre.current_view
            &&& post.step_selected == pre.step_selected
            &&& post.should_quit == pre.should_quit
            &&& post.show_help == pre.show_help
            &&& post.display_rows == pre.display_rows
        },
        View::RouteDetails { route_idx: _ } => {
            &&& post.step_selected == move_down_target(pre.display_rows@, pre.step_selected)
            &&& post.game_data == pre.game_data
            &&& post.current_view == pre.current_view
            &&& post.route_selected == pre.route_selected
            &&& post.should_quit == pre.should_quit
            &&& post.show_help == pre.show_help
            &&& post.display_rows == pre.display_rows
        },
        View::StepDetails { .. } => post == pre,
    }
}

} // verus!
