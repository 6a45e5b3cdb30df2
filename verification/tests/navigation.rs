use route_guide::models::{Chapter, GameData, Route, Step, StepType};
use route_guide::nav::{Action, App, DisplayRow, View};

fn step(id: &str) -> Step {
    Step {
        id: id.to_string(),
        description: format!("step {}", id),
        step_type: StepType::GeneralInstruction { instruction: "do it".to_string() },
        completed: false,
    }
}

fn chapter(number: u32, steps: Vec<Step>) -> Chapter {
    Chapter { number, name: format!("Chapter {}", number), steps }
}

fn route(name: &str, chapters: Vec<Chapter>) -> Route {
    Route {
        name: name.to_string(),
        description: format!("route {}", name),
        chapters,
        prerequisites: Vec::new(),
    }
}

fn app_with(routes: Vec<Route>) -> App {
    let mut gd = GameData::new();
    gd.routes = routes;
    App::new(gd)
}

fn selectable_rows(app: &App) -> Vec<usize> {
    app.display_rows
        .iter()
        .enumerate()
        .filter(|(_, row)| matches!(row, DisplayRow::Selectable { .. }))
        .map(|(i, _)| i)
        .collect()
}

#[test]
fn new_app_starts_on_route_list_with_first_entry_selected() {
    let app = app_with(vec![route("A", vec![])]);
    assert!(matches!(app.current_view, View::RouteSelection));
    assert_eq!(app.route_selected, Some(0));
    assert_eq!(app.step_selected, None);
    assert!(!app.should_quit);
    assert!(!app.show_help);
    assert!(app.display_rows.is_empty());
}

#[test]
fn display_mapping_scenario_header_header_step_step() {
    // Chapters [ {0 steps}, {2 steps} ]: four rows — header, header, step,
    // step — and a cursor on row 0 moving down lands on row 2, not row 1.
    let mut app = app_with(vec![route(
        "A",
        vec![chapter(1, vec![]), chapter(2, vec![step("s1"), step("s2")])],
    )]);
    app.select_current();
    assert!(matches!(app.current_view, View::RouteDetails { route_idx: 0 }));
    assert_eq!(app.display_rows.len(), 4);
    assert!(matches!(app.display_rows[0], DisplayRow::Header { chapter_idx: 0 }));
    assert!(matches!(app.display_rows[1], DisplayRow::Header { chapter_idx: 1 }));
    assert!(matches!(
        app.display_rows[2],
        DisplayRow::Selectable { chapter_idx: 1, step_idx: 0 }
    ));
    assert!(matches!(
        app.display_rows[3],
        DisplayRow::Selectable { chapter_idx: 1, step_idx: 1 }
    ));
    // Opening already put the cursor on the first selectable row.
    assert_eq!(app.step_selected, Some(2));
    // From row 0, moving down skips the adjacent header.
    app.step_selected = Some(0);
    app.move_down();
    assert_eq!(app.step_selected, Some(2));
}

#[test]
fn display_mapping_round_trip_points_at_real_steps() {
    let mut app = app_with(vec![route(
        "A",
        vec![
            chapter(1, vec![step("a"), step("b")]),
            chapter(2, vec![]),
            chapter(3, vec![step("c")]),
        ],
    )]);
    app.select_current();
    for i in selectable_rows(&app) {
        match app.display_rows[i] {
            DisplayRow::Selectable { chapter_idx, step_idx } => {
                let chapters = &app.game_data.routes[0].chapters;
                assert!(chapter_idx < chapters.len());
                assert!(step_idx < chapters[chapter_idx].steps.len());
            }
            DisplayRow::Header { .. } => unreachable!(),
        }
    }
}

#[test]
fn move_down_wraps_back_to_start_after_one_full_cycle() {
    let mut app = app_with(vec![route(
        "A",
        vec![
            chapter(1, vec![step("a"), step("b")]),
            chapter(2, vec![]),
            chapter(3, vec![step("c"), step("d")]),
        ],
    )]);
    app.select_current();
    let selectables = selectable_rows(&app);
    // From each selectable row, N repetitions of move_down return to it.
    for &start in &selectables {
        app.step_selected = Some(start);
        for _ in 0..selectables.len() {
            app.move_down();
        }
        assert_eq!(app.step_selected, Some(start));
    }
}

#[test]
fn move_up_and_down_skip_headers() {
    let mut app = app_with(vec![route(
        "A",
        vec![chapter(1, vec![step("a")]), chapter(2, vec![step("b")])],
    )]);
    app.select_current();
    // Rows: H S H S; the cursor starts on row 1.
    assert_eq!(app.step_selected, Some(1));
    app.move_down();
    assert_eq!(app.step_selected, Some(3));
    app.move_up();
    assert_eq!(app.step_selected, Some(1));
    // Moving up from the topmost selectable row wraps to the bottom one.
    app.move_up();
    assert_eq!(app.step_selected, Some(3));
    app.move_up();
    assert_eq!(app.step_selected, Some(1));
    // Moving down past the end wraps to the first selectable row.
    app.move_down();
    app.move_down();
    assert_eq!(app.step_selected, Some(1));
}

#[test]
fn moves_on_route_without_steps_leave_cursor_unselected() {
    let mut app = app_with(vec![route("A", vec![chapter(1, vec![]), chapter(2, vec![])])]);
    app.select_current();
    assert!(matches!(app.current_view, View::RouteDetails { route_idx: 0 }));
    assert_eq!(app.display_rows.len(), 2);
    assert_eq!(app.step_selected, None);
    app.move_down();
    assert_eq!(app.step_selected, None);
    app.move_up();
    assert_eq!(app.step_selected, None);
}

#[test]
fn route_list_cursor_clamps_without_wrapping() {
    let mut app = app_with(vec![
        route("A", vec![]),
        route("B", vec![]),
        route("C", vec![]),
    ]);
    app.move_up();
    assert_eq!(app.route_selected, Some(0));
    app.move_down();
    app.move_down();
    assert_eq!(app.route_selected, Some(2));
    app.move_down();
    assert_eq!(app.route_selected, Some(2));
    app.move_up();
    assert_eq!(app.route_selected, Some(1));
}

#[test]
fn confirm_on_separator_row_does_not_open_step_details() {
    let mut app = app_with(vec![route("A", vec![chapter(1, vec![step("a")])])]);
    app.select_current();
    app.step_selected = Some(0);
    app.select_current();
    assert!(matches!(app.current_view, View::RouteDetails { route_idx: 0 }));
}

#[test]
fn confirm_opens_step_details_and_back_returns() {
    let mut app = app_with(vec![route(
        "A",
        vec![chapter(1, vec![step("a"), step("b")])],
    )]);
    app.select_current();
    app.move_down();
    assert_eq!(app.step_selected, Some(2));
    app.select_current();
    assert!(matches!(
        app.current_view,
        View::StepDetails { route_idx: 0, chapter_idx: 0, step_idx: 1 }
    ));
    app.go_back();
    assert!(matches!(app.current_view, View::RouteDetails { route_idx: 0 }));
    assert_eq!(app.step_selected, None);
    app.go_back();
    assert!(matches!(app.current_view, View::RouteSelection));
    assert!(app.display_rows.is_empty());
}

#[test]
fn back_from_route_details_discards_mapping_and_cursor() {
    let mut app = app_with(vec![route("A", vec![chapter(1, vec![step("a")])])]);
    app.select_current();
    assert_eq!(app.step_selected, Some(1));
    app.go_back();
    assert!(matches!(app.current_view, View::RouteSelection));
    assert!(app.display_rows.is_empty());
    assert_eq!(app.step_selected, None);
}

#[test]
fn confirm_with_out_of_range_route_cursor_is_a_no_op() {
    let mut app = app_with(vec![]);
    // The fresh cursor points at entry 0 of an empty list.
    app.select_current();
    assert!(matches!(app.current_view, View::RouteSelection));
    assert_eq!(app.game_data.current_route, None);
}

#[test]
fn opening_a_route_marks_it_active() {
    let mut app = app_with(vec![route("A", vec![]), route("B", vec![])]);
    app.move_down();
    app.select_current();
    assert!(matches!(app.current_view, View::RouteDetails { route_idx: 1 }));
    assert_eq!(app.game_data.current_route, Some(1));
}

#[test]
fn toggle_twice_restores_flag_and_keeps_mapping_consistent() {
    let mut app = app_with(vec![route(
        "A",
        vec![chapter(1, vec![step("a"), step("b")])],
    )]);
    app.select_current();
    // Cursor sits on the first step.
    app.toggle_step_completion();
    assert!(app.game_data.routes[0].chapters[0].steps[0].completed);
    assert_eq!(app.game_data.progress.get("a"), Some(true));
    app.toggle_step_completion();
    assert!(!app.game_data.routes[0].chapters[0].steps[0].completed);
    assert_eq!(app.game_data.progress.get("a"), Some(false));
    // The untouched step never entered the mapping.
    assert_eq!(app.game_data.progress.get("b"), None);
}

#[test]
fn toggle_on_separator_row_changes_nothing() {
    let mut app = app_with(vec![route("A", vec![chapter(1, vec![step("a")])])]);
    app.select_current();
    app.step_selected = Some(0);
    app.toggle_step_completion();
    assert!(!app.game_data.routes[0].chapters[0].steps[0].completed);
    assert_eq!(app.game_data.progress.get("a"), None);
}

#[test]
fn help_overlay_captures_all_other_actions() {
    let mut app = app_with(vec![route("A", vec![chapter(1, vec![step("a")])])]);
    app.handle_action(Action::ToggleHelp);
    assert!(app.show_help);
    // While the overlay is open, quit and navigation do nothing.
    app.handle_action(Action::Quit);
    assert!(!app.should_quit);
    app.handle_action(Action::Confirm);
    assert!(matches!(app.current_view, View::RouteSelection));
    app.handle_action(Action::MoveDown);
    assert_eq!(app.route_selected, Some(0));
    // Back closes the overlay instead of leaving the screen.
    app.handle_action(Action::Back);
    assert!(!app.show_help);
    assert!(matches!(app.current_view, View::RouteSelection));
}

#[test]
fn quit_action_sets_termination_flag() {
    let mut app = app_with(vec![]);
    app.handle_action(Action::Quit);
    assert!(app.should_quit);
}

#[test]
fn handle_action_drives_full_walkthrough() {
    let mut app = app_with(vec![route(
        "A",
        vec![chapter(1, vec![step("a"), step("b")])],
    )]);
    app.handle_action(Action::Confirm);
    app.handle_action(Action::ToggleStep);
    assert_eq!(app.game_data.progress.get("a"), Some(true));
    app.handle_action(Action::MoveDown);
    app.handle_action(Action::Confirm);
    assert!(matches!(
        app.current_view,
        View::StepDetails { route_idx: 0, chapter_idx: 0, step_idx: 1 }
    ));
    app.handle_action(Action::Back);
    app.handle_action(Action::Back);
    assert!(matches!(app.current_view, View::RouteSelection));
}
