use route_guide::models::{Chapter, GameData, Route, Step, StepType};

fn step(id: &str, completed: bool) -> Step {
    Step {
        id: id.to_string(),
        description: format!("step {}", id),
        step_type: StepType::GeneralInstruction { instruction: "do it".to_string() },
        completed,
    }
}

fn chapter(number: u32, steps: Vec<Step>) -> Chapter {
    Chapter { number, name: format!("Chapter {}", number), steps }
}

fn route(name: &str, prerequisites: Vec<&str>, chapters: Vec<Chapter>) -> Route {
    Route {
        name: name.to_string(),
        description: format!("route {}", name),
        chapters,
        prerequisites: prerequisites.into_iter().map(|p| p.to_string()).collect(),
    }
}

fn store_with(routes: Vec<Route>) -> GameData {
    let mut gd = GameData::new();
    gd.routes = routes;
    gd
}

#[test]
fn percentage_zero_when_nothing_completed() {
    let gd = store_with(vec![route(
        "A",
        vec![],
        vec![chapter(1, vec![step("a1", false), step("a2", false)])],
    )]);
    assert_eq!(gd.get_completion_percentage(0), 0);
}

#[test]
fn percentage_hundred_when_all_completed() {
    let gd = store_with(vec![route(
        "A",
        vec![],
        vec![
            chapter(1, vec![step("a1", true)]),
            chapter(2, vec![step("a2", true), step("a3", true)]),
        ],
    )]);
    assert_eq!(gd.get_completion_percentage(0), 100);
}

#[test]
fn percentage_rounds_down() {
    let gd = store_with(vec![route(
        "A",
        vec![],
        vec![chapter(1, vec![step("a1", true), step("a2", false), step("a3", false)])],
    )]);
    // 1 of 3 steps: 100 / 3 rounded down.
    assert_eq!(gd.get_completion_percentage(0), 33);
}

#[test]
fn percentage_zero_for_route_without_steps() {
    let gd = store_with(vec![route("A", vec![], vec![])]);
    assert_eq!(gd.get_completion_percentage(0), 0);
}

#[test]
fn percentage_zero_for_out_of_range_index() {
    let gd = store_with(vec![route("A", vec![], vec![chapter(1, vec![step("a1", true)])])]);
    assert_eq!(gd.get_completion_percentage(5), 0);
}

#[test]
fn mark_step_updates_mapping_and_active_route_cache() {
    let mut gd = store_with(vec![route(
        "A",
        vec![],
        vec![chapter(1, vec![step("a1", false), step("a2", false)])],
    )]);
    gd.current_route = Some(0);
    gd.mark_step_completed("a2", true);
    assert!(gd.routes[0].chapters[0].steps[1].completed);
    assert!(!gd.routes[0].chapters[0].steps[0].completed);
    assert_eq!(gd.progress.get("a2"), Some(true));
    assert_eq!(gd.progress.get("a1"), None);
}

#[test]
fn mark_step_without_active_route_touches_only_mapping() {
    let mut gd = store_with(vec![route(
        "A",
        vec![],
        vec![chapter(1, vec![step("a1", false)])],
    )]);
    gd.mark_step_completed("a1", true);
    assert!(!gd.routes[0].chapters[0].steps[0].completed);
    assert_eq!(gd.progress.get("a1"), Some(true));
}

#[test]
fn mark_step_does_not_search_inactive_routes() {
    let mut gd = store_with(vec![
        route("A", vec![], vec![chapter(1, vec![step("a1", false)])]),
        route("B", vec![], vec![chapter(1, vec![step("b1", false)])]),
    ]);
    gd.current_route = Some(0);
    gd.mark_step_completed("b1", true);
    assert!(!gd.routes[1].chapters[0].steps[0].completed);
    assert_eq!(gd.progress.get("b1"), Some(true));
}

#[test]
fn mark_step_is_idempotent() {
    let mut gd = store_with(vec![route(
        "A",
        vec![],
        vec![chapter(1, vec![step("a1", false)])],
    )]);
    gd.current_route = Some(0);
    gd.mark_step_completed("a1", true);
    gd.mark_step_completed("a1", true);
    assert!(gd.routes[0].chapters[0].steps[0].completed);
    assert_eq!(gd.progress.get("a1"), Some(true));
}

#[test]
fn route_without_prerequisites_is_unlocked() {
    let gd = store_with(vec![route("A", vec![], vec![chapter(1, vec![step("a1", false)])])]);
    assert!(gd.is_route_unlocked(0));
}

#[test]
fn prerequisite_gating_scenario() {
    // A route "A" with prerequisite "B": locked while B sits at 0%,
    // unlocked once every step of B is completed.
    let mut gd = store_with(vec![
        route("B", vec![], vec![chapter(1, vec![step("b1", false), step("b2", false)])]),
        route("A", vec!["B"], vec![chapter(1, vec![step("a1", false)])]),
    ]);
    assert_eq!(gd.get_completion_percentage(0), 0);
    assert!(!gd.is_route_unlocked(1));
    gd.current_route = Some(0);
    gd.mark_step_completed("b1", true);
    assert!(!gd.is_route_unlocked(1));
    gd.mark_step_completed("b2", true);
    assert_eq!(gd.get_completion_percentage(0), 100);
    assert!(gd.is_route_unlocked(1));
}

#[test]
fn unmatched_prerequisite_name_keeps_route_locked() {
    let gd = store_with(vec![route(
        "A",
        vec!["No Such Route"],
        vec![chapter(1, vec![step("a1", true)])],
    )]);
    assert!(!gd.is_route_unlocked(0));
}

#[test]
fn prerequisite_route_without_steps_never_satisfies() {
    // The prerequisite exists but has no steps, so it never reaches 100%.
    let gd = store_with(vec![
        route("B", vec![], vec![]),
        route("A", vec!["B"], vec![chapter(1, vec![step("a1", false)])]),
    ]);
    assert!(!gd.is_route_unlocked(1));
}

#[test]
fn unlock_is_stable_while_prerequisites_stay_complete() {
    // Once B reaches 100%, toggling steps elsewhere never locks A again.
    let mut gd = store_with(vec![
        route("B", vec![], vec![chapter(1, vec![step("b1", false)])]),
        route("A", vec!["B"], vec![chapter(1, vec![step("a1", false), step("a2", false)])]),
    ]);
    gd.current_route = Some(0);
    gd.mark_step_completed("b1", true);
    assert!(gd.is_route_unlocked(1));
    gd.current_route = Some(1);
    gd.mark_step_completed("a1", true);
    assert!(gd.is_route_unlocked(1));
    gd.mark_step_completed("a1", false);
    assert!(gd.is_route_unlocked(1));
}

#[test]
fn progress_map_overwrites_earlier_record() {
    let mut gd = GameData::new();
    gd.mark_step_completed("x", true);
    gd.mark_step_completed("x", false);
    assert_eq!(gd.progress.get("x"), Some(false));
    assert_eq!(gd.progress.get("y"), None);
}
