use route_guide::data::create_chaos_head_data;
use route_guide::models::GameData;
use route_guide::nav::{App, DisplayRow, View};
use route_guide::titles::{TitleAction, TitleCatalog, valid_titles};

fn full_store() -> GameData {
    let mut gd = GameData::new();
    gd.routes = create_chaos_head_data();
    gd
}

#[test]
fn dataset_has_nine_routes_in_display_order() {
    let routes = create_chaos_head_data();
    let names: Vec<&str> = routes.iter().map(|r| r.name.as_str()).collect();
    assert_eq!(
        names,
        vec![
            "Silent Sky",
            "Crying Sky",
            "Daydream",
            "Moon and Sun",
            "A Bloody Contract for Your Sins",
            "A Disease that Leads to Slaughter",
            "Deus Ex Machina",
            "Anima Archetype",
            "Blue Sky",
        ]
    );
}

#[test]
fn dataset_step_totals() {
    let routes = create_chaos_head_data();
    let totals: Vec<usize> = routes
        .iter()
        .map(|r| r.chapters.iter().map(|c| c.steps.len()).sum())
        .collect();
    assert_eq!(totals, vec![6, 5, 4, 3, 5, 7, 6, 3, 3]);
}

#[test]
fn dataset_starts_fresh_and_locked_past_the_first_route() {
    let gd = full_store();
    for (i, r) in gd.routes.iter().enumerate() {
        for c in &r.chapters {
            for s in &c.steps {
                assert!(!s.completed, "step {} starts completed", s.id);
            }
        }
        assert_eq!(gd.get_completion_percentage(i), 0);
    }
    // Only the prerequisite-free first route is unlocked at the start.
    assert!(gd.is_route_unlocked(0));
    for i in 1..gd.routes.len() {
        assert!(!gd.is_route_unlocked(i), "route {} unlocked too early", i);
    }
}

#[test]
fn dataset_step_ids_are_unique() {
    let routes = create_chaos_head_data();
    let mut ids: Vec<String> = routes
        .iter()
        .flat_map(|r| r.chapters.iter())
        .flat_map(|c| c.steps.iter())
        .map(|s| s.id.clone())
        .collect();
    let count = ids.len();
    ids.sort();
    ids.dedup();
    assert_eq!(ids.len(), count);
}

#[test]
fn dataset_prerequisites_resolve() {
    let routes = create_chaos_head_data();
    let names: Vec<String> = routes.iter().map(|r| r.name.clone()).collect();
    for r in &routes {
        for p in &r.prerequisites {
            assert!(names.contains(p), "unmatched prerequisite {}", p);
        }
    }
}

#[test]
fn completing_earlier_routes_unlocks_later_ones() {
    let mut gd = full_store();
    let complete_route = |gd: &mut GameData, idx: usize| {
        gd.current_route = Some(idx);
        let ids: Vec<String> = gd.routes[idx]
            .chapters
            .iter()
            .flat_map(|c| c.steps.iter())
            .map(|s| s.id.clone())
            .collect();
        for id in ids {
            gd.mark_step_completed(&id, true);
        }
    };
    complete_route(&mut gd, 0);
    assert_eq!(gd.get_completion_percentage(0), 100);
    assert!(gd.is_route_unlocked(1), "Crying Sky should unlock after Silent Sky");
    assert!(!gd.is_route_unlocked(8), "Blue Sky needs every other route");
    for i in 1..8 {
        complete_route(&mut gd, i);
    }
    assert!(gd.is_route_unlocked(8));
}

#[test]
fn opening_the_first_route_builds_its_display_list() {
    let mut gd = full_store();
    gd.current_route = None;
    let mut app = App::new(gd);
    app.select_current();
    assert!(matches!(app.current_view, View::RouteDetails { route_idx: 0 }));
    // Silent Sky: four chapters and six steps, one row each.
    assert_eq!(app.display_rows.len(), 10);
    assert!(matches!(app.display_rows[0], DisplayRow::Header { chapter_idx: 0 }));
    assert_eq!(app.step_selected, Some(1));
}

#[test]
fn title_lookup_launches_the_browsable_guide() {
    let catalog = valid_titles();
    assert!(matches!(catalog.resolve_title("chaos_head"), TitleAction::LaunchGuide));
}

#[test]
fn title_lookup_reports_known_titles_without_a_guide() {
    let catalog = valid_titles();
    match catalog.resolve_title("steins_gate") {
        TitleAction::KnownNotImplemented { label } => assert_eq!(label, "steins_gate"),
        other => panic!("unexpected action: {:?}", other),
    }
}

#[test]
fn title_lookup_rejects_unknown_titles() {
    let catalog = valid_titles();
    assert!(matches!(catalog.resolve_title("ever17"), TitleAction::Unknown));
}

#[test]
fn title_lookup_uses_the_stylised_label_when_one_exists() {
    // A catalog entry with a stylised name that is not the browsable key
    // reports that name instead of the query.
    let catalog = TitleCatalog {
        entries: vec![("steins_gate".to_string(), Some("Steins;Gate".to_string()))],
    };
    match catalog.resolve_title("steins_gate") {
        TitleAction::KnownNotImplemented { label } => assert_eq!(label, "Steins;Gate"),
        other => panic!("unexpected action: {:?}", other),
    }
}
