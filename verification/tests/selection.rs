use histsel::App;
use histsel::NavCommand;
use histsel::SessionState;

fn sample_commands() -> Vec<String> {
    vec![
        "ls".to_string(),
        "cd /tmp".to_string(),
        "git status".to_string(),
        "echo hi".to_string(),
        "vim file".to_string(),
    ]
}

fn selected_of(app: &App) -> usize {
    // The highlighted row of a one-line window is the cursor's row; its age
    // is len - index, so the index is recoverable from any window.
    let rows = app.visible_window(1);
    assert_eq!(rows.len(), 1);
    assert!(rows[0].highlighted);
    5 - rows[0].age
}

#[test]
fn new_starts_on_newest() {
    let app = App::new(sample_commands());
    assert_eq!(selected_of(&app), 4);
    assert_eq!(app.confirm(), "vim file");
}

#[test]
fn new_single_entry() {
    let app = App::new(vec!["only".to_string()]);
    assert_eq!(app.confirm(), "only");
    let rows = app.visible_window(10);
    assert_eq!(rows.len(), 1);
    assert_eq!(rows[0].age, 1);
    assert!(rows[0].highlighted);
}

#[test]
fn scenario_move_up_twice_and_confirm() {
    let mut app = App::new(sample_commands());
    app.move_up();
    app.move_up();
    let rows = app.visible_window(3);
    assert_eq!(rows.len(), 3);
    let ages: Vec<usize> = rows.iter().map(|r| r.age).collect();
    assert_eq!(ages, vec![5, 4, 3]);
    let texts: Vec<&str> = rows.iter().map(|r| r.text.as_str()).collect();
    assert_eq!(texts, vec!["ls", "cd /tmp", "git status"]);
    assert!(!rows[0].highlighted);
    assert!(!rows[1].highlighted);
    assert!(rows[2].highlighted);
    assert_eq!(app.confirm(), "git status");
}

#[test]
fn scenario_page_up_leaves_context_line() {
    let mut app = App::new(sample_commands());
    app.page_up(3);
    assert_eq!(selected_of(&app), 3);
}

#[test]
fn move_round_trip_from_interior() {
    let mut app = App::new(sample_commands());
    app.move_up();
    app.move_up();
    assert_eq!(selected_of(&app), 2);
    app.move_down();
    app.move_up();
    assert_eq!(selected_of(&app), 2);
    app.move_up();
    app.move_down();
    assert_eq!(selected_of(&app), 2);
}

#[test]
fn moves_are_no_ops_at_boundaries() {
    let mut app = App::new(sample_commands());
    app.move_down();
    assert_eq!(selected_of(&app), 4);
    app.jump_to_oldest();
    app.move_up();
    assert_eq!(selected_of(&app), 0);
}

#[test]
fn jump_round_trips() {
    let mut app = App::new(sample_commands());
    app.jump_to_newest();
    app.jump_to_oldest();
    assert_eq!(selected_of(&app), 0);
    app.jump_to_oldest();
    app.jump_to_newest();
    assert_eq!(selected_of(&app), 4);
}

#[test]
fn page_moves_stay_in_range() {
    let mut app = App::new(sample_commands());
    app.page_down(1000);
    assert_eq!(selected_of(&app), 4);
    app.page_up(1000);
    assert_eq!(selected_of(&app), 0);
    app.page_down(usize::MAX);
    assert_eq!(selected_of(&app), 4);
    app.page_up(usize::MAX);
    assert_eq!(selected_of(&app), 0);
}

#[test]
fn tiny_viewport_page_moves_nothing() {
    let mut app = App::new(sample_commands());
    app.move_up();
    app.page_up(0);
    assert_eq!(selected_of(&app), 3);
    app.page_up(1);
    assert_eq!(selected_of(&app), 3);
    app.page_down(2);
    assert_eq!(selected_of(&app), 3);
    app.page_down(3);
    assert_eq!(selected_of(&app), 4);
}

#[test]
fn window_is_clamped_to_short_lists() {
    let app = App::new(sample_commands());
    let rows = app.visible_window(9);
    assert_eq!(rows.len(), 5);
    let ages: Vec<usize> = rows.iter().map(|r| r.age).collect();
    assert_eq!(ages, vec![5, 4, 3, 2, 1]);
    assert!(rows[4].highlighted);
}

#[test]
fn window_follows_cursor_near_the_end() {
    let mut app = App::new(sample_commands());
    let rows = app.visible_window(3);
    let texts: Vec<&str> = rows.iter().map(|r| r.text.as_str()).collect();
    assert_eq!(texts, vec!["git status", "echo hi", "vim file"]);
    assert!(rows[2].highlighted);
    app.jump_to_oldest();
    let rows = app.visible_window(3);
    let texts: Vec<&str> = rows.iter().map(|r| r.text.as_str()).collect();
    assert_eq!(texts, vec!["ls", "cd /tmp", "git status"]);
    assert!(rows[0].highlighted);
}

#[test]
fn step_dispatches_navigation() {
    let mut app = App::new(sample_commands());
    assert!(matches!(app.step(NavCommand::Up, 3), SessionState::Running));
    assert_eq!(selected_of(&app), 3);
    assert!(matches!(app.step(NavCommand::Down, 3), SessionState::Running));
    assert_eq!(selected_of(&app), 4);
    assert!(matches!(app.step(NavCommand::PageUp, 3), SessionState::Running));
    assert_eq!(selected_of(&app), 3);
    assert!(matches!(app.step(NavCommand::PageDown, 3), SessionState::Running));
    assert_eq!(selected_of(&app), 4);
    assert!(matches!(app.step(NavCommand::First, 3), SessionState::Running));
    assert_eq!(selected_of(&app), 0);
    assert!(matches!(app.step(NavCommand::Last, 3), SessionState::Running));
    assert_eq!(selected_of(&app), 4);
}

#[test]
fn step_confirm_hands_out_highlighted_command() {
    let mut app = App::new(sample_commands());
    app.move_up();
    match app.step(NavCommand::Confirm, 3) {
        SessionState::Confirmed(s) => assert_eq!(s, "echo hi"),
        _ => panic!("confirm must end the session with the selection"),
    }
}

#[test]
fn scenario_quit_selects_nothing() {
    let mut app = App::new(sample_commands());
    app.move_up();
    assert!(matches!(app.step(NavCommand::Quit, 3), SessionState::Quit));
    app.jump_to_oldest();
    assert!(matches!(app.step(NavCommand::Quit, 1), SessionState::Quit));
}

#[test]
fn step_ignores_unrecognized_commands() {
    let mut app = App::new(sample_commands());
    app.move_up();
    assert!(matches!(app.step(NavCommand::Other, 3), SessionState::Running));
    assert_eq!(selected_of(&app), 3);
}
