use lazynginx::app::App;
use lazynginx::systemctl::SystemctlCommand;
use lazynginx::tabs::{get_current_screen, screen_at, Screen};
use lazynginx::version::NginxVersion;

fn fresh() -> App {
    App::new(String::from("active"), Some(NginxVersion { major: 1, minor: 18, patch: 0 }))
}

#[test]
fn starts_running_on_first_tab_with_cursors_at_zero() {
    let app = fresh();
    assert!(app.running());
    assert_eq!(app.tab_index(), 0);
    assert_eq!(app.horizontal_position(), 0);
    assert_eq!(app.vertical_position(), 0);
    assert_eq!(app.selected_command_index(), 0);
    assert_eq!(app.selected_log_index(), 0);
    assert_eq!(app.status().as_str(), "active");
    assert_eq!(app.nginx_version(), Some(NginxVersion { major: 1, minor: 18, patch: 0 }));
    assert_eq!(app.titles(), &vec!["Status", "Config", "Logs", "Templates"]);
}

#[test]
fn tick_changes_nothing() {
    let app = fresh();
    app.tick();
    assert!(app.running());
    assert_eq!(app.tab_index(), 0);
    assert_eq!(app.selected_command_index(), 0);
}

#[test]
fn quit_stops_the_dashboard() {
    let mut app = fresh();
    app.quit();
    assert!(!app.running());
    assert_eq!(app.tab_index(), 0);
}

#[test]
fn next_tab_goes_through_all_tabs_and_back() {
    let mut app = fresh();
    let mut seen = Vec::new();
    for _ in 0..4 {
        app.increment_horizontal();
        assert!(app.tab_index() < 4);
        seen.push(app.tab_index());
    }
    assert_eq!(seen, vec![1, 2, 3, 0]);
}

#[test]
fn tab_round_trip_from_every_tab() {
    for start in 0..4 {
        let mut app = fresh();
        for _ in 0..start {
            app.increment_horizontal();
        }
        assert_eq!(app.tab_index(), start);
        for _ in 0..4 {
            app.increment_horizontal();
        }
        assert_eq!(app.tab_index(), start);
    }
}

#[test]
fn prev_tab_wraps_from_first_to_last() {
    let mut app = fresh();
    app.decrement_horizontal();
    assert_eq!(app.tab_index(), 3);
    app.decrement_horizontal();
    assert_eq!(app.tab_index(), 2);
    app.decrement_horizontal();
    assert_eq!(app.tab_index(), 1);
    app.decrement_horizontal();
    assert_eq!(app.tab_index(), 0);
}

#[test]
fn prev_tab_undoes_next_tab() {
    let mut app = fresh();
    app.increment_horizontal();
    app.increment_horizontal();
    app.decrement_horizontal();
    assert_eq!(app.tab_index(), 1);
}

#[test]
fn command_cursor_cycles_through_seven_rows() {
    let mut app = fresh();
    let mut seen = Vec::new();
    for _ in 0..7 {
        app.increment_selection();
        seen.push(app.selected_command_index());
    }
    assert_eq!(seen, vec![1, 2, 3, 4, 5, 6, 0]);
}

#[test]
fn command_cursor_wraps_backward_from_first_to_last() {
    let mut app = fresh();
    app.decrement_selection();
    assert_eq!(app.selected_command_index(), 6);
    app.decrement_selection();
    assert_eq!(app.selected_command_index(), 5);
    app.increment_selection();
    app.increment_selection();
    assert_eq!(app.selected_command_index(), 0);
}

#[test]
fn log_cursor_toggles_between_two_rows() {
    let mut app = fresh();
    app.increment_horizontal();
    app.increment_horizontal();
    assert_eq!(get_current_screen(&app), Screen::Logs);
    assert_eq!(app.selected_log_index(), 0);
    app.increment_selection();
    assert_eq!(app.selected_log_index(), 1);
    app.increment_selection();
    assert_eq!(app.selected_log_index(), 0);
    app.decrement_selection();
    assert_eq!(app.selected_log_index(), 1);
    app.decrement_selection();
    assert_eq!(app.selected_log_index(), 0);
}

#[test]
fn config_and_templates_tabs_have_no_list() {
    let mut app = fresh();
    app.increment_selection();
    app.increment_horizontal();
    assert_eq!(get_current_screen(&app), Screen::Config);
    app.increment_selection();
    app.decrement_selection();
    app.decrement_selection();
    assert_eq!(app.selected_command_index(), 1);
    assert_eq!(app.selected_log_index(), 0);
    app.increment_horizontal();
    app.increment_horizontal();
    assert_eq!(get_current_screen(&app), Screen::Template);
    app.increment_selection();
    app.increment_selection();
    assert_eq!(app.selected_command_index(), 1);
    assert_eq!(app.selected_log_index(), 0);
}

#[test]
fn switching_tabs_keeps_each_cursor() {
    let mut app = fresh();
    app.increment_selection();
    app.increment_selection();
    app.increment_selection();
    app.increment_horizontal();
    app.increment_horizontal();
    app.increment_selection();
    assert_eq!(app.selected_command_index(), 3);
    assert_eq!(app.selected_log_index(), 1);
    app.decrement_horizontal();
    app.decrement_horizontal();
    assert_eq!(app.tab_index(), 0);
    assert_eq!(app.selected_command_index(), 3);
    assert_eq!(app.selected_log_index(), 1);
    app.increment_selection();
    assert_eq!(app.selected_command_index(), 4);
    assert_eq!(app.selected_log_index(), 1);
}

#[test]
fn selected_command_follows_the_row() {
    let expected = [
        SystemctlCommand::Start,
        SystemctlCommand::Stop,
        SystemctlCommand::Restart,
        SystemctlCommand::Reload,
        SystemctlCommand::Status,
        SystemctlCommand::Enable,
        SystemctlCommand::Disable,
    ];
    let mut app = fresh();
    for (row, command) in expected.iter().enumerate() {
        assert_eq!(app.selected_command_index(), row);
        assert_eq!(app.selected_command(), *command);
        app.increment_selection();
    }
    assert_eq!(app.selected_command(), SystemctlCommand::Start);
}

#[test]
fn vertical_position_stops_at_both_ends() {
    let mut app = fresh();
    app.decrement_vertical();
    assert_eq!(app.vertical_position(), 0);
    app.increment_vertical();
    app.increment_vertical();
    assert_eq!(app.vertical_position(), 2);
    app.decrement_vertical();
    assert_eq!(app.vertical_position(), 1);
    for _ in 0..300 {
        app.increment_vertical();
    }
    assert_eq!(app.vertical_position(), 255);
}

#[test]
fn set_status_replaces_the_status_alone() {
    let mut app = fresh();
    app.increment_selection();
    app.set_status(String::from("inactive"));
    assert_eq!(app.status().as_str(), "inactive");
    assert_eq!(app.selected_command_index(), 1);
    assert!(app.running());
}

#[test]
fn screens_by_tab_index() {
    assert_eq!(screen_at(0), Screen::Status);
    assert_eq!(screen_at(1), Screen::Config);
    assert_eq!(screen_at(2), Screen::Logs);
    assert_eq!(screen_at(3), Screen::Template);
    assert_eq!(screen_at(4), Screen::Unknown);
    assert_eq!(screen_at(usize::MAX), Screen::Unknown);
}
