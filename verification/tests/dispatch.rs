use lazynginx::app::App;
use lazynginx::gateway::{CommandOutput, LaunchFailure};
use lazynginx::handler::{complete_command, handle_key_events, Key, KeyAction, KeyPress};
use lazynginx::systemctl::SystemctlCommand;
use lazynginx::ui::{render, title, Body};
use lazynginx::version::NginxVersion;

fn fresh() -> App {
    App::new(String::from("active"), Some(NginxVersion { major: 1, minor: 18, patch: 0 }))
}

fn plain(key: Key) -> KeyPress {
    KeyPress { key, control: false }
}

fn with_control(key: Key) -> KeyPress {
    KeyPress { key, control: true }
}

#[test]
fn escape_and_q_quit() {
    let mut app = fresh();
    assert_eq!(handle_key_events(plain(Key::Esc), &mut app), KeyAction::Nothing);
    assert!(!app.running());
    let mut app = fresh();
    assert_eq!(handle_key_events(plain(Key::Char('q')), &mut app), KeyAction::Nothing);
    assert!(!app.running());
    let mut app = fresh();
    assert_eq!(handle_key_events(with_control(Key::Char('q')), &mut app), KeyAction::Nothing);
    assert!(!app.running());
}

#[test]
fn control_c_quits_in_either_case() {
    let mut app = fresh();
    assert_eq!(handle_key_events(with_control(Key::Char('c')), &mut app), KeyAction::Nothing);
    assert!(!app.running());
    let mut app = fresh();
    assert_eq!(handle_key_events(with_control(Key::Char('C')), &mut app), KeyAction::Nothing);
    assert!(!app.running());
}

#[test]
fn c_without_control_does_nothing() {
    let mut app = fresh();
    assert_eq!(handle_key_events(plain(Key::Char('c')), &mut app), KeyAction::Nothing);
    assert_eq!(handle_key_events(plain(Key::Char('C')), &mut app), KeyAction::Nothing);
    assert!(app.running());
}

#[test]
fn other_keys_do_nothing() {
    let mut app = fresh();
    for press in [
        plain(Key::Other),
        with_control(Key::Other),
        plain(Key::Char('x')),
        with_control(Key::Char('x')),
        plain(Key::Char('Q')),
    ] {
        assert_eq!(handle_key_events(press, &mut app), KeyAction::Nothing);
        assert!(app.running());
        assert_eq!(app.tab_index(), 0);
        assert_eq!(app.selected_command_index(), 0);
        assert_eq!(app.selected_log_index(), 0);
        assert_eq!(app.status().as_str(), "active");
    }
}

#[test]
fn arrows_move_tab_and_cursor() {
    let mut app = fresh();
    assert_eq!(handle_key_events(plain(Key::Down), &mut app), KeyAction::Nothing);
    assert_eq!(app.selected_command_index(), 1);
    assert_eq!(handle_key_events(plain(Key::Up), &mut app), KeyAction::Nothing);
    assert_eq!(handle_key_events(plain(Key::Up), &mut app), KeyAction::Nothing);
    assert_eq!(app.selected_command_index(), 6);
    assert_eq!(handle_key_events(plain(Key::Left), &mut app), KeyAction::Nothing);
    assert_eq!(app.tab_index(), 3);
    assert_eq!(handle_key_events(plain(Key::Right), &mut app), KeyAction::Nothing);
    assert_eq!(handle_key_events(plain(Key::Right), &mut app), KeyAction::Nothing);
    assert_eq!(app.tab_index(), 1);
    assert_eq!(handle_key_events(plain(Key::Right), &mut app), KeyAction::Nothing);
    assert_eq!(handle_key_events(plain(Key::Down), &mut app), KeyAction::Nothing);
    assert_eq!(app.tab_index(), 2);
    assert_eq!(app.selected_log_index(), 1);
    assert_eq!(app.selected_command_index(), 6);
    assert!(app.running());
}

#[test]
fn enter_asks_for_the_selected_command_and_leaves_the_state() {
    let mut app = fresh();
    assert_eq!(
        handle_key_events(plain(Key::Enter), &mut app),
        KeyAction::Execute(SystemctlCommand::Start)
    );
    handle_key_events(plain(Key::Up), &mut app);
    assert_eq!(
        handle_key_events(plain(Key::Enter), &mut app),
        KeyAction::Execute(SystemctlCommand::Disable)
    );
    assert!(app.running());
    assert_eq!(app.selected_command_index(), 6);
    assert_eq!(app.status().as_str(), "active");
}

#[test]
fn enter_on_the_status_row_runs_status_and_refreshes_the_status_text() {
    let mut app = fresh();
    for _ in 0..4 {
        handle_key_events(plain(Key::Down), &mut app);
    }
    assert_eq!(app.tab_index(), 0);
    assert_eq!(app.selected_command_index(), 4);
    let action = handle_key_events(plain(Key::Enter), &mut app);
    let command = match action {
        KeyAction::Execute(command) => command,
        KeyAction::Nothing => panic!("enter must ask for a command"),
    };
    assert_eq!(command, SystemctlCommand::Status);
    let inv = command.invocation();
    assert_eq!(inv.program, "systemctl");
    assert_eq!(inv.args, vec!["status", "nginx"]);
    let fresh_status = Ok(CommandOutput {
        stdout: String::from("inactive\n"),
        stderr: String::new(),
        success: false,
    });
    complete_command(&mut app, &fresh_status);
    assert_eq!(app.status().as_str(), "inactive");
    assert_eq!(app.selected_command_index(), 4);
    complete_command(&mut app, &Err(LaunchFailure));
    assert_eq!(app.status().as_str(), "Error while getting status");
}

#[test]
fn title_shows_the_version_or_says_that_none_is_known() {
    assert_eq!(
        title(Some(NginxVersion { major: 1, minor: 18, patch: 0 })),
        "lazynginx, nginx v1.18.0"
    );
    assert_eq!(title(None), "lazynginx, nginx version unknown");
}

#[test]
fn status_tab_shows_status_and_commands() {
    let mut app = fresh();
    app.increment_selection();
    app.increment_selection();
    let frame = render(&app);
    assert_eq!(frame.title, "lazynginx, nginx v1.18.0");
    assert_eq!(frame.tabs, vec!["Status", "Config", "Logs", "Templates"]);
    assert_eq!(frame.selected_tab, 0);
    match frame.body {
        Body::Status { status, commands } => {
            assert_eq!(status.title, "Status");
            assert_eq!(status.text, "active");
            assert_eq!(commands.title, "Systemctl Commands");
            assert_eq!(
                commands.items,
                vec!["Start", "Stop", "Restart", "Reload", "Status", "Enable", "Disable"]
            );
            assert_eq!(commands.selected, 2);
            assert_eq!(commands.highlight_symbol.as_deref(), Some(">>"));
        }
        other => panic!("unexpected body: {:?}", other),
    }
}

#[test]
fn logs_tab_shows_the_selected_log() {
    let mut app = App::new(String::from("inactive"), None);
    app.increment_horizontal();
    app.increment_horizontal();
    let frame = render(&app);
    assert_eq!(frame.title, "lazynginx, nginx version unknown");
    assert_eq!(frame.selected_tab, 2);
    match frame.body {
        Body::Logs { picker, viewer } => {
            assert_eq!(picker.title, "Pick Log File");
            assert_eq!(
                picker.items,
                vec!["/var/log/nginx/access.log", "/var/log/nginx/error.log"]
            );
            assert_eq!(picker.selected, 0);
            assert_eq!(picker.highlight_symbol, None);
            assert_eq!(viewer.path, "/var/log/nginx/access.log");
            assert!(!viewer.trim);
        }
        other => panic!("unexpected body: {:?}", other),
    }
    app.increment_selection();
    match render(&app).body {
        Body::Logs { picker, viewer } => {
            assert_eq!(picker.selected, 1);
            assert_eq!(viewer.path, "/var/log/nginx/error.log");
        }
        other => panic!("unexpected body: {:?}", other),
    }
}

#[test]
fn config_and_templates_tabs_are_empty() {
    let mut app = fresh();
    app.increment_horizontal();
    let frame = render(&app);
    assert_eq!(frame.selected_tab, 1);
    assert!(matches!(frame.body, Body::Empty));
    app.increment_horizontal();
    app.increment_horizontal();
    let frame = render(&app);
    assert_eq!(frame.selected_tab, 3);
    assert!(matches!(frame.body, Body::Empty));
}

#[test]
fn render_leaves_the_state_as_it_is() {
    let mut app = fresh();
    app.increment_selection();
    let _ = render(&app);
    let _ = render(&app);
    assert!(app.running());
    assert_eq!(app.tab_index(), 0);
    assert_eq!(app.selected_command_index(), 1);
    assert_eq!(app.selected_log_index(), 0);
    assert_eq!(app.status().as_str(), "active");
}
