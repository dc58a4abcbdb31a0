use tmux_ui::tmux::{TmuxClient, TmuxSession};
use tmux_ui::tui::{session_label, listing_line, Action, App, InputMode, Key, Request, HELP_TEXT};

fn session(name: &str, windows: usize, attached: bool) -> TmuxSession {
    TmuxSession {
        name: name.to_string(),
        windows,
        attached,
        created: "0".to_string(),
    }
}

fn two_sessions() -> Vec<TmuxSession> {
    vec![session("alpha", 2, false), session("beta", 1, true)]
}

fn app_with(sessions: Vec<TmuxSession>) -> App {
    let mut app = App::new(TmuxClient::new());
    app.refresh_sessions(sessions);
    app
}

fn names(app: &App) -> Vec<String> {
    app.sessions.iter().map(|s| s.name.clone()).collect()
}

#[test]
fn new_app_starts_empty() {
    let app = App::new(TmuxClient::new());
    assert!(app.sessions.is_empty());
    assert_eq!(app.selected, None);
    assert_eq!(app.input_mode, InputMode::Normal);
    assert_eq!(app.status_message, "Welcome to tmux-ui! Press 'h' for help.");
    assert_eq!(app.attach_on_exit, None);
}

#[test]
fn no_sessions_show_no_rows() {
    let app = app_with(Vec::new());
    assert_eq!(app.selected, None);
    assert!(app.sessions.is_empty());
    assert_eq!(app.list_title(), "tmux Sessions (0)");
}

#[test]
fn down_moves_and_wraps() {
    let mut app = app_with(two_sessions());
    assert_eq!(app.selected, Some(0));
    assert_eq!(app.handle_key(Key::Down, false), Action::Continue);
    assert_eq!(app.selected, Some(1));
    assert_eq!(app.handle_key(Key::Down, false), Action::Continue);
    assert_eq!(app.selected, Some(0));
}

#[test]
fn up_wraps_to_last() {
    let mut app = app_with(two_sessions());
    app.handle_key(Key::Up, false);
    assert_eq!(app.selected, Some(1));
    app.handle_key(Key::Up, false);
    assert_eq!(app.selected, Some(0));
}

#[test]
fn navigation_without_sessions_does_nothing() {
    let mut app = app_with(Vec::new());
    app.handle_key(Key::Down, false);
    assert_eq!(app.selected, None);
    app.handle_key(Key::Up, false);
    assert_eq!(app.selected, None);
}

#[test]
fn create_session_flow() {
    let mut app = app_with(two_sessions());
    assert_eq!(app.handle_key(Key::Char('n'), false), Action::Continue);
    assert_eq!(app.input_mode, InputMode::CreatingSession);
    for c in "gamma".chars() {
        assert_eq!(app.handle_key(Key::Char(c), false), Action::Continue);
    }
    assert_eq!(app.status_text(), "New session name: gamma");
    let action = app.handle_key(Key::Enter, false);
    let req = Request::Create("gamma".to_string());
    assert_eq!(action, Action::Run(req.clone()));
    assert_eq!(app.input_mode, InputMode::Normal);
    assert_eq!(app.input, "");
    assert!(app.complete(&req, Ok(())));
    assert_eq!(app.status_message, "Session 'gamma' created!");
    let mut listed = two_sessions();
    listed.push(session("gamma", 1, false));
    app.refresh_sessions(listed);
    assert!(names(&app).contains(&"gamma".to_string()));
}

#[test]
fn create_failure_returns_to_normal() {
    let mut app = app_with(two_sessions());
    app.handle_key(Key::Char('n'), false);
    app.handle_key(Key::Char('x'), false);
    let action = app.handle_key(Key::Enter, false);
    let req = Request::Create("x".to_string());
    assert_eq!(action, Action::Run(req.clone()));
    assert!(!app.complete(&req, Err("duplicate session: x".to_string())));
    assert_eq!(app.input_mode, InputMode::Normal);
    assert_eq!(app.status_message, "Error creating session: duplicate session: x");
}

#[test]
fn create_name_is_trimmed() {
    let mut app = app_with(Vec::new());
    app.handle_key(Key::Char('n'), false);
    for c in "  dev ".chars() {
        app.handle_key(Key::Char(c), false);
    }
    assert_eq!(app.handle_key(Key::Enter, false), Action::Run(Request::Create("dev".to_string())));
}

#[test]
fn blank_name_is_not_confirmed() {
    let mut app = app_with(Vec::new());
    app.handle_key(Key::Char('n'), false);
    app.handle_key(Key::Char(' '), false);
    assert_eq!(app.handle_key(Key::Enter, false), Action::Continue);
    assert_eq!(app.input_mode, InputMode::CreatingSession);
    assert_eq!(app.input, " ");
}

#[test]
fn backspace_and_escape() {
    let mut app = app_with(two_sessions());
    app.handle_key(Key::Char('n'), false);
    app.handle_key(Key::Backspace, false);
    assert_eq!(app.input, "");
    app.handle_key(Key::Char('a'), false);
    app.handle_key(Key::Char('b'), false);
    app.handle_key(Key::Backspace, false);
    assert_eq!(app.input, "a");
    app.handle_key(Key::Esc, false);
    assert_eq!(app.input_mode, InputMode::Normal);
    assert_eq!(app.input, "");
    assert_eq!(app.status_message, "Cancelled");
}

#[test]
fn editing_mode_ignores_commands() {
    let mut app = app_with(two_sessions());
    app.handle_key(Key::Down, false);
    app.handle_key(Key::Char('r'), false);
    assert_eq!(app.input_mode, InputMode::RenamingSession);
    assert_eq!(app.handle_key(Key::Down, false), Action::Continue);
    assert_eq!(app.handle_key(Key::Up, false), Action::Continue);
    assert_eq!(app.selected, Some(1));
    assert_eq!(app.handle_key(Key::Char('d'), false), Action::Continue);
    assert_eq!(app.handle_key(Key::Char('a'), false), Action::Continue);
    assert_eq!(app.handle_key(Key::Char('q'), false), Action::Continue);
    assert_eq!(app.input, "daq");
    assert_eq!(app.attach_on_exit, None);
    assert_eq!(names(&app), vec!["alpha", "beta"]);
    assert_eq!(app.input_mode, InputMode::RenamingSession);
}

#[test]
fn rename_flow() {
    let mut app = app_with(two_sessions());
    app.handle_key(Key::Char('r'), false);
    for c in "omega".chars() {
        app.handle_key(Key::Char(c), false);
    }
    assert_eq!(app.status_text(), "Rename to: omega");
    let req = Request::Rename("alpha".to_string(), "omega".to_string());
    assert_eq!(app.handle_key(Key::Enter, false), Action::Run(req.clone()));
    assert!(app.complete(&req, Ok(())));
    assert_eq!(app.status_message, "Session renamed from 'alpha' to 'omega'!");
    assert!(!app.complete(&req, Err("no such session".to_string())));
    assert_eq!(app.status_message, "Error renaming session: no such session");
}

#[test]
fn rename_without_selection_is_ignored() {
    let mut app = app_with(Vec::new());
    assert_eq!(app.handle_key(Key::Char('r'), false), Action::Continue);
    assert_eq!(app.input_mode, InputMode::Normal);
}

#[test]
fn attach_from_outside_quits_with_target() {
    let mut app = app_with(two_sessions());
    assert_eq!(app.handle_key(Key::Enter, false), Action::Quit);
    assert_eq!(app.attach_on_exit, Some("alpha".to_string()));
    assert_eq!(app.status_message, "Attaching to session 'alpha'...");
}

#[test]
fn attach_from_inside_switches() {
    let mut app = app_with(two_sessions());
    app.handle_key(Key::Down, false);
    let req = Request::Switch("beta".to_string());
    assert_eq!(app.handle_key(Key::Char('a'), true), Action::Run(req.clone()));
    assert_eq!(app.attach_on_exit, None);
    assert!(app.complete(&req, Ok(())));
    assert_eq!(app.status_message, "Switched to session 'beta'");
    assert!(!app.complete(&req, Err("lost server".to_string())));
    assert_eq!(app.status_message, "Error switching to session: lost server");
}

#[test]
fn detach_failure_is_reported_as_success() {
    let mut app = app_with(two_sessions());
    let req = Request::Detach("alpha".to_string());
    assert_eq!(app.handle_key(Key::Char('x'), false), Action::Run(req.clone()));
    assert!(app.complete(&req, Err("no clients".to_string())));
    assert_eq!(app.status_message, "Detached from session 'alpha'");
}

#[test]
fn delete_last_session() {
    let mut app = app_with(vec![session("solo", 1, false)]);
    let req = Request::Kill("solo".to_string());
    assert_eq!(app.handle_key(Key::Char('d'), false), Action::Run(req.clone()));
    assert!(app.complete(&req, Ok(())));
    assert_eq!(app.status_message, "Session 'solo' deleted!");
    app.refresh_sessions(Vec::new());
    assert!(app.sessions.is_empty());
    assert_eq!(app.selected, None);
}

#[test]
fn delete_failure_is_reported() {
    let mut app = app_with(two_sessions());
    let req = Request::Kill("alpha".to_string());
    assert!(!app.complete(&req, Err("can't find session".to_string())));
    assert_eq!(app.status_message, "Error deleting session: can't find session");
    assert_eq!(app.sessions.len(), 2);
}

#[test]
fn new_window_outcomes() {
    let mut app = app_with(two_sessions());
    let req = Request::NewWindow("alpha".to_string());
    assert_eq!(app.handle_key(Key::Char('w'), false), Action::Run(req.clone()));
    assert!(app.complete(&req, Ok(())));
    assert_eq!(app.status_message, "New window created in session 'alpha'");
    assert!(!app.complete(&req, Err("index in use".to_string())));
    assert_eq!(app.status_message, "Error creating window: index in use");
}

#[test]
fn selection_clamps_after_shrink() {
    let mut app = app_with(vec![session("a", 1, false), session("b", 1, false), session("c", 1, false)]);
    app.handle_key(Key::Up, false);
    assert_eq!(app.selected, Some(2));
    app.refresh_sessions(two_sessions());
    assert_eq!(app.selected, Some(1));
}

#[test]
fn refresh_twice_is_refresh_once() {
    let mut app = app_with(vec![session("a", 1, false), session("b", 1, false), session("c", 1, false)]);
    app.handle_key(Key::Up, false);
    app.refresh_sessions(two_sessions());
    let first = (names(&app), app.selected);
    app.refresh_sessions(two_sessions());
    assert_eq!((names(&app), app.selected), first);
}

#[test]
fn quit_help_refresh_and_other_keys() {
    let mut app = app_with(two_sessions());
    assert_eq!(app.handle_key(Key::Char('h'), false), Action::Continue);
    assert_eq!(app.status_message, HELP_TEXT);
    assert_eq!(app.handle_key(Key::Char('R'), false), Action::Refresh);
    assert_eq!(app.status_message, "Sessions refreshed!");
    assert_eq!(app.handle_key(Key::Char('z'), false), Action::Continue);
    assert_eq!(app.handle_key(Key::Other, false), Action::Continue);
    assert_eq!(app.status_message, "Sessions refreshed!");
    assert_eq!(app.handle_key(Key::Char('q'), false), Action::Quit);
    assert_eq!(app.attach_on_exit, None);
}

#[test]
fn display_text() {
    let app = app_with(two_sessions());
    assert_eq!(app.list_title(), "tmux Sessions (2)");
    assert_eq!(session_label(&app.sessions[0]), "○ alpha (2 windows)");
    assert_eq!(session_label(&app.sessions[1]), "● beta (1 windows)");
    assert_eq!(listing_line(&app.sessions[1]), "  ● beta - 1 window(s)");
    assert_eq!(app.status_text(), "Welcome to tmux-ui! Press 'h' for help.");
}

#[test]
fn failed_list_read_is_reported() {
    let mut app = app_with(two_sessions());
    app.handle_key(Key::Down, false);
    app.refresh_failed("tmux not found");
    assert_eq!(app.status_message, "Error refreshing sessions: tmux not found");
    assert_eq!(names(&app), vec!["alpha", "beta"]);
    assert_eq!(app.selected, Some(1));
    assert_eq!(app.input_mode, InputMode::Normal);
}

#[test]
fn unicode_space_is_trimmed_from_names() {
    let mut app = app_with(Vec::new());
    app.handle_key(Key::Char('n'), false);
    for c in "\u{3000}\tdev\u{a0}\u{2009}".chars() {
        app.handle_key(Key::Char(c), false);
    }
    assert_eq!(app.handle_key(Key::Enter, false), Action::Run(Request::Create("dev".to_string())));
}
