use simon::builder::build_app;
use simon::event::Event;
use simon::nav::{handle_input, App, AppCursor, Key, MediaCursor, ProgramStatus, TabType};
use simon::settings::{CommandSetting, TabSettings};

fn media_settings(name: &str, priority: usize) -> TabSettings {
    TabSettings {
        name: String::from(name),
        kind: String::from("media"),
        priority,
        media_dirs: Some(vec![String::from("/media")]),
        media_types: Some(vec![String::from("mp4")]),
        subs_dirs: None,
        subs_types: None,
        command: Some(CommandSetting {
            program: String::from("echo"),
            args: vec![String::from("{0}")],
        }),
        base_color: None,
        highlight_color: None,
    }
}

fn two_tab_app() -> App {
    let films = (
        media_settings("films", 1),
        vec![String::from("/media/a.mp4"), String::from("/media/b.mp4"), String::from("/media/c.mp4")],
    );
    let series = (media_settings("series", 2), vec![String::from("/media/d.mp4")]);
    build_app(vec![films, series]).expect("both tabs are well configured")
}

fn key(app: &mut App, k: Key) -> ProgramStatus {
    handle_input(app, Event::Input(k))
}

fn media_cursor(app: &App) -> MediaCursor {
    match &app.tabs.current().tab_type {
        TabType::Media(m) => m.cursor,
        TabType::Unknown => panic!("expected a media tab"),
    }
}

fn media_index(app: &App) -> usize {
    match &app.tabs.current().tab_type {
        TabType::Media(m) => m.media.index,
        TabType::Unknown => panic!("expected a media tab"),
    }
}

#[test]
fn starts_on_the_tab_list() {
    let app = two_tab_app();
    assert_eq!(app.cursor, AppCursor::TabList);
    assert_eq!(app.tabs.index, 0);
    assert_eq!(app.tabs.current().name, "films");
}

#[test]
fn left_and_right_move_the_tab_selection_circularly() {
    let mut app = two_tab_app();
    assert!(matches!(key(&mut app, Key::Right), ProgramStatus::Resume));
    assert_eq!(app.tabs.index, 1);
    assert!(matches!(key(&mut app, Key::Right), ProgramStatus::Resume));
    assert_eq!(app.tabs.index, 0);
    assert!(matches!(key(&mut app, Key::Left), ProgramStatus::Resume));
    assert_eq!(app.tabs.index, 1);
}

#[test]
fn down_enters_the_tab_contents_at_the_outer_level() {
    let mut app = two_tab_app();
    assert!(matches!(key(&mut app, Key::Down), ProgramStatus::Resume));
    assert_eq!(app.cursor, AppCursor::TabContents);
    assert_eq!(media_cursor(&app), MediaCursor::MediaListOut);
}

#[test]
fn up_from_the_outer_level_returns_to_the_tab_list() {
    let mut app = two_tab_app();
    key(&mut app, Key::Down);
    assert!(matches!(key(&mut app, Key::Up), ProgramStatus::Resume));
    assert_eq!(app.cursor, AppCursor::TabList);
    assert_eq!(media_cursor(&app), MediaCursor::MediaListOut);
}

#[test]
fn enter_steps_into_and_out_of_the_item_list() {
    let mut app = two_tab_app();
    key(&mut app, Key::Down);
    key(&mut app, Key::Char('\n'));
    assert_eq!(media_cursor(&app), MediaCursor::MediaListIn);
    key(&mut app, Key::Char('\n'));
    assert_eq!(media_cursor(&app), MediaCursor::MediaListOut);
}

#[test]
fn up_and_down_move_the_item_selection_inside_the_list() {
    let mut app = two_tab_app();
    key(&mut app, Key::Down);
    key(&mut app, Key::Char('\n'));
    assert_eq!(media_index(&app), 0);
    key(&mut app, Key::Down);
    assert_eq!(media_index(&app), 1);
    key(&mut app, Key::Down);
    key(&mut app, Key::Down);
    assert_eq!(media_index(&app), 0);
    key(&mut app, Key::Up);
    assert_eq!(media_index(&app), 2);
}

#[test]
fn item_selection_survives_leaving_and_reentering_the_tab() {
    let mut app = two_tab_app();
    key(&mut app, Key::Down);
    key(&mut app, Key::Char('\n'));
    key(&mut app, Key::Down);
    key(&mut app, Key::Char('\n'));
    key(&mut app, Key::Up);
    assert_eq!(app.cursor, AppCursor::TabList);
    key(&mut app, Key::Down);
    assert_eq!(media_cursor(&app), MediaCursor::MediaListOut);
    assert_eq!(media_index(&app), 1);
}

#[test]
fn unmatched_keys_are_consumed_silently() {
    let mut app = two_tab_app();
    assert!(matches!(key(&mut app, Key::Char('x')), ProgramStatus::Resume));
    assert_eq!(app.cursor, AppCursor::TabList);
    assert_eq!(app.tabs.index, 0);
    key(&mut app, Key::Down);
    assert!(matches!(key(&mut app, Key::Other), ProgramStatus::Resume));
    assert_eq!(app.cursor, AppCursor::TabContents);
    assert_eq!(media_cursor(&app), MediaCursor::MediaListOut);
}

#[test]
fn tick_changes_nothing_and_resumes() {
    let mut app = two_tab_app();
    key(&mut app, Key::Down);
    assert!(matches!(handle_input(&mut app, Event::Tick), ProgramStatus::Resume));
    assert_eq!(app.cursor, AppCursor::TabContents);
    assert_eq!(media_cursor(&app), MediaCursor::MediaListOut);
}

#[test]
fn exit_keys_quit_from_every_reachable_state() {
    // the tab list
    let mut app = two_tab_app();
    assert!(matches!(key(&mut app, Key::Esc), ProgramStatus::Quit));
    let mut app = two_tab_app();
    assert!(matches!(key(&mut app, Key::Char('q')), ProgramStatus::Quit));
    // the tab contents at the outer level
    let mut app = two_tab_app();
    key(&mut app, Key::Down);
    assert!(matches!(key(&mut app, Key::Esc), ProgramStatus::Quit));
    let mut app = two_tab_app();
    key(&mut app, Key::Down);
    assert!(matches!(key(&mut app, Key::Char('q')), ProgramStatus::Quit));
    // inside the item list
    let mut app = two_tab_app();
    key(&mut app, Key::Down);
    key(&mut app, Key::Char('\n'));
    assert!(matches!(key(&mut app, Key::Esc), ProgramStatus::Quit));
    let mut app = two_tab_app();
    key(&mut app, Key::Down);
    key(&mut app, Key::Char('\n'));
    assert!(matches!(key(&mut app, Key::Char('q')), ProgramStatus::Quit));
    // on the second tab, after moving the selection
    let mut app = two_tab_app();
    key(&mut app, Key::Right);
    key(&mut app, Key::Down);
    key(&mut app, Key::Char('\n'));
    key(&mut app, Key::Down);
    assert!(matches!(key(&mut app, Key::Esc), ProgramStatus::Quit));
}

#[test]
fn launch_key_yields_refresh_with_the_substituted_command() {
    let mut app = two_tab_app();
    key(&mut app, Key::Down);
    let status = key(&mut app, Key::Char('p'));
    match status {
        ProgramStatus::Refresh(req) => {
            assert_eq!(req.program, "echo");
            assert_eq!(req.args, vec![String::from("/media/a.mp4")]);
        }
        _ => panic!("expected the refresh effect"),
    }
}

#[test]
fn launch_from_inside_the_list_uses_the_selected_item() {
    let mut app = two_tab_app();
    key(&mut app, Key::Down);
    key(&mut app, Key::Char('\n'));
    key(&mut app, Key::Down);
    let status = key(&mut app, Key::Char('p'));
    match status {
        ProgramStatus::Refresh(req) => {
            assert_eq!(req.program, "echo");
            assert_eq!(req.args, vec![String::from("/media/b.mp4")]);
        }
        _ => panic!("expected the refresh effect"),
    }
    assert_eq!(media_cursor(&app), MediaCursor::MediaListIn);
    assert_eq!(media_index(&app), 1);
}

#[test]
fn launch_key_on_the_tab_list_does_nothing() {
    let mut app = two_tab_app();
    assert!(matches!(key(&mut app, Key::Char('p')), ProgramStatus::Resume));
    assert_eq!(app.cursor, AppCursor::TabList);
}

#[test]
fn a_tab_with_nothing_to_focus_consumes_no_key_but_the_exit_keys() {
    let mut s = media_settings("notes", 1);
    s.kind = String::from("text");
    let mut app = build_app(vec![(s, Vec::new())]).expect("unknown kinds build");
    key(&mut app, Key::Down);
    assert_eq!(app.cursor, AppCursor::TabContents);
    assert!(matches!(key(&mut app, Key::Up), ProgramStatus::Resume));
    assert_eq!(app.cursor, AppCursor::TabContents);
    assert!(matches!(key(&mut app, Key::Char('p')), ProgramStatus::Resume));
    assert!(matches!(key(&mut app, Key::Char('\n')), ProgramStatus::Resume));
    assert!(matches!(key(&mut app, Key::Esc), ProgramStatus::Quit));
}
