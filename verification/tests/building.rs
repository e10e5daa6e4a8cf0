use simon::builder::{build_app, build_media, build_tab, ConfigError};
use simon::nav::{MediaCursor, TabType};
use simon::settings::{ColorSetting, CommandSetting, TabSettings};

fn bare_settings(name: &str, kind: &str) -> TabSettings {
    TabSettings {
        name: String::from(name),
        kind: String::from(kind),
        priority: 1,
        media_dirs: None,
        media_types: None,
        subs_dirs: None,
        subs_types: None,
        command: None,
        base_color: None,
        highlight_color: None,
    }
}

fn media_settings(name: &str) -> TabSettings {
    let mut s = bare_settings(name, "media");
    s.media_dirs = Some(vec![String::from("/media")]);
    s.media_types = Some(vec![String::from("mp4")]);
    s.command = Some(CommandSetting {
        program: String::from("player"),
        args: vec![String::from("{0}")],
    });
    s
}

fn files() -> Vec<String> {
    vec![String::from("/media/a.mp4"), String::from("/media/b.mp4")]
}

#[test]
fn media_tab_builds_with_everything_present() {
    let m = build_media(&media_settings("films"), files()).expect("well configured");
    assert_eq!(m.cursor, MediaCursor::MediaListOut);
    assert_eq!(m.media.index, 0);
    assert_eq!(m.media.items, files());
    assert!(m.subs.is_none());
    assert_eq!(m.command.program, "player");
    assert_eq!(m.command.args, vec![String::from("{0}")]);
}

#[test]
fn media_tab_with_zero_matching_files_is_rejected_at_construction() {
    match build_media(&media_settings("films"), Vec::new()) {
        Err(ConfigError::EmptySelection(name)) => assert_eq!(name, "films"),
        _ => panic!("an empty selection must be rejected when the tab is built"),
    }
}

#[test]
fn media_tab_without_file_types_is_rejected() {
    let mut s = media_settings("films");
    s.media_types = None;
    match build_media(&s, files()) {
        Err(ConfigError::MissingMediaTypes(name)) => assert_eq!(name, "films"),
        _ => panic!("missing file types must be rejected"),
    }
}

#[test]
fn media_tab_without_directories_is_rejected() {
    let mut s = media_settings("films");
    s.media_dirs = None;
    match build_media(&s, files()) {
        Err(ConfigError::MissingMediaDirs(name)) => assert_eq!(name, "films"),
        _ => panic!("missing directories must be rejected"),
    }
}

#[test]
fn media_tab_without_a_command_is_rejected() {
    let mut s = media_settings("films");
    s.command = None;
    match build_media(&s, files()) {
        Err(ConfigError::MissingCommand(name)) => assert_eq!(name, "films"),
        _ => panic!("a missing command must be rejected"),
    }
}

#[test]
fn unknown_kind_builds_a_tab_with_nothing_to_focus() {
    let t = build_tab(&bare_settings("notes", "text"), Vec::new()).expect("unknown kinds build");
    assert_eq!(t.name, "notes");
    assert!(matches!(t.tab_type, TabType::Unknown));
}

#[test]
fn colors_default_to_white_and_yellow() {
    let t = build_tab(&bare_settings("notes", "text"), Vec::new()).expect("unknown kinds build");
    assert_eq!(t.base_color, ColorSetting::White);
    assert_eq!(t.highlight_color, ColorSetting::Yellow);
}

#[test]
fn configured_colors_are_kept() {
    let mut s = bare_settings("notes", "text");
    s.base_color = Some(ColorSetting::Blue);
    s.highlight_color = Some(ColorSetting::Rgb(1, 2, 3));
    let t = build_tab(&s, Vec::new()).expect("unknown kinds build");
    assert_eq!(t.base_color, ColorSetting::Blue);
    assert_eq!(t.highlight_color, ColorSetting::Rgb(1, 2, 3));
}

#[test]
fn the_app_holds_every_tab_in_the_order_given() {
    let app = build_app(vec![
        (media_settings("films"), files()),
        (bare_settings("notes", "text"), Vec::new()),
    ])
    .expect("both build");
    assert_eq!(app.tabs.items.len(), 2);
    assert_eq!(app.tabs.items[0].name, "films");
    assert_eq!(app.tabs.items[1].name, "notes");
    assert_eq!(app.tabs.index, 0);
}

#[test]
fn an_empty_tab_set_is_rejected() {
    match build_app(Vec::new()) {
        Err(ConfigError::NoTabs) => {}
        _ => panic!("an empty tab set must be rejected"),
    }
}

#[test]
fn the_first_bad_descriptor_aborts_construction() {
    let mut bad = media_settings("series");
    bad.command = None;
    let inputs = vec![
        (media_settings("films"), files()),
        (bad, files()),
        (media_settings("shorts"), Vec::new()),
    ];
    match build_app(inputs) {
        Err(ConfigError::MissingCommand(name)) => assert_eq!(name, "series"),
        _ => panic!("the second descriptor is the first bad one"),
    }
}

#[test]
fn the_dispatch_loop_is_never_entered_with_an_empty_tab() {
    let inputs = vec![
        (media_settings("films"), files()),
        (media_settings("empty"), Vec::new()),
    ];
    match build_app(inputs) {
        Err(ConfigError::EmptySelection(name)) => assert_eq!(name, "empty"),
        _ => panic!("a tab with zero matching files must abort construction"),
    }
}
