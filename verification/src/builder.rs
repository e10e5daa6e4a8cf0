//! Building the tab set from configured descriptors.
//!
//! The configuration collaborator delivers descriptors and, for each
//! media-kind descriptor, the scanned list of matching files, already
//! filtered and sorted. Construction validates here what the event loop
//! will rely on: a media tab must name its directories, its file types and
//! its command template, and must match at least one file. A bad descriptor
//! aborts construction with the error naming the tab, before the event loop
//! ever starts; an empty tab set is rejected the same way.

use crate::nav::{App, AppCursor, MediaCursor, MediaTab, Tab, TabType};
use crate::select_loop::SelectLoop;
use crate::settings::{ColorSetting, TabSettings};
use vstd::prelude::*;

verus! {

/// Why the tab set could not be built. Each variant but the last names the
/// offending tab.
#[derive(Debug)]
pub enum ConfigError {
    /// A media tab without its list of file types.
    MissingMediaTypes(String),
    /// A media tab without its list of directories.
    MissingMediaDirs(String),
    /// A media tab without its command template.
    MissingCommand(String),
    /// A media tab whose directories matched no file at all.
    EmptySelection(String),
    /// No tabs were configured.
    NoTabs,
}

/// The descriptor asks for a media tab.
pub open spec fn is_media_kind(s: TabSettings) -> bool {
    s.kind@ == "media"@
}

/// The inputs on which a media tab builds: the descriptor names directories,
/// file types and a command, and the scan found at least one file.
pub open spec fn media_config_ok(s: TabSettings, files: Seq<String>) -> bool {
    &&& s.media_types is Some
    &&& s.media_dirs is Some
    &&& s.command is Some
    &&& files.len() > 0
}

/// The inputs on which a tab builds: a media descriptor must satisfy
/// `media_config_ok`; any other kind builds unconditionally.
pub open spec fn tab_config_ok(s: TabSettings, files: Seq<String>) -> bool {
    is_media_kind(s) ==> media_config_ok(s, files)
}

/// The error a bad media configuration produces: the first missing piece in
/// the order the checks run — file types, directories, command — and, with
/// all pieces present, the empty file list; each names the tab.
pub open spec fn media_config_error(s: TabSettings, files: Seq<String>, e: ConfigError) -> bool {
    if s.media_types is None {
        e matches ConfigError::MissingMediaTypes(n) && n@ == s.name@
    } else if s.media_dirs is None {
        e matches ConfigError::MissingMediaDirs(n) && n@ == s.name@
    } else if s.command is None {
        e matches ConfigError::MissingCommand(n) && n@ == s.name@
    } else {
        e matches ConfigError::EmptySelection(n) && n@ == s.name@
    }
}

/// A configured color, or the default where none is configured.
pub open spec fn resolved_color(c: Option<ColorSetting>, default: ColorSetting) -> ColorSetting {
    match c {
        Some(x) => x,
        None => default,
    }
}

/// What the built tab holds of the descriptor `s` and the scanned `files`:
/// the name, the resolved colors, and — for a media descriptor — a media
/// payload over exactly those files, resting at the outer focus level with
/// the first file selected and carrying the descriptor's command template.
pub open spec fn built_tab_matches(t: Tab, s: TabSettings, files: Seq<String>) -> bool {
    &&& t.name@ == s.name@
    &&& t.base_color == resolved_color(s.base_color, ColorSetting::White)
    &&& t.highlight_color == resolved_color(s.highlight_color, ColorSetting::Yellow)
    &&& if is_media_kind(s) {
        &&& t.tab_type matches TabType::Media(m)
        &&& m.cursor is MediaListOut
        &&& m.media.items@ == files
        &&& m.media.index == 0
        &&& m.subs is None
        &&& (s.command matches Some(c) && m.command.program@ == c.program@
            && m.command.args.deep_view() == c.args.deep_view())
    } else {
        t.tab_type is Unknown
    }
}

/// Builds a media tab's payload from its descriptor and the files the scan
/// found, or rejects the configuration: a media tab must name its file
/// types, its directories and its command, and an empty file list is an
/// error at construction, never a tab without a selection.
pub fn build_media(settings: &TabSettings, media: Vec<String>) -> (r: Result<
    MediaTab,
    ConfigError,
>)
    ensures
        (r is Ok) <==> media_config_ok(*settings, media@),
        r matches Ok(m) ==> {
            &&& m.wf()
            &&& m.cursor is MediaListOut
            &&& m.media.items@ == media@
            &&& m.media.index == 0
            &&& m.subs is None
            &&& (settings.command matches Some(c) && m.command.program@ == c.program@
                && m.command.args.deep_view() == c.args.deep_view())
        },
        r matches Err(e) ==> media_config_error(*settings, media@, e),
{
    match &settings.media_types {
        Some(_) => (),
        None => {
            return Err(ConfigError::MissingMediaTypes(settings.name.clone()));
        },
    }
    match &settings.media_dirs {
        Some(_) => (),
        None => {
            return Err(ConfigError::MissingMediaDirs(settings.name.clone()));
        },
    }
    let command = match &settings.command {
        Some(c) => c.clone(),
        None => {
            return Err(ConfigError::MissingCommand(settings.name.clone()));
        },
    };
    let media = match SelectLoop::new(media) {
        Ok(l) => l,
        Err(_) => {
            return Err(ConfigError::EmptySelection(settings.name.clone()));
        },
    };
    Ok(MediaTab { command, cursor: MediaCursor::MediaListOut, media, subs: None })
}

/// Builds one tab from its descriptor and the files the scan found for it:
/// resolves the colors, and builds the media payload for a media descriptor.
/// A descriptor of any other kind builds a tab with nothing to focus.
pub fn build_tab(settings: &TabSettings, media: Vec<String>) -> (r: Result<Tab, ConfigError>)
    ensures
        (r is Ok) <==> tab_config_ok(*settings, media@),
        r matches Ok(t) ==> built_tab_matches(t, *settings, media@) && t.wf() && t.focus_out(),
        r matches Err(e) ==> is_media_kind(*settings) && media_config_error(*settings, media@, e),
{
    let base_color = match settings.base_color {
        Some(c) => c,
        None => ColorSetting::White,
    };
    let highlight_color = match settings.highlight_color {
        Some(c) => c,
        None => ColorSetting::Yellow,
    };
    let media_kind = String::from_str("media");
    let tab_type = if settings.kind == media_kind {
        match build_media(settings, media) {
            Ok(m) => TabType::Media(m),
            Err(e) => {
                return Err(e);
            },
        }
    } else {
        TabType::Unknown
    };
    Ok(Tab { base_color, highlight_color, name: settings.name.clone(), tab_type })
}

/// One descriptor builds: for a media descriptor, everything it needs is
/// there.
pub open spec fn input_ok(p: (TabSettings, Vec<String>)) -> bool {
    tab_config_ok(p.0, p.1@)
}

/// Position `i` holds the first descriptor that does not build.
pub open spec fn first_bad_at(inputs: Seq<(TabSettings, Vec<String>)>, i: int) -> bool {
    &&& !input_ok(inputs[i])
    &&& forall|j: int| 0 <= j < i ==> input_ok(#[trigger] inputs[j])
}

/// Builds the whole interface state from the descriptors and their scanned
/// files, in the order given: every tab built, the first tab selected, and
/// focus on the tab list. The first descriptor that does not build aborts
/// construction with its error, and an empty descriptor list is rejected —
/// the event loop is never entered without a selectable tab.
pub fn build_app(inputs: Vec<(TabSettings, Vec<String>)>) -> (r: Result<App, ConfigError>)
    ensures
        (r is Ok) <==> (inputs@.len() > 0 && forall|i: int|
            0 <= i < inputs@.len() ==> input_ok(#[trigger] inputs@[i])),
        r matches Ok(app) ==> {
            &&& app.wf()
            &&& app.cursor is TabList
            &&& app.tabs.index == 0
            &&& app.tabs.items@.len() == inputs@.len()
            &&& forall|i: int|
                0 <= i < inputs@.len() ==> built_tab_matches(
                    #[trigger] app.tabs.items@[i],
                    inputs@[i].0,
                    inputs@[i].1@,
                )
        },
        r matches Err(ConfigError::NoTabs) ==> inputs@.len() == 0,
        r matches Err(e) ==> (e is NoTabs && inputs@.len() == 0) || (exists|i: int|
            0 <= i < inputs@.len() && #[trigger] first_bad_at(inputs@, i) && media_config_error(
                inputs@[i].0,
                inputs@[i].1@,
                e,
            )),
{
    let n = inputs.len();
    let mut idx: usize = 0;
    let mut tabs: Vec<Tab> = Vec::new();
    while idx < n
        invariant
            idx <= n,
            n == inputs@.len(),
            tabs@.len() == idx,
            forall|i: int| 0 <= i < idx ==> input_ok(#[trigger] inputs@[i]),
            forall|i: int|
                0 <= i < idx ==> built_tab_matches(
                    #[trigger] tabs@[i],
                    inputs@[i].0,
                    inputs@[i].1@,
                ) && tabs@[i].wf() && tabs@[i].focus_out(),
        decreases n - idx,
    {
        let ghost k = idx as int;
        let p = &inputs[idx];
        let media = p.1.clone();
        proof {
            broadcast use vstd::std_specs::vec::vec_clone_deep_view_proof;

            assert(media@ =~= p.1@);
        }
        match build_tab(&p.0, media) {
            Ok(t) => {
                tabs.push(t);
            },
            Err(e) => {
                proof {
                    assert(!input_ok(inputs@[k]));
                    assert(first_bad_at(inputs@, k));
                    assert(media_config_error(inputs@[k].0, inputs@[k].1@, e));
                }
                return Err(e);
            },
        }
        idx = idx + 1;
    }
    match SelectLoop::new(tabs) {
        Ok(sl) => Ok(App { cursor: AppCursor::TabList, tabs: sl }),
        Err(_) => Err(ConfigError::NoTabs),
    }
}

} // verus!
