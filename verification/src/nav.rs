//! The hierarchical navigation state machine.
//!
//! The interface is a row of tabs over a tab body; a media tab's body is a
//! list of items. Focus moves through a small hierarchy — the tab list, a
//! tab's contents, and inside the item list — and each key event is routed
//! to the scope that holds focus. A scope either consumes the key, or hands
//! it back up; a key nobody consumes is matched against the exit keys and
//! otherwise dropped silently. Each event yields exactly one effect: resume,
//! quit, or refresh after launching the selected item. The unverified shell
//! performs the launch and the screen work; this module decides everything.

use crate::event::Event;
use crate::launch::{build_launch, launch_matches, LaunchRequest};
use crate::select_loop::{next_index, prev_index, SelectLoop};
use crate::settings::{ColorSetting, CommandSetting};
use vstd::prelude::*;

verus! {

/// A key event, as far as navigation tells keys apart. Every other key the
/// terminal can report arrives as `Other` and is never consumed.
#[derive(Clone, Copy, Debug, PartialEq, Eq)]
pub enum Key {
    Up,
    Down,
    Left,
    Right,
    Esc,
    Char(char),
    Other,
}

/// Which scope of the hierarchy holds focus at the top level.
#[derive(Clone, Copy, Debug, PartialEq, Eq)]
pub enum AppCursor {
    TabList,
    TabContents,
}

/// Which scope of a media tab holds focus while its tab has focus: the list
/// as a whole, or the selection inside it.
#[derive(Clone, Copy, Debug, PartialEq, Eq)]
pub enum MediaCursor {
    MediaListOut,
    MediaListIn,
}

/// A media tab's state: its command template, its local focus, its items and
/// an optional subtitle list.
#[derive(Debug)]
pub struct MediaTab {
    pub command: CommandSetting,
    pub cursor: MediaCursor,
    pub media: SelectLoop<String>,
    pub subs: Option<SelectLoop<String>>,
}

/// A tab's kind-specific payload.
#[derive(Debug)]
pub enum TabType {
    Media(MediaTab),
    Unknown,
}

/// One configured tab, ready for display: name, resolved colors and payload.
#[derive(Debug)]
pub struct Tab {
    pub base_color: ColorSetting,
    pub highlight_color: ColorSetting,
    pub name: String,
    pub tab_type: TabType,
}

/// The whole interface state: the tab row and the top-level focus.
#[derive(Debug)]
pub struct App {
    pub cursor: AppCursor,
    pub tabs: SelectLoop<Tab>,
}

/// What a scope hands back to its parent after seeing a key: nothing (the
/// key was consumed), a request to move focus back to the tab list, the key
/// itself (unconsumed), or a launch that obliges the caller to refresh.
#[derive(Debug)]
pub enum InputResult {
    GoToTabList,
    Key(Key),
    Refresh(LaunchRequest),
}

/// The effect of one event on the program: keep going, quit, or run the
/// launch request and then rebuild the event stream and the screen.
#[derive(Debug)]
pub enum ProgramStatus {
    Quit,
    Resume,
    Refresh(LaunchRequest),
}

/// What navigation reads and moves of a media tab: its local focus and its
/// selection.
#[verifier::ext_equal]
pub ghost struct MediaView {
    pub cursor: MediaCursor,
    pub index: int,
    pub count: int,
}

/// What navigation reads and moves of the whole interface: the top-level
/// focus, the tab selection, and each tab's media view where it has one.
#[verifier::ext_equal]
pub ghost struct NavView {
    pub cursor: AppCursor,
    pub tab_index: int,
    pub tab_count: int,
    pub media: Seq<Option<MediaView>>,
}

impl MediaTab {
    /// The selections are meaningful: the item list is non-empty with its
    /// index in range, and so is the subtitle list where there is one.
    pub open spec fn wf(&self) -> bool {
        &&& self.media.well_formed()
        &&& (self.subs matches Some(s) ==> s.well_formed())
    }

    /// This tab's part of the navigation view.
    pub open spec fn nav_view(&self) -> MediaView {
        MediaView {
            cursor: self.cursor,
            index: self.media.index as int,
            count: self.media.items@.len() as int,
        }
    }

    /// The selected item's path.
    pub open spec fn selected_path(&self) -> Seq<char> {
        self.media.items@[self.media.index as int]@
    }
}

impl Tab {
    /// The payload's selections are meaningful.
    pub open spec fn wf(&self) -> bool {
        match self.tab_type {
            TabType::Media(m) => m.wf(),
            TabType::Unknown => true,
        }
    }

    /// This tab's media view, where it has one.
    pub open spec fn media_view(&self) -> Option<MediaView> {
        match self.tab_type {
            TabType::Media(m) => Some(m.nav_view()),
            TabType::Unknown => None,
        }
    }

    /// The tab holds no inner focus: focus is not inside its item list.
    pub open spec fn focus_out(&self) -> bool {
        match self.tab_type {
            TabType::Media(m) => m.cursor is MediaListOut,
            TabType::Unknown => true,
        }
    }
}

impl App {
    /// Every selection is meaningful, and no tab holds inner focus besides
    /// possibly the selected one while the tab contents have focus. In
    /// particular, whenever the tab list has focus, every media tab rests at
    /// its outer focus level.
    pub open spec fn wf(&self) -> bool {
        &&& self.tabs.well_formed()
        &&& forall|i: int|
            0 <= i < self.tabs.items@.len() ==> (#[trigger] self.tabs.items@[i]).wf()
        &&& forall|i: int|
            0 <= i < self.tabs.items@.len() && (i != self.tabs.index as int || self.cursor
                is TabList) ==> (#[trigger] self.tabs.items@[i]).focus_out()
    }

    /// The navigation view of the whole interface.
    pub open spec fn nav_view(&self) -> NavView {
        NavView {
            cursor: self.cursor,
            tab_index: self.tabs.index as int,
            tab_count: self.tabs.items@.len() as int,
            media: Seq::new(self.tabs.items@.len() as nat, |i: int| self.tabs.items@[i].media_view()),
        }
    }

    /// The selected tab.
    pub open spec fn selected_tab(&self) -> Tab {
        self.tabs.items@[self.tabs.index as int]
    }
}

/// A key that exits the program from every state.
pub open spec fn quit_key(key: Key) -> bool {
    key == Key::Esc || key == Key::Char('q')
}

/// A state and key on which the selected item is launched, obliging the
/// caller to refresh afterwards.
pub open spec fn launches(v: NavView, key: Key) -> bool {
    key == Key::Char('p') && v.cursor is TabContents && v.media[v.tab_index] is Some
}

/// One step of a media tab's local focus and selection. `Up` at the outer
/// level is not here: it moves focus out of the tab and is decided a level
/// above.
pub open spec fn media_step(m: MediaView, key: Key) -> MediaView {
    match m.cursor {
        MediaCursor::MediaListOut => if key == Key::Char('\n') {
            MediaView { cursor: MediaCursor::MediaListIn, ..m }
        } else {
            m
        },
        MediaCursor::MediaListIn => match key {
            Key::Up => MediaView { index: prev_index(m.index, m.count), ..m },
            Key::Down => MediaView { index: next_index(m.index, m.count), ..m },
            Key::Char(c) => if c == '\n' {
                MediaView { cursor: MediaCursor::MediaListOut, ..m }
            } else {
                m
            },
            _ => m,
        },
    }
}

/// One step of the navigation hierarchy on one key: the transition table of
/// the state machine. Keys that no scope consumes leave the view unchanged.
pub open spec fn nav_step(v: NavView, key: Key) -> NavView {
    match v.cursor {
        AppCursor::TabList => match key {
            Key::Left => NavView { tab_index: prev_index(v.tab_index, v.tab_count), ..v },
            Key::Right => NavView { tab_index: next_index(v.tab_index, v.tab_count), ..v },
            Key::Down => NavView { cursor: AppCursor::TabContents, ..v },
            _ => v,
        },
        AppCursor::TabContents => match v.media[v.tab_index] {
            None => v,
            Some(m) => if m.cursor is MediaListOut && key is Up {
                NavView { cursor: AppCursor::TabList, ..v }
            } else {
                NavView { media: v.media.update(v.tab_index, Some(media_step(m, key))), ..v }
            },
        },
    }
}

/// The keys a media tab consumes by moving only its own focus or selection.
pub open spec fn media_consumes(c: MediaCursor, key: Key) -> bool {
    match c {
        MediaCursor::MediaListOut => key == Key::Char('\n'),
        MediaCursor::MediaListIn => key is Up || key is Down || key == Key::Char('\n'),
    }
}

/// The keys a media tab hands back to its parent unconsumed.
pub open spec fn media_bubbles(c: MediaCursor, key: Key) -> bool {
    &&& !media_consumes(c, key)
    &&& !(c is MediaListOut && key is Up)
    &&& key != Key::Char('p')
}

/// Everything of a tab that navigation never touches: the name, the colors,
/// the media items and command, the subtitle list.
pub open spec fn same_tab_content(a: Tab, b: Tab) -> bool {
    &&& b.name@ == a.name@
    &&& b.base_color == a.base_color
    &&& b.highlight_color == a.highlight_color
    &&& match (a.tab_type, b.tab_type) {
        (TabType::Media(ma), TabType::Media(mb)) => {
            &&& mb.command.program@ == ma.command.program@
            &&& mb.command.args.deep_view() == ma.command.args.deep_view()
            &&& mb.media.items@ == ma.media.items@
            &&& mb.subs == ma.subs
        },
        (TabType::Unknown, TabType::Unknown) => true,
        _ => false,
    }
}

/// Launches the selected item: builds the concrete command from the tab's
/// template and the selected path, and obliges the caller to refresh
/// afterwards, because the launched process owns the terminal meanwhile.
pub fn play_media(media_tab: &MediaTab) -> (r: Option<InputResult>)
    requires
        media_tab.wf(),
    ensures
        r matches Some(InputResult::Refresh(req)) && launch_matches(
            req,
            media_tab.command,
            media_tab.selected_path(),
        ),
{
    let path = media_tab.media.current();
    Some(InputResult::Refresh(build_launch(&media_tab.command, path)))
}

/// Routes one key to a media tab: at the outer focus level, `Up` asks the
/// parent for focus and enter steps inside; inside, the selection moves and
/// enter steps back out; `p` launches the selected item from either level;
/// everything else bubbles up unconsumed.
pub fn handle_media_tab_input(media_tab: &mut MediaTab, key: Key) -> (r: Option<InputResult>)
    requires
        old(media_tab).wf(),
    ensures
        final(media_tab).wf(),
        final(media_tab).command.program@ == old(media_tab).command.program@,
        final(media_tab).command.args.deep_view() == old(media_tab).command.args.deep_view(),
        final(media_tab).media.items@ == old(media_tab).media.items@,
        final(media_tab).subs == old(media_tab).subs,
        old(media_tab).cursor is MediaListOut && key is Up ==> *final(media_tab) == *old(media_tab)
            && r == Some(InputResult::GoToTabList),
        !(old(media_tab).cursor is MediaListOut && key is Up) ==> final(media_tab).nav_view()
            == media_step(old(media_tab).nav_view(), key),
        key == Key::Char('p') ==> (r matches Some(InputResult::Refresh(req)) && launch_matches(
            req,
            old(media_tab).command,
            old(media_tab).selected_path(),
        )),
        (r matches Some(InputResult::Key(k)) ==> k == key),
        (r matches Some(InputResult::Key(k))) <==> media_bubbles(old(media_tab).cursor, key),
        (r is None) <==> media_consumes(old(media_tab).cursor, key),
{
    match media_tab.cursor {
        MediaCursor::MediaListOut => match key {
            Key::Up => Some(InputResult::GoToTabList),
            Key::Char('\n') => {
                media_tab.cursor = MediaCursor::MediaListIn;
                None
            },
            Key::Char('p') => play_media(media_tab),
            k => Some(InputResult::Key(k)),
        },
        MediaCursor::MediaListIn => match key {
            Key::Up => {
                media_tab.media.previous();
                None
            },
            Key::Down => {
                media_tab.media.next();
                None
            },
            Key::Char('p') => play_media(media_tab),
            Key::Char('\n') => {
                media_tab.cursor = MediaCursor::MediaListOut;
                None
            },
            k => Some(InputResult::Key(k)),
        },
    }
}

/// Routes one key to the selected tab's payload. A tab with no payload to
/// focus hands every key back unconsumed.
pub fn handle_tab_input(tab: &mut Tab, key: Key) -> (r: Option<InputResult>)
    requires
        old(tab).wf(),
    ensures
        final(tab).wf(),
        same_tab_content(*old(tab), *final(tab)),
        old(tab).tab_type is Unknown ==> *final(tab) == *old(tab) && r == Some(
            InputResult::Key(key),
        ),
        old(tab).tab_type matches TabType::Media(m) ==> {
            &&& (m.cursor is MediaListOut && key is Up ==> *final(tab) == *old(tab) && r == Some(
                InputResult::GoToTabList,
            ))
            &&& (!(m.cursor is MediaListOut && key is Up) ==> final(tab).media_view() == Some(
                media_step(m.nav_view(), key),
            ))
            &&& (key == Key::Char('p') ==> (r matches Some(InputResult::Refresh(req))
                && launch_matches(req, m.command, m.selected_path())))
            &&& ((r matches Some(InputResult::Key(k2)) ==> k2 == key))
            &&& ((r matches Some(InputResult::Key(k2))) <==> media_bubbles(m.cursor, key))
            &&& ((r is None) <==> media_consumes(m.cursor, key))
        },
        r == Some(InputResult::GoToTabList) ==> final(tab).focus_out(),
{
    match &mut tab.tab_type {
        TabType::Media(media_tab) => handle_media_tab_input(media_tab, key),
        TabType::Unknown => Some(InputResult::Key(key)),
    }
}

/// Routes one key to the tab list: left and right move the tab selection
/// circularly, down hands focus to the selected tab's contents, and every
/// other key is handed back unconsumed.
pub fn handle_tab_list_input(app: &mut App, key: Key) -> (r: Option<InputResult>)
    requires
        old(app).wf(),
        old(app).cursor is TabList,
    ensures
        final(app).wf(),
        final(app).tabs.items@ == old(app).tabs.items@,
        key is Left ==> final(app).cursor is TabList && final(app).tabs.index as int == prev_index(
            old(app).tabs.index as int,
            old(app).tabs.items@.len() as int,
        ) && r is None,
        key is Right ==> final(app).cursor is TabList && final(app).tabs.index as int == next_index(
            old(app).tabs.index as int,
            old(app).tabs.items@.len() as int,
        ) && r is None,
        key is Down ==> final(app).cursor is TabContents && final(app).tabs.index == old(
            app,
        ).tabs.index && r is None,
        !(key is Left || key is Right || key is Down) ==> *final(app) == *old(app) && r == Some(
            InputResult::Key(key),
        ),
{
    match key {
        Key::Left => {
            app.tabs.previous();
            None
        },
        Key::Right => {
            app.tabs.next();
            None
        },
        Key::Down => {
            app.cursor = AppCursor::TabContents;
            None
        },
        k => Some(InputResult::Key(k)),
    }
}

/// Consumes one event and decides the program's next move. A tick changes
/// nothing and resumes. A key moves the navigation view one step of the
/// transition table; the exit keys quit from every state, the launch key
/// over a media tab yields the refresh effect carrying the command to run,
/// and everything else resumes. Nothing but focus and selections ever
/// changes.
pub fn handle_input(app: &mut App, event: Event<Key>) -> (r: ProgramStatus)
    requires
        old(app).wf(),
    ensures
        final(app).wf(),
        final(app).tabs.items@.len() == old(app).tabs.items@.len(),
        forall|i: int|
            0 <= i < old(app).tabs.items@.len() ==> same_tab_content(
                #[trigger] old(app).tabs.items@[i],
                final(app).tabs.items@[i],
            ),
        event is Tick ==> *final(app) == *old(app) && r is Resume,
        event matches Event::Input(key) ==> {
            &&& final(app).nav_view() == nav_step(old(app).nav_view(), key)
            &&& ((r is Quit) <==> quit_key(key))
            &&& ((r is Refresh) <==> launches(old(app).nav_view(), key))
        },
        r matches ProgramStatus::Refresh(req) ==> (old(app).selected_tab().tab_type matches
            TabType::Media(m) && launch_matches(req, m.command, m.selected_path())),
{
    let ghost v0 = old(app).nav_view();
    let key = match event {
        Event::Input(k) => k,
        _ => {
            return ProgramStatus::Resume;
        },
    };

    let result = match app.cursor {
        AppCursor::TabList => {
            let res = handle_tab_list_input(app, key);
            proof {
                assert(app.nav_view() =~~= nav_step(v0, key));
                assert forall|i: int|
                    0 <= i < old(app).tabs.items@.len() implies same_tab_content(
                    #[trigger] old(app).tabs.items@[i],
                    app.tabs.items@[i],
                ) by {}
            }
            res
        },
        AppCursor::TabContents => {
            let tab = app.tabs.current_mut();
            let ghost tab0 = *tab;
            let res = handle_tab_input(tab, key);
            proof {
                let i = old(app).tabs.index as int;
                assert(v0.media[v0.tab_index] == tab0.media_view());
                assert forall|j: int|
                    0 <= j < old(app).tabs.items@.len() implies same_tab_content(
                    #[trigger] old(app).tabs.items@[j],
                    app.tabs.items@[j],
                ) by {
                    if j != i {
                        assert(app.tabs.items@[j] == old(app).tabs.items@[j]);
                    }
                }
                if tab0.tab_type matches TabType::Media(m) && m.cursor is MediaListOut && key
                    is Up {
                    assert(app.nav_view() =~~= v0);
                } else {
                    assert(app.nav_view() =~~= nav_step(v0, key));
                }
            }
            res
        },
    };

    let result = match result {
        Some(r) => r,
        None => {
            return ProgramStatus::Resume;
        },
    };

    match result {
        InputResult::Key(key) => match key {
            Key::Esc => ProgramStatus::Quit,
            Key::Char('q') => ProgramStatus::Quit,
            _ => ProgramStatus::Resume,
        },
        InputResult::GoToTabList => {
            app.cursor = AppCursor::TabList;
            proof {
                assert(app.nav_view() =~~= nav_step(v0, key));
            }
            ProgramStatus::Resume
        },
        InputResult::Refresh(req) => ProgramStatus::Refresh(req),
    }
}

/// Law of leaving a tab: whenever the tab contents hold focus at the outer
/// level of a media tab, the up key always hands focus back to the tab list.
pub proof fn lemma_up_returns_to_tab_list(app: App)
    requires
        app.wf(),
        app.cursor is TabContents,
        app.selected_tab().tab_type matches TabType::Media(m) && m.cursor is MediaListOut,
    ensures
        nav_step(app.nav_view(), Key::Up).cursor is TabList,
{
    let v = app.nav_view();
    assert(v.media[v.tab_index] == app.selected_tab().media_view());
}

/// Law of entering a tab: whenever the tab list holds focus, the down key
/// always hands focus to the selected tab's contents at the outer level —
/// never straight to the selection inside its list.
pub proof fn lemma_down_enters_list_out(app: App)
    requires
        app.wf(),
        app.cursor is TabList,
    ensures
        nav_step(app.nav_view(), Key::Down).cursor is TabContents,
        nav_step(app.nav_view(), Key::Down).media[app.nav_view().tab_index] matches Some(m)
            ==> m.cursor is MediaListOut,
{
    let v = app.nav_view();
    assert(v.media[v.tab_index] == app.selected_tab().media_view());
    assert(app.selected_tab().focus_out());
}

/// Law of the exit keys: escape and the letter q are quit keys, and by
/// `handle_input`'s contract a quit key — and nothing else — produces the
/// quit effect from every well-formed state.
pub proof fn lemma_exit_keys_quit()
    ensures
        quit_key(Key::Esc),
        quit_key(Key::Char('q')),
        forall|c: char| c != 'q' ==> !quit_key(Key::Char(c)),
{
}

} // verus!
