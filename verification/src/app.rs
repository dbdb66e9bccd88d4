//! The interface's decisions: which screen is shown, the stack of detail
//! pages over it, the help, focus and device selection modes, and what
//! each key and each page's answer leads to.  The caller performs the
//! returned [`Effect`]s (playback controls, network requests) and reports
//! their outcome back where a decision depends on it.

use vstd::prelude::*;
use crate::keys::Key;
use crate::models::{Notification, Status, Track, copy_opt_string};
use crate::notifications::{kept, young_flags, NotificationList};
use crate::screens::{SearchFocus, SearchNav};
use crate::text::{push_decimal, push_str, string_from, decimal};

verus! {

/// The main screens, in the order of their number keys.
#[derive(Debug, Clone, Copy, PartialEq, Eq, Structural)]
pub enum Tab {
    Favorites,
    Search,
    Queue,
    Discover,
    Genres,
    Preferences,
}

impl Default for Tab {
    fn default() -> (t: Self)
        ensures
            t == Tab::Favorites,
    {
        Tab::Favorites
    }
}

/// The screen a number key opens: `1` to `6` in the order of the tabs.
pub open spec fn screen_for_key(c: char) -> Option<Tab> {
    if c == '1' { Some(Tab::Favorites) }
    else if c == '2' { Some(Tab::Search) }
    else if c == '3' { Some(Tab::Queue) }
    else if c == '4' { Some(Tab::Discover) }
    else if c == '5' { Some(Tab::Genres) }
    else if c == '6' { Some(Tab::Preferences) }
    else { None }
}

/// The name of a screen.
pub open spec fn tab_name(t: Tab) -> Seq<char> {
    match t {
        Tab::Favorites => "Favorites"@,
        Tab::Search => "Search"@,
        Tab::Queue => "Queue"@,
        Tab::Discover => "Discover"@,
        Tab::Genres => "Genres"@,
        Tab::Preferences => "Preferences"@,
    }
}

/// The position of a screen among the tabs.
pub open spec fn tab_index(t: Tab) -> usize {
    match t {
        Tab::Favorites => 0,
        Tab::Search => 1,
        Tab::Queue => 2,
        Tab::Discover => 3,
        Tab::Genres => 4,
        Tab::Preferences => 5,
    }
}

/// The screen at a position among the tabs.
pub open spec fn tab_at(i: usize) -> Tab {
    if i == 0 { Tab::Favorites }
    else if i == 1 { Tab::Search }
    else if i == 2 { Tab::Queue }
    else if i == 3 { Tab::Discover }
    else if i == 4 { Tab::Genres }
    else { Tab::Preferences }
}

/// The label of the tab at position `i`: `[<i + 1>] <name>`.
pub open spec fn tab_label(i: usize) -> Seq<char> {
    seq!['['] + decimal((i + 1) as nat) + seq![']', ' '] + tab_name(tab_at(i))
}

impl Tab {
    /// The name of this screen.
    pub fn to_string(&self) -> (s: String)
        ensures
            s@ == tab_name(*self),
    {
        let mut v: Vec<char> = Vec::new();
        match self {
            Tab::Favorites => push_str(&mut v, "Favorites"),
            Tab::Search => push_str(&mut v, "Search"),
            Tab::Queue => push_str(&mut v, "Queue"),
            Tab::Discover => push_str(&mut v, "Discover"),
            Tab::Genres => push_str(&mut v, "Genres"),
            Tab::Preferences => push_str(&mut v, "Preferences"),
        }
        assert(v@ =~= tab_name(*self));
        string_from(&v)
    }

    /// The position of this screen among the tabs.
    pub fn index(&self) -> (i: usize)
        ensures
            i == tab_index(*self),
            tab_at(i) == *self,
    {
        match self {
            Tab::Favorites => 0,
            Tab::Search => 1,
            Tab::Queue => 2,
            Tab::Discover => 3,
            Tab::Genres => 4,
            Tab::Preferences => 5,
        }
    }

    /// The screens in tab order.
    pub fn values() -> (v: Vec<Tab>)
        ensures
            v.len() == 6,
            forall|i: int| 0 <= i < 6 ==> #[trigger] v[i] == tab_at(i as usize),
    {
        vec![Tab::Favorites, Tab::Search, Tab::Queue, Tab::Discover, Tab::Genres, Tab::Preferences]
    }

    /// The labels of the tab bar, `[1] Favorites` to `[6] Preferences`.
    pub fn labels() -> (v: Vec<String>)
        ensures
            v.len() == 6,
            forall|i: int| 0 <= i < 6 ==> #[trigger] v[i]@ == tab_label(i as usize),
    {
        let tabs = Tab::values();
        let mut v: Vec<String> = Vec::new();
        let mut i: usize = 0;
        while i < 6
            invariant
                i <= 6,
                tabs.len() == 6,
                forall|k: int| 0 <= k < 6 ==> #[trigger] tabs[k] == tab_at(k as usize),
                v.len() == i,
                forall|k: int| 0 <= k < i ==> #[trigger] v[k]@ == tab_label(k as usize),
            decreases 6 - i,
        {
            let mut l: Vec<char> = Vec::new();
            l.push('[');
            push_decimal(&mut l, (i + 1) as u64);
            l.push(']');
            l.push(' ');
            let name = tabs[i].to_string();
            push_str(&mut l, name.as_str());
            assert(l@ =~= tab_label(i));
            v.push(string_from(&l));
            i = i + 1;
        }
        v
    }
}

/// What a page tells the application after it handled a key.
pub enum Output<O> {
    Consumed,
    NotConsumed,
    UpdateFavorites,
    Overlay(O),
    PopOverlay,
    PopOverlayUpdateFavorites,
    AddTrackToPlaylistOverlay(Track),
    AddTrackToPlaylistAndPopOverlay((u32, u32)),
}

/// What the application shows over the screens.
pub enum AppState<O> {
    Normal,
    /// A stack of detail pages, the last on top.
    Overlay(Vec<O>),
    Help,
    /// The Connect device list, with the selected position.
    ConnectOverlay(usize),
    Focus,
}

/// [`AppState`] with the page stack as a sequence.
pub enum StateView<O> {
    Normal,
    Overlay(Seq<O>),
    Help,
    ConnectOverlay(usize),
    Focus,
}

impl<O> AppState<O> {
    pub open spec fn view(&self) -> StateView<O> {
        match self {
            AppState::Normal => StateView::Normal,
            AppState::Overlay(v) => StateView::Overlay(v@),
            AppState::Help => StateView::Help,
            AppState::ConnectOverlay(i) => StateView::ConnectOverlay(*i),
            AppState::Focus => StateView::Focus,
        }
    }
}

/// The kind of list the player is playing from.
pub enum TracklistType {
    Album { title: String },
    Playlist { title: String },
    TopTracks { artist_name: String },
    Tracks,
}

/// What the interface reads from the player's track list.
pub struct TracklistSummary {
    pub current_track: Option<Track>,
    pub list_type: TracklistType,
    pub total: usize,
    pub current_position: usize,
}

/// What the now-playing bar and the focus screen show.
pub struct NowPlayingState {
    pub entity_title: Option<String>,
    pub playing_track: Option<Track>,
    pub tracklist_length: usize,
    pub tracklist_position: usize,
    pub status: Status,
    pub duration_ms: u32,
}

impl Default for NowPlayingState {
    fn default() -> (s: Self)
        ensures
            s.entity_title is None,
            s.playing_track is None,
            s.tracklist_length == 0,
            s.tracklist_position == 0,
            s.status == Status::Paused,
            s.duration_ms == 0,
    {
        NowPlayingState {
            entity_title: None,
            playing_track: None,
            tracklist_length: 0,
            tracklist_position: 0,
            status: Status::Paused,
            duration_ms: 0,
        }
    }
}

/// The title shown above the playing track: the album or playlist title,
/// the artist of a top-tracks list, or else the album of the track.
pub open spec fn entity_title_of(tracklist: TracklistSummary) -> Option<String> {
    match tracklist.list_type {
        TracklistType::Album { title } => Some(title),
        TracklistType::Playlist { title } => Some(title),
        TracklistType::TopTracks { artist_name } => Some(artist_name),
        TracklistType::Tracks => match tracklist.current_track {
            Some(t) => t.album_title,
            None => None,
        },
    }
}

/// The now-playing state for a track list and a playback status (the
/// position in the track is 0).
pub fn create_now_playing_state(tracklist: &TracklistSummary, status: Status) -> (s: NowPlayingState)
    ensures
        s.entity_title == entity_title_of(*tracklist),
        s.playing_track == tracklist.current_track,
        s.tracklist_length == tracklist.total,
        s.tracklist_position == tracklist.current_position,
        s.status == status,
        s.duration_ms == 0,
{
    let track = match &tracklist.current_track {
        Some(t) => Some(t.copy()),
        None => None,
    };
    let title = match &tracklist.list_type {
        TracklistType::Album { title } => Some(title.clone()),
        TracklistType::Playlist { title } => Some(title.clone()),
        TracklistType::TopTracks { artist_name } => Some(artist_name.clone()),
        TracklistType::Tracks => match &track {
            Some(t) => copy_opt_string(&t.album_title),
            None => None,
        },
    };
    NowPlayingState {
        entity_title: title,
        playing_track: track,
        tracklist_length: tracklist.total,
        status,
        tracklist_position: tracklist.current_position,
        duration_ms: 0,
    }
}

/// Work the caller performs for the application.
pub enum Effect {
    Nothing,
    ClearQueue,
    PlayPause,
    Next,
    Previous,
    JumpForward,
    JumpBackward,
    /// Reload the favorites.
    UpdateFavorites,
    /// Read whether Connect is enabled, then call `connect_check_done`.
    CheckConnectEnabled,
    /// Open the page of the album with this id (pushed with `push_popup`).
    OpenAlbum(String),
    /// Open the page of this artist (pushed with `push_popup`).
    OpenArtist { id: u32, name: Option<String> },
    /// Open the information page of the track with this id.
    OpenTrackInfo(u32),
    /// Open the page to add this track to one of the user's playlists: those
    /// that `favorites::owned_playlists` keeps.
    ShowAddToPlaylist(Track),
    /// Add a track to a playlist, then call `add_to_playlist_done`.
    AddTrackToPlaylist { track_id: u32, playlist_id: u32 },
    /// Make the Connect device at this position the active one.
    SelectConnectDevice(usize),
    /// Hand the key to the top page of the stack, then call `handle_output`.
    DispatchToOverlay,
    /// Hand the key to the given screen, then call `handle_output`.
    DispatchToScreen(Tab),
}

/// An input event, as far as the application tells them apart.
#[derive(Debug, Clone, Copy, PartialEq, Eq, Structural)]
pub enum InputEvent {
    KeyPress(Key),
    Resize,
    Other,
}

/// The application's state as the contracts speak of it.
pub struct ModelView<O> {
    pub screen: Tab,
    pub exit: bool,
    pub draw: bool,
    pub clear: bool,
    pub state: StateView<O>,
    pub search: SearchNav,
}

/// The application's decisions.
pub struct App<O> {
    pub current_screen: Tab,
    pub exit: bool,
    pub should_draw: bool,
    pub should_clear: bool,
    pub state: AppState<O>,
    pub now_playing: NowPlayingState,
    pub search: SearchNav,
}

/// The state after a page is pushed: on the stack shown so far, or on a
/// new stack when no pages are shown.
pub open spec fn push_overlay<O>(v: ModelView<O>, o: O) -> ModelView<O> {
    let stack = match v.state {
        StateView::Overlay(s) => s,
        _ => seq![],
    };
    ModelView { state: StateView::Overlay(stack.push(o)), draw: true, ..v }
}

/// The state after the top page is closed: back to the screens when it
/// was the last one; unchanged when no pages are shown.
pub open spec fn pop_overlay<O>(v: ModelView<O>) -> ModelView<O> {
    match v.state {
        StateView::Overlay(s) => {
            let rest = if s.len() > 0 { s.drop_last() } else { s };
            ModelView {
                state: if rest.len() == 0 { StateView::Normal } else { StateView::Overlay(rest) },
                draw: true,
                ..v
            }
        },
        _ => v,
    }
}

/// Whether pages are shown.
pub open spec fn is_overlay<O>(s: StateView<O>) -> bool {
    s matches StateView::Overlay(_)
}

/// What a key that no page handled does: `?` shows the help, `X` clears
/// the queue, `c` opens the device list when Connect is enabled, `I`, `G`
/// and `i` open the album, artist and information pages of the playing
/// track, `q` quits, `1` to `6` switch screens (`2` also starts editing
/// the search), space, `n`, `p`, `f` and `b` control playback, and `F`
/// shows the focus screen.
pub open spec fn spec_unhandled_key<O>(v: ModelView<O>, np: NowPlayingState, key: Key) -> (ModelView<O>, Effect) {
    let d = ModelView { draw: true, ..v };
    match key {
        Key::Char(c) => {
            if c == '?' {
                (ModelView { state: StateView::Help, ..d }, Effect::Nothing)
            } else if c == 'X' {
                (d, Effect::ClearQueue)
            } else if c == 'c' {
                (v, Effect::CheckConnectEnabled)
            } else if c == 'I' {
                match np.playing_track {
                    Some(t) => match t.album_id {
                        Some(a) => (v, Effect::OpenAlbum(a)),
                        None => (v, Effect::Nothing),
                    },
                    None => (v, Effect::Nothing),
                }
            } else if c == 'G' {
                match np.playing_track {
                    Some(t) => match t.artist_id {
                        Some(id) => (v, Effect::OpenArtist { id, name: t.artist_name }),
                        None => (v, Effect::Nothing),
                    },
                    None => (v, Effect::Nothing),
                }
            } else if c == 'i' {
                match np.playing_track {
                    Some(t) => (v, Effect::OpenTrackInfo(t.id)),
                    None => (v, Effect::Nothing),
                }
            } else if c == 'q' {
                (ModelView { exit: true, ..d }, Effect::Nothing)
            } else if screen_for_key(c) is Some {
                let s = screen_for_key(c)->0;
                let search = if s == Tab::Search { SearchNav { focus: SearchFocus::Editing } } else { v.search };
                (ModelView { screen: s, search, ..d }, Effect::Nothing)
            } else if c == ' ' {
                (d, Effect::PlayPause)
            } else if c == 'n' {
                (d, Effect::Next)
            } else if c == 'p' {
                (d, Effect::Previous)
            } else if c == 'f' {
                (d, Effect::JumpForward)
            } else if c == 'b' {
                (d, Effect::JumpBackward)
            } else if c == 'F' {
                (ModelView { state: StateView::Focus, ..d }, Effect::Nothing)
            } else {
                (v, Effect::Nothing)
            }
        },
        _ => (v, Effect::Nothing),
    }
}

/// What the answer of a page (or its error, shown as a notification)
/// leads to.
pub open spec fn spec_output_step<O>(
    v: ModelView<O>,
    np: NowPlayingState,
    key: Key,
    output: Result<Output<O>, String>,
) -> (ModelView<O>, Effect, Option<Notification>) {
    match output {
        Err(msg) => (v, Effect::Nothing, Some(Notification::Error(msg))),
        Ok(out) => match out {
            Output::Consumed => (ModelView { draw: true, ..v }, Effect::Nothing, None),
            Output::UpdateFavorites => (ModelView { draw: true, ..v }, Effect::UpdateFavorites, None),
            Output::NotConsumed => {
                let (w, e) = spec_unhandled_key(v, np, key);
                (w, e, None)
            },
            Output::Overlay(o) => (push_overlay(v, o), Effect::Nothing, None),
            Output::PopOverlay => (pop_overlay(v), Effect::Nothing, None),
            Output::PopOverlayUpdateFavorites => {
                if is_overlay(v.state) {
                    (pop_overlay(v), Effect::UpdateFavorites, None)
                } else {
                    (v, Effect::Nothing, None)
                }
            },
            Output::AddTrackToPlaylistOverlay(t) => (v, Effect::ShowAddToPlaylist(t), None),
            Output::AddTrackToPlaylistAndPopOverlay((track_id, playlist_id)) => (
                v,
                Effect::AddTrackToPlaylist { track_id, playlist_id },
                None,
            ),
        },
    }
}

/// What a key does in the focus screen: `Esc` and `F` leave it, space
/// toggles playback; other keys are not handled there.
pub open spec fn spec_focus_key<O>(v: ModelView<O>, key: Key) -> (ModelView<O>, bool, Effect) {
    if key == Key::Esc || key == Key::Char('F') {
        (ModelView { state: StateView::Normal, ..v }, true, Effect::Nothing)
    } else if key == Key::Char(' ') {
        (v, true, Effect::PlayPause)
    } else {
        (v, false, Effect::Nothing)
    }
}

/// What an input event does: a key dismisses the help (clearing the
/// screen); in the focus screen it is handled there, then as an unhandled
/// key; in the device list `Enter` selects the device (when the position
/// is on one) and closes the list, `Left`/`Up` and `Right`/`Down` move the
/// selection within the `device_count` devices, and other keys close the
/// list; with pages shown it goes to the top page, otherwise to the
/// current screen. A resize redraws.
pub open spec fn spec_event_step<O>(
    v: ModelView<O>,
    np: NowPlayingState,
    event: InputEvent,
    device_count: usize,
) -> (ModelView<O>, Effect, Option<Notification>) {
    match event {
        InputEvent::KeyPress(key) => match v.state {
            StateView::Help => (
                ModelView { state: StateView::Normal, draw: true, clear: true, ..v },
                Effect::Nothing,
                None,
            ),
            StateView::Focus => {
                let (w, handled, e) = spec_focus_key(v, key);
                let out: Output<O> = if handled { Output::Consumed } else { Output::NotConsumed };
                let (w2, e2, n) = spec_output_step(w, np, key, Ok(out));
                (ModelView { draw: true, ..w2 }, if handled { e } else { e2 }, n)
            },
            StateView::ConnectOverlay(sel) => {
                let d = ModelView { draw: true, ..v };
                if key == Key::Enter {
                    (
                        ModelView { state: StateView::Normal, ..d },
                        if sel < device_count { Effect::SelectConnectDevice(sel) } else { Effect::Nothing },
                        None,
                    )
                } else if key == Key::Left || key == Key::Up {
                    (ModelView { state: StateView::ConnectOverlay(if 0 < sel { (sel - 1) as usize } else { sel }), ..d }, Effect::Nothing, None)
                } else if key == Key::Right || key == Key::Down {
                    let last: int = if device_count == 0 { 0 } else { device_count - 1 };
                    (ModelView { state: StateView::ConnectOverlay(if sel < last { (sel + 1) as usize } else { sel }), ..d }, Effect::Nothing, None)
                } else {
                    (ModelView { state: StateView::Normal, ..d }, Effect::Nothing, None)
                }
            },
            StateView::Overlay(s) => {
                if s.len() > 0 {
                    (v, Effect::DispatchToOverlay, None)
                } else {
                    spec_output_step(v, np, key, Ok(Output::NotConsumed))
                }
            },
            StateView::Normal => (v, Effect::DispatchToScreen(v.screen), None),
        },
        InputEvent::Resize => (ModelView { draw: true, ..v }, Effect::Nothing, None),
        InputEvent::Other => (v, Effect::Nothing, None),
    }
}

/// The notifications after one was possibly added.
pub open spec fn with_notice(before: Seq<Notification>, n: Option<Notification>) -> Seq<Notification> {
    match n {
        Some(x) => before.push(x),
        None => before,
    }
}

impl<O> App<O> {
    pub open spec fn view(&self) -> ModelView<O> {
        ModelView {
            screen: self.current_screen,
            exit: self.exit,
            draw: self.should_draw,
            clear: self.should_clear,
            state: self.state.view(),
            search: self.search,
        }
    }

    /// A new application on the favorites screen, to be drawn.
    pub fn new(now_playing: NowPlayingState) -> (m: Self)
        ensures
            m.view() == (ModelView::<O> {
                screen: Tab::Favorites,
                exit: false,
                draw: true,
                clear: false,
                state: StateView::Normal,
                search: SearchNav { focus: SearchFocus::Sidebar },
            }),
            m.now_playing == now_playing,
    {
        App {
            current_screen: Tab::Favorites,
            exit: false,
            should_draw: true,
            should_clear: false,
            state: AppState::Normal,
            now_playing,
            search: SearchNav::new(),
        }
    }

    /// Pushes a page on the stack (starting a new stack when no pages are
    /// shown) and asks for a redraw.
    pub fn push_popup(&mut self, popup: O)
        ensures
            final(self).view() == push_overlay(old(self).view(), popup),
            final(self).now_playing == old(self).now_playing,
    {
        let mut taken: AppState<O> = AppState::Normal;
        std::mem::swap(&mut taken, &mut self.state);
        let mut popups = match taken {
            AppState::Overlay(v) => v,
            _ => Vec::new(),
        };
        popups.push(popup);
        self.state = AppState::Overlay(popups);
        self.should_draw = true;
    }

    fn pop_popup(&mut self)
        ensures
            final(self).view() == pop_overlay(old(self).view()),
            final(self).now_playing == old(self).now_playing,
    {
        let mut taken: AppState<O> = AppState::Normal;
        std::mem::swap(&mut taken, &mut self.state);
        match taken {
            AppState::Overlay(mut v) => {
                v.pop();
                if v.len() == 0 {
                    self.state = AppState::Normal;
                } else {
                    self.state = AppState::Overlay(v);
                }
                self.should_draw = true;
            },
            other => {
                self.state = other;
            },
        }
    }

    fn overlay_shown(&self) -> (b: bool)
        ensures
            b == is_overlay(self.state.view()),
    {
        match &self.state {
            AppState::Overlay(_) => true,
            _ => false,
        }
    }

    fn handle_unhandled_key(&mut self, key: Key) -> (e: Effect)
        ensures
            (final(self).view(), e) == spec_unhandled_key(old(self).view(), old(self).now_playing, key),
            final(self).now_playing == old(self).now_playing,
    {
        match key {
            Key::Char(c) => {
                if c == '?' {
                    self.state = AppState::Help;
                    self.should_draw = true;
                    Effect::Nothing
                } else if c == 'X' {
                    self.should_draw = true;
                    Effect::ClearQueue
                } else if c == 'c' {
                    Effect::CheckConnectEnabled
                } else if c == 'I' {
                    match &self.now_playing.playing_track {
                        Some(t) => match &t.album_id {
                            Some(a) => Effect::OpenAlbum(a.clone()),
                            None => Effect::Nothing,
                        },
                        None => Effect::Nothing,
                    }
                } else if c == 'G' {
                    match &self.now_playing.playing_track {
                        Some(t) => match t.artist_id {
                            Some(id) => Effect::OpenArtist { id, name: copy_opt_string(&t.artist_name) },
                            None => Effect::Nothing,
                        },
                        None => Effect::Nothing,
                    }
                } else if c == 'i' {
                    match &self.now_playing.playing_track {
                        Some(t) => Effect::OpenTrackInfo(t.id),
                        None => Effect::Nothing,
                    }
                } else if c == 'q' {
                    self.should_draw = true;
                    self.exit = true;
                    Effect::Nothing
                } else if c == '1' {
                    self.current_screen = Tab::Favorites;
                    self.should_draw = true;
                    Effect::Nothing
                } else if c == '2' {
                    self.search.focus_editing();
                    self.current_screen = Tab::Search;
                    self.should_draw = true;
                    Effect::Nothing
                } else if c == '3' {
                    self.current_screen = Tab::Queue;
                    self.should_draw = true;
                    Effect::Nothing
                } else if c == '4' {
                    self.current_screen = Tab::Discover;
                    self.should_draw = true;
                    Effect::Nothing
                } else if c == '5' {
                    self.current_screen = Tab::Genres;
                    self.should_draw = true;
                    Effect::Nothing
                } else if c == '6' {
                    self.current_screen = Tab::Preferences;
                    self.should_draw = true;
                    Effect::Nothing
                } else if c == ' ' {
                    self.should_draw = true;
                    Effect::PlayPause
                } else if c == 'n' {
                    self.should_draw = true;
                    Effect::Next
                } else if c == 'p' {
                    self.should_draw = true;
                    Effect::Previous
                } else if c == 'f' {
                    self.should_draw = true;
                    Effect::JumpForward
                } else if c == 'b' {
                    self.should_draw = true;
                    Effect::JumpBackward
                } else if c == 'F' {
                    self.state = AppState::Focus;
                    self.should_draw = true;
                    Effect::Nothing
                } else {
                    Effect::Nothing
                }
            },
            _ => Effect::Nothing,
        }
    }

    /// Acts on what a page answered to `key` (an error is shown as a
    /// notification).
    pub fn handle_output(&mut self, key: Key, output: Result<Output<O>, String>, notifications: &mut NotificationList) -> (e: Effect)
        ensures
            ({
                let (v, eff, n) = spec_output_step(old(self).view(), old(self).now_playing, key, output);
                &&& final(self).view() == v
                &&& e == eff
                &&& final(notifications)@ == with_notice(old(notifications)@, n)
            }),
            final(self).now_playing == old(self).now_playing,
    {
        match output {
            Err(msg) => {
                notifications.push(Notification::Error(msg));
                Effect::Nothing
            },
            Ok(out) => match out {
                Output::Consumed => {
                    self.should_draw = true;
                    Effect::Nothing
                },
                Output::UpdateFavorites => {
                    self.should_draw = true;
                    Effect::UpdateFavorites
                },
                Output::NotConsumed => self.handle_unhandled_key(key),
                Output::Overlay(o) => {
                    self.push_popup(o);
                    Effect::Nothing
                },
                Output::PopOverlay => {
                    self.pop_popup();
                    Effect::Nothing
                },
                Output::PopOverlayUpdateFavorites => {
                    if self.overlay_shown() {
                        self.pop_popup();
                        Effect::UpdateFavorites
                    } else {
                        Effect::Nothing
                    }
                },
                Output::AddTrackToPlaylistOverlay(t) => Effect::ShowAddToPlaylist(t),
                Output::AddTrackToPlaylistAndPopOverlay((track_id, playlist_id)) => {
                    Effect::AddTrackToPlaylist { track_id, playlist_id }
                },
            },
        }
    }

    /// Handles a key in the focus screen: `Esc` and `F` leave it and space
    /// toggles playback; returns whether the key was handled and the work
    /// to perform.
    pub fn handle_focus_event(&mut self, key: Key) -> (r: (bool, Effect))
        ensures
            (final(self).view(), r.0, r.1) == spec_focus_key(old(self).view(), key),
            final(self).now_playing == old(self).now_playing,
    {
        if key == Key::Esc || key == Key::Char('F') {
            self.state = AppState::Normal;
            (true, Effect::Nothing)
        } else if key == Key::Char(' ') {
            (true, Effect::PlayPause)
        } else {
            (false, Effect::Nothing)
        }
    }

    /// Acts on an input event, `device_count` being the number of Connect
    /// devices offered.
    pub fn handle_event(&mut self, event: InputEvent, device_count: usize, notifications: &mut NotificationList) -> (e: Effect)
        ensures
            ({
                let (v, eff, n) = spec_event_step(old(self).view(), old(self).now_playing, event, device_count);
                &&& final(self).view() == v
                &&& e == eff
                &&& final(notifications)@ == with_notice(old(notifications)@, n)
            }),
            final(self).now_playing == old(self).now_playing,
    {
        match event {
            InputEvent::KeyPress(key) => {
                match self.state {
                    AppState::Help => {
                        self.state = AppState::Normal;
                        self.should_draw = true;
                        self.should_clear = true;
                        Effect::Nothing
                    },
                    AppState::Focus => {
                        let (handled, e) = self.handle_focus_event(key);
                        let out: Output<O> = if handled { Output::Consumed } else { Output::NotConsumed };
                        let e2 = self.handle_output(key, Ok(out), notifications);
                        self.should_draw = true;
                        if handled { e } else { e2 }
                    },
                    AppState::ConnectOverlay(sel) => {
                        let e = if key == Key::Enter {
                            self.state = AppState::Normal;
                            if sel < device_count { Effect::SelectConnectDevice(sel) } else { Effect::Nothing }
                        } else if key == Key::Left || key == Key::Up {
                            if 0 < sel {
                                self.state = AppState::ConnectOverlay(sel - 1);
                            }
                            Effect::Nothing
                        } else if key == Key::Right || key == Key::Down {
                            if sel < device_count.saturating_sub(1) {
                                self.state = AppState::ConnectOverlay(sel + 1);
                            }
                            Effect::Nothing
                        } else {
                            self.state = AppState::Normal;
                            Effect::Nothing
                        };
                        self.should_draw = true;
                        e
                    },
                    AppState::Overlay(ref v) => {
                        if v.len() > 0 {
                            Effect::DispatchToOverlay
                        } else {
                            self.handle_output(key, Ok(Output::NotConsumed), notifications)
                        }
                    },
                    AppState::Normal => Effect::DispatchToScreen(self.current_screen),
                }
            },
            InputEvent::Resize => {
                self.should_draw = true;
                Effect::Nothing
            },
            InputEvent::Other => Effect::Nothing,
        }
    }

    /// Opens the Connect device list when the check of `c` found Connect
    /// enabled.
    pub fn connect_check_done(&mut self, enabled: bool)
        ensures
            final(self).view() == (if enabled {
                ModelView { state: StateView::ConnectOverlay(0), draw: true, ..old(self).view() }
            } else {
                old(self).view()
            }),
            final(self).now_playing == old(self).now_playing,
    {
        if enabled {
            self.state = AppState::ConnectOverlay(0);
            self.should_draw = true;
        }
    }

    /// After a track was added to a playlist (or the request failed with
    /// the given message): on success the top page is closed, favorites are
    /// reloaded and `Added to playlist` is shown; on failure the error is
    /// shown.
    pub fn add_to_playlist_done(&mut self, result: Result<(), String>, notifications: &mut NotificationList) -> (e: Effect)
        ensures
            match result {
                Ok(()) => {
                    &&& final(self).view() == ModelView { draw: true, ..pop_overlay(old(self).view()) }
                    &&& e == (if is_overlay(old(self).view().state) { Effect::UpdateFavorites } else { Effect::Nothing })
                    &&& final(notifications)@.len() == old(notifications)@.len() + 1
                    &&& final(notifications)@.drop_last() == old(notifications)@
                    &&& final(notifications)@.last() matches Notification::Info(m) && m@ == "Added to playlist"@
                },
                Err(msg) => {
                    &&& final(self).view() == ModelView { draw: true, ..old(self).view() }
                    &&& e == Effect::Nothing
                    &&& final(notifications)@ == old(notifications)@.push(Notification::Error(msg))
                },
            },
            final(self).now_playing == old(self).now_playing,
    {
        let e = match result {
            Ok(()) => {
                let e = if self.overlay_shown() {
                    self.pop_popup();
                    Effect::UpdateFavorites
                } else {
                    Effect::Nothing
                };
                let mut m: Vec<char> = Vec::new();
                push_str(&mut m, "Added to playlist");
                let msg = string_from(&m);
                notifications.push(Notification::Info(msg));
                e
            },
            Err(msg) => {
                notifications.push(Notification::Error(msg));
                Effect::Nothing
            },
        };
        self.should_draw = true;
        e
    }

    /// The player moved to `position_ms` in the track: the bar shows it
    /// (as 0 when it does not fit in 32 bits) and is redrawn.
    pub fn position_changed(&mut self, position_ms: u128)
        ensures
            final(self).now_playing.duration_ms == (if position_ms <= u32::MAX { position_ms as u32 } else { 0 }),
            final(self).now_playing.playing_track == old(self).now_playing.playing_track,
            final(self).now_playing.status == old(self).now_playing.status,
            final(self).view() == (ModelView { draw: true, ..old(self).view() }),
    {
        self.now_playing.duration_ms = if position_ms <= u32::MAX as u128 { position_ms as u32 } else { 0 };
        self.should_draw = true;
    }

    /// The player's track list changed: the now-playing state is made anew
    /// from it, keeping the playback status, and redrawn.
    pub fn tracklist_changed(&mut self, tracklist: &TracklistSummary)
        ensures
            final(self).now_playing.entity_title == entity_title_of(*tracklist),
            final(self).now_playing.playing_track == tracklist.current_track,
            final(self).now_playing.tracklist_length == tracklist.total,
            final(self).now_playing.tracklist_position == tracklist.current_position,
            final(self).now_playing.status == old(self).now_playing.status,
            final(self).now_playing.duration_ms == 0,
            final(self).view() == (ModelView { draw: true, ..old(self).view() }),
    {
        let status = self.now_playing.status;
        self.now_playing = create_now_playing_state(tracklist, status);
        self.should_draw = true;
    }

    /// The playback status changed: it is shown and redrawn.
    pub fn status_changed(&mut self, status: Status)
        ensures
            final(self).now_playing.status == status,
            final(self).now_playing.playing_track == old(self).now_playing.playing_track,
            final(self).now_playing.duration_ms == old(self).now_playing.duration_ms,
            final(self).view() == (ModelView { draw: true, ..old(self).view() }),
    {
        self.now_playing.status = status;
        self.should_draw = true;
    }

    /// A notification arrived: it is shown and redrawn.
    pub fn notification_received(&mut self, notification: Notification, notifications: &mut NotificationList)
        ensures
            final(notifications)@ == old(notifications)@.push(notification),
            final(self).view() == (ModelView { draw: true, ..old(self).view() }),
            final(self).now_playing == old(self).now_playing,
    {
        notifications.push(notification);
        self.should_draw = true;
    }

    /// The periodic check of the notifications, given the age of each in
    /// milliseconds: those five seconds old or older are removed, and when
    /// some were, the screen is cleared and redrawn.
    pub fn expire_notifications(&mut self, notifications: &mut NotificationList, ages_ms: &Vec<u128>)
        requires
            ages_ms@.len() == old(notifications)@.len(),
        ensures
            final(notifications)@ == kept(old(notifications)@, young_flags(ages_ms@)),
            final(self).view() == (if final(notifications)@.len() != old(notifications)@.len() {
                ModelView { draw: true, clear: true, ..old(self).view() }
            } else {
                old(self).view()
            }),
            final(self).now_playing == old(self).now_playing,
    {
        if notifications.retain_younger(ages_ms) {
            self.should_draw = true;
            self.should_clear = true;
        }
    }

    /// The periodic check of the notifications against the clock: what
    /// `expire_notifications` does for the ages the clock gives.
    pub fn notifications_ticked(&mut self, notifications: &mut NotificationList)
        ensures
            exists|ages: Seq<u128>| ages.len() == old(notifications)@.len() && final(notifications)@ == kept(old(notifications)@, young_flags(ages)),
            final(self).view() == (if final(notifications)@.len() != old(notifications)@.len() {
                ModelView { draw: true, clear: true, ..old(self).view() }
            } else {
                old(self).view()
            }),
            final(self).now_playing == old(self).now_playing,
    {
        let ages = notifications.ages_ms();
        self.expire_notifications(notifications, &ages);
    }

    /// What the terminal does after an event: clear the screen first when
    /// asked, then draw when asked; both requests are then done.
    pub fn take_frame_requests(&mut self) -> (r: (bool, bool))
        ensures
            r == (old(self).should_clear, old(self).should_draw),
            final(self).view() == (ModelView { draw: false, clear: false, ..old(self).view() }),
            final(self).now_playing == old(self).now_playing,
    {
        let r = (self.should_clear, self.should_draw);
        self.should_clear = false;
        self.should_draw = false;
        r
    }
}


/// Any key press dismisses the help and clears the screen.
pub proof fn lemma_help_dismissed_by_any_key<O>(v: ModelView<O>, np: NowPlayingState, key: Key, device_count: usize)
    requires
        v.state == StateView::<O>::Help,
    ensures
        spec_event_step(v, np, InputEvent::KeyPress(key), device_count).0.state == StateView::<O>::Normal,
        spec_event_step(v, np, InputEvent::KeyPress(key), device_count).0.clear,
        spec_event_step(v, np, InputEvent::KeyPress(key), device_count).0.draw,
{
}

/// Closing a page that was just opened shows again what was shown before
/// it when pages were shown, and the screens otherwise.
pub proof fn lemma_push_then_pop<O>(v: ModelView<O>, o: O)
    ensures
        pop_overlay(push_overlay(v, o)).state == (match v.state {
            StateView::Overlay(s) => if s.len() > 0 { StateView::Overlay(s) } else { StateView::<O>::Normal },
            _ => StateView::<O>::Normal,
        }),
{
    match v.state {
        StateView::Overlay(s) => {
            assert(s.push(o).drop_last() =~= s);
        },
        _ => {
            assert(Seq::<O>::empty().push(o).drop_last() =~= Seq::<O>::empty());
        },
    }
}

/// In the device list, a selection on one of the devices stays on one of
/// them whatever key is pressed.
pub proof fn lemma_connect_selection_in_range<O>(v: ModelView<O>, np: NowPlayingState, key: Key, device_count: usize, sel: usize)
    requires
        v.state == StateView::<O>::ConnectOverlay(sel),
        sel < device_count,
    ensures
        spec_event_step(v, np, InputEvent::KeyPress(key), device_count).0.state matches StateView::ConnectOverlay(s) ==> s < device_count,
{
}

/// A number key that no page handled switches to its screen.
pub proof fn lemma_number_keys_switch_screens<O>(v: ModelView<O>, np: NowPlayingState, c: char)
    requires
        screen_for_key(c) is Some,
    ensures
        spec_output_step(v, np, Key::Char(c), Ok(Output::NotConsumed)).0.screen == screen_for_key(c)->0,
{
}

/// The playback keys that no page handled control the player: space
/// toggles playback, `n` and `p` go to the next and the previous track,
/// `f` and `b` jump forwards and backwards, `X` clears the queue; each
/// redraws and leaves the screen and the pages as they are.
pub proof fn lemma_playback_keys<O>(v: ModelView<O>, np: NowPlayingState)
    ensures
        spec_output_step(v, np, Key::Char(' '), Ok(Output::NotConsumed)) == (ModelView { draw: true, ..v }, Effect::PlayPause, None::<Notification>),
        spec_output_step(v, np, Key::Char('n'), Ok(Output::NotConsumed)) == (ModelView { draw: true, ..v }, Effect::Next, None::<Notification>),
        spec_output_step(v, np, Key::Char('p'), Ok(Output::NotConsumed)) == (ModelView { draw: true, ..v }, Effect::Previous, None::<Notification>),
        spec_output_step(v, np, Key::Char('f'), Ok(Output::NotConsumed)) == (ModelView { draw: true, ..v }, Effect::JumpForward, None::<Notification>),
        spec_output_step(v, np, Key::Char('b'), Ok(Output::NotConsumed)) == (ModelView { draw: true, ..v }, Effect::JumpBackward, None::<Notification>),
        spec_output_step(v, np, Key::Char('X'), Ok(Output::NotConsumed)) == (ModelView { draw: true, ..v }, Effect::ClearQueue, None::<Notification>),
{
}

/// The other keys that no page handled: `?` shows the help, `F` the
/// focus screen, `q` quits, `c` asks whether Connect is enabled, and `1`
/// to `6` show the favorites, search (editing its query), queue,
/// discover, genres and preferences screens.
pub proof fn lemma_screen_keys<O>(v: ModelView<O>, np: NowPlayingState)
    ensures
        spec_output_step(v, np, Key::Char('?'), Ok(Output::NotConsumed)).0 == (ModelView { state: StateView::Help, draw: true, ..v }),
        spec_output_step(v, np, Key::Char('F'), Ok(Output::NotConsumed)).0 == (ModelView { state: StateView::Focus, draw: true, ..v }),
        spec_output_step(v, np, Key::Char('q'), Ok(Output::NotConsumed)).0 == (ModelView { exit: true, draw: true, ..v }),
        spec_output_step(v, np, Key::Char('c'), Ok(Output::NotConsumed)) == (v, Effect::CheckConnectEnabled, None::<Notification>),
        spec_output_step(v, np, Key::Char('1'), Ok(Output::NotConsumed)).0 == (ModelView { screen: Tab::Favorites, draw: true, ..v }),
        spec_output_step(v, np, Key::Char('2'), Ok(Output::NotConsumed)).0 == (ModelView {
            screen: Tab::Search,
            search: SearchNav { focus: SearchFocus::Editing },
            draw: true,
            ..v
        }),
        spec_output_step(v, np, Key::Char('3'), Ok(Output::NotConsumed)).0 == (ModelView { screen: Tab::Queue, draw: true, ..v }),
        spec_output_step(v, np, Key::Char('4'), Ok(Output::NotConsumed)).0 == (ModelView { screen: Tab::Discover, draw: true, ..v }),
        spec_output_step(v, np, Key::Char('5'), Ok(Output::NotConsumed)).0 == (ModelView { screen: Tab::Genres, draw: true, ..v }),
        spec_output_step(v, np, Key::Char('6'), Ok(Output::NotConsumed)).0 == (ModelView { screen: Tab::Preferences, draw: true, ..v }),
{
}

/// On the screens, with no page or mode shown, a key press goes to the
/// current screen and changes nothing yet.
pub proof fn lemma_keys_go_to_the_screen<O>(v: ModelView<O>, np: NowPlayingState, key: Key, device_count: usize)
    requires
        v.state == StateView::<O>::Normal,
    ensures
        spec_event_step(v, np, InputEvent::KeyPress(key), device_count) == (v, Effect::DispatchToScreen(v.screen), None::<Notification>),
{
}

/// In the focus screen, space toggles playback and `Esc` or `F` go back to
/// the screens; the other keys act as keys that no page handled.
pub proof fn lemma_focus_keys<O>(v: ModelView<O>, np: NowPlayingState, key: Key, device_count: usize)
    requires
        v.state == StateView::<O>::Focus,
    ensures
        spec_event_step(v, np, InputEvent::KeyPress(Key::Char(' ')), device_count).1 == Effect::PlayPause,
        spec_event_step(v, np, InputEvent::KeyPress(Key::Char(' ')), device_count).0.state == StateView::<O>::Focus,
        spec_event_step(v, np, InputEvent::KeyPress(Key::Esc), device_count).0.state == StateView::<O>::Normal,
        spec_event_step(v, np, InputEvent::KeyPress(Key::Char('F')), device_count).0.state == StateView::<O>::Normal,
        key != Key::Esc && key != Key::Char('F') && key != Key::Char(' ') ==> spec_event_step(v, np, InputEvent::KeyPress(key), device_count)
            == spec_output_step(ModelView { draw: true, ..v }, np, key, Ok(Output::NotConsumed)),
{
}

/// In the device list, `Enter` picks the device under the selection (when
/// it is one of the `device_count` devices) and closes the list;
/// `Left`/`Up` and `Right`/`Down` move the selection by one, stopping at
/// the first and the last device; any other key closes the list.
pub proof fn lemma_connect_keys<O>(v: ModelView<O>, np: NowPlayingState, key: Key, device_count: usize, sel: usize)
    requires
        v.state == StateView::<O>::ConnectOverlay(sel),
    ensures
        spec_event_step(v, np, InputEvent::KeyPress(Key::Enter), device_count) == (
            ModelView { state: StateView::Normal, draw: true, ..v },
            if sel < device_count { Effect::SelectConnectDevice(sel) } else { Effect::Nothing },
            None::<Notification>,
        ),
        (key == Key::Left || key == Key::Up) && sel > 0 ==> spec_event_step(v, np, InputEvent::KeyPress(key), device_count).0.state
            == StateView::<O>::ConnectOverlay((sel - 1) as usize),
        (key == Key::Left || key == Key::Up) && sel == 0 ==> spec_event_step(v, np, InputEvent::KeyPress(key), device_count).0.state
            == StateView::<O>::ConnectOverlay(0),
        (key == Key::Right || key == Key::Down) && sel + 1 < device_count ==> spec_event_step(v, np, InputEvent::KeyPress(key), device_count).0.state
            == StateView::<O>::ConnectOverlay((sel + 1) as usize),
        (key == Key::Right || key == Key::Down) && sel + 1 == device_count ==> spec_event_step(v, np, InputEvent::KeyPress(key), device_count).0.state
            == StateView::<O>::ConnectOverlay(sel),
        key != Key::Enter && key != Key::Left && key != Key::Up && key != Key::Right && key != Key::Down
            ==> spec_event_step(v, np, InputEvent::KeyPress(key), device_count) == (
            ModelView { state: StateView::Normal, draw: true, ..v },
            Effect::Nothing,
            None::<Notification>,
        ),
{
}

/// What the answer of a page leads to: an error becomes an error
/// notification and changes nothing else; a new page goes on top of the
/// pages shown (or starts them); the request to add a track to a
/// playlist is passed on as it came.
pub proof fn lemma_page_answers<O>(v: ModelView<O>, np: NowPlayingState, key: Key, msg: String, o: O, t: Track, ids: (u32, u32))
    ensures
        spec_output_step(v, np, key, Err(msg)) == (v, Effect::Nothing, Some(Notification::Error(msg))),
        spec_output_step(v, np, key, Ok(Output::Consumed)) == (ModelView { draw: true, ..v }, Effect::Nothing, None::<Notification>),
        spec_output_step(v, np, key, Ok(Output::UpdateFavorites)).1 == Effect::UpdateFavorites,
        spec_output_step(v, np, key, Ok(Output::Overlay(o))).0.state == StateView::Overlay(match v.state {
            StateView::Overlay(s) => s.push(o),
            _ => seq![o],
        }),
        spec_output_step(v, np, key, Ok(Output::AddTrackToPlaylistOverlay(t))) == (v, Effect::ShowAddToPlaylist(t), None::<Notification>),
        spec_output_step(v, np, key, Ok(Output::AddTrackToPlaylistAndPopOverlay(ids))) == (
            v,
            Effect::AddTrackToPlaylist { track_id: ids.0, playlist_id: ids.1 },
            None::<Notification>,
        ),
{
    match v.state {
        StateView::Overlay(s) => {},
        _ => {
            assert(Seq::<O>::empty().push(o) =~= seq![o]);
        },
    }
}

} // verus!
