//! Navigation in the album and artist pages: which sub-tabs a page shows,
//! which one is selected, where the keyboard focus is, and what a key does.

use vstd::prelude::*;
use crate::about::{about_scroll_delta, scroll_about, spec_about_scroll_delta, spec_scroll};
use crate::keys::{is_down, is_enter, is_up, key_is_down, key_is_enter, key_is_up, Key};
use crate::text::{decimal, push_decimal, push_str, string_from};
use crate::tabs::{cycle_backward, cycle_forward, spec_cycle_backward, spec_cycle_forward, lemma_cycle_in_range, lemma_cycle_round_trip, lemma_cycle_steps};

verus! {

/// Which part of a page has the keyboard focus.
#[derive(Debug, Clone, Copy, PartialEq, Eq, Structural)]
pub enum OverlayFocus {
    Sidebar,
    Content,
}

/// The sub-tabs of an album page.
#[derive(Debug, Clone, Copy, PartialEq, Eq, Structural)]
pub enum AlbumTabKind {
    Tracks,
    Similar,
    About,
    GoToArtist,
}

/// What a key pressed on an album page asks for.
#[derive(Debug, Clone, Copy, PartialEq, Eq, Structural)]
pub enum AlbumAction {
    /// The key was handled by the page.
    Consumed,
    /// Close the page.
    PopOverlay,
    /// Open the page of the album's artist.
    OpenArtist,
    /// Hand the key to the track list.
    Tracks,
    /// Hand the key to the grid of similar albums.
    Similar,
}

/// The sub-tabs an album page shows: its tracks and similar albums when
/// there are any, the about text when the description is not empty, and
/// always the way to the artist, in that order.
pub open spec fn spec_album_tabs(has_tracks: bool, has_similar: bool, has_about: bool) -> Seq<AlbumTabKind> {
    let a: Seq<AlbumTabKind> = if has_tracks { seq![AlbumTabKind::Tracks] } else { seq![] };
    let b: Seq<AlbumTabKind> = if has_similar { a.push(AlbumTabKind::Similar) } else { a };
    let c: Seq<AlbumTabKind> = if has_about { b.push(AlbumTabKind::About) } else { b };
    c.push(AlbumTabKind::GoToArtist)
}

/// Navigation state of an album page.
#[derive(Debug, Clone, Copy, PartialEq, Eq, Structural)]
pub struct AlbumNav {
    pub focus: OverlayFocus,
    pub selected_sub_tab: usize,
    pub about_scroll: usize,
    pub has_tracks: bool,
    pub has_similar: bool,
    pub has_about: bool,
}

impl AlbumNav {
    /// The sub-tabs this page shows.
    pub open spec fn tabs(self) -> Seq<AlbumTabKind> {
        spec_album_tabs(self.has_tracks, self.has_similar, self.has_about)
    }

    /// The selected sub-tab, if the selection is on one.
    pub open spec fn selected(self) -> Option<AlbumTabKind> {
        if self.selected_sub_tab < self.tabs().len() {
            Some(self.tabs()[self.selected_sub_tab as int])
        } else {
            None
        }
    }

    /// The selection is on one of the sub-tabs.
    pub open spec fn wf(self) -> bool {
        self.selected_sub_tab < self.tabs().len()
    }

    /// The page after moving the selection to `selected`, with the about
    /// text scrolled back to its top.
    pub open spec fn with_selection(self, selected: usize) -> Self {
        AlbumNav { selected_sub_tab: selected, about_scroll: 0, ..self }
    }

    /// What a key does on this page and the page after it: in the
    /// sidebar, `Up`/`k` and `Down`/`j` move the selection, `Enter`,
    /// `Right` or `l` open the artist on the artist tab and focus the
    /// content otherwise, `Esc` closes the page; in the content, `Esc`
    /// goes back to the sidebar, `G` opens the artist, and the key then
    /// scrolls the about text, opens the artist on `Enter`, or goes to
    /// the selected list.
    pub open spec fn step(self, key: Key) -> (Self, AlbumAction) {
        let count = self.tabs().len() as usize;
        match self.focus {
            OverlayFocus::Sidebar => {
                if is_up(key) {
                    (self.with_selection(spec_cycle_backward(self.selected_sub_tab, count)), AlbumAction::Consumed)
                } else if is_down(key) {
                    (self.with_selection(spec_cycle_forward(self.selected_sub_tab, count)), AlbumAction::Consumed)
                } else if is_enter(key) {
                    if self.selected() == Some(AlbumTabKind::GoToArtist) {
                        (self, AlbumAction::OpenArtist)
                    } else {
                        (AlbumNav { focus: OverlayFocus::Content, ..self }, AlbumAction::Consumed)
                    }
                } else if key == Key::Esc {
                    (self, AlbumAction::PopOverlay)
                } else {
                    (self, AlbumAction::Consumed)
                }
            },
            OverlayFocus::Content => {
                if key == Key::Esc {
                    (AlbumNav { focus: OverlayFocus::Sidebar, ..self }, AlbumAction::Consumed)
                } else if key == Key::Char('G') {
                    (self, AlbumAction::OpenArtist)
                } else {
                    match self.selected() {
                        Some(AlbumTabKind::About) => match spec_about_scroll_delta(key) {
                            Some(d) => (AlbumNav { about_scroll: spec_scroll(self.about_scroll, d), ..self }, AlbumAction::Consumed),
                            None => (self, AlbumAction::Consumed),
                        },
                        Some(AlbumTabKind::GoToArtist) => {
                            if key == Key::Enter { (self, AlbumAction::OpenArtist) } else { (self, AlbumAction::Consumed) }
                        },
                        Some(AlbumTabKind::Tracks) => (self, AlbumAction::Tracks),
                        Some(AlbumTabKind::Similar) => (self, AlbumAction::Similar),
                        None => (self, AlbumAction::Consumed),
                    }
                }
            },
        }
    }

    /// A new album page: focus on the sidebar, first sub-tab selected.
    pub fn new(has_tracks: bool, has_similar: bool, has_about: bool) -> (n: Self)
        ensures
            n.focus == OverlayFocus::Sidebar,
            n.selected_sub_tab == 0,
            n.about_scroll == 0,
            n.has_tracks == has_tracks,
            n.has_similar == has_similar,
            n.has_about == has_about,
            n.wf(),
    {
        AlbumNav { focus: OverlayFocus::Sidebar, selected_sub_tab: 0, about_scroll: 0, has_tracks, has_similar, has_about }
    }

    /// The sub-tabs this page shows.
    pub fn visible_tab_kinds(&self) -> (v: Vec<AlbumTabKind>)
        ensures
            v@ == self.tabs(),
    {
        let mut v: Vec<AlbumTabKind> = Vec::new();
        if self.has_tracks {
            v.push(AlbumTabKind::Tracks);
        }
        if self.has_similar {
            v.push(AlbumTabKind::Similar);
        }
        if self.has_about {
            v.push(AlbumTabKind::About);
        }
        v.push(AlbumTabKind::GoToArtist);
        assert(v@ =~= self.tabs());
        v
    }

    /// The selected sub-tab, if the selection is on one.
    pub fn selected_tab_kind(&self) -> (k: Option<AlbumTabKind>)
        ensures
            k == self.selected(),
    {
        let tabs = self.visible_tab_kinds();
        if self.selected_sub_tab < tabs.len() {
            Some(tabs[self.selected_sub_tab])
        } else {
            None
        }
    }

    /// The labels of the sub-tabs, in order.
    pub fn tab_labels(&self) -> (v: Vec<&'static str>)
        ensures
            v.len() == self.tabs().len(),
            forall|i: int| 0 <= i < v.len() ==> #[trigger] v[i] == album_tab_label(self.tabs()[i]),
    {
        let tabs = self.visible_tab_kinds();
        let mut v: Vec<&'static str> = Vec::new();
        let mut i: usize = 0;
        while i < tabs.len()
            invariant
                i <= tabs.len(),
                tabs@ == self.tabs(),
                v.len() == i,
                forall|k: int| 0 <= k < i ==> #[trigger] v[k] == album_tab_label(self.tabs()[k]),
            decreases tabs.len() - i,
        {
            v.push(album_label(tabs[i]));
            i = i + 1;
        }
        v
    }

    /// Handles a key pressed on this page.
    pub fn handle_key(&mut self, key: Key) -> (a: AlbumAction)
        ensures
            (*final(self), a) == old(self).step(key),
    {
        let count = self.visible_tab_kinds().len();
        match self.focus {
            OverlayFocus::Sidebar => {
                if key_is_up(key) {
                    self.selected_sub_tab = cycle_backward(self.selected_sub_tab, count);
                    self.about_scroll = 0;
                    AlbumAction::Consumed
                } else if key_is_down(key) {
                    self.selected_sub_tab = cycle_forward(self.selected_sub_tab, count);
                    self.about_scroll = 0;
                    AlbumAction::Consumed
                } else if key_is_enter(key) {
                    if self.selected_tab_kind() == Some(AlbumTabKind::GoToArtist) {
                        AlbumAction::OpenArtist
                    } else {
                        self.focus = OverlayFocus::Content;
                        AlbumAction::Consumed
                    }
                } else if key == Key::Esc {
                    AlbumAction::PopOverlay
                } else {
                    AlbumAction::Consumed
                }
            },
            OverlayFocus::Content => {
                if key == Key::Esc {
                    self.focus = OverlayFocus::Sidebar;
                    AlbumAction::Consumed
                } else if key == Key::Char('G') {
                    AlbumAction::OpenArtist
                } else {
                    match self.selected_tab_kind() {
                        Some(AlbumTabKind::About) => {
                            match about_scroll_delta(key) {
                                Some(d) => {
                                    scroll_about(&mut self.about_scroll, d);
                                },
                                None => {},
                            }
                            AlbumAction::Consumed
                        },
                        Some(AlbumTabKind::GoToArtist) => {
                            if key == Key::Enter {
                                AlbumAction::OpenArtist
                            } else {
                                AlbumAction::Consumed
                            }
                        },
                        Some(AlbumTabKind::Tracks) => AlbumAction::Tracks,
                        Some(AlbumTabKind::Similar) => AlbumAction::Similar,
                        None => AlbumAction::Consumed,
                    }
                }
            },
        }
    }
}

/// The label of an album sub-tab.
pub open spec fn album_tab_label(k: AlbumTabKind) -> &'static str {
    match k {
        AlbumTabKind::Tracks => "Tracks",
        AlbumTabKind::Similar => "Similar",
        AlbumTabKind::About => "About",
        AlbumTabKind::GoToArtist => "Go to Artist",
    }
}

fn album_label(k: AlbumTabKind) -> (s: &'static str)
    ensures
        s == album_tab_label(k),
{
    match k {
        AlbumTabKind::Tracks => "Tracks",
        AlbumTabKind::Similar => "Similar",
        AlbumTabKind::About => "About",
        AlbumTabKind::GoToArtist => "Go to Artist",
    }
}

/// Every key keeps the selection of an album page on one of its sub-tabs.
pub proof fn lemma_album_step_keeps_selection(nav: AlbumNav, key: Key)
    requires
        nav.wf(),
    ensures
        nav.step(key).0.wf(),
        nav.step(key).0.tabs() == nav.tabs(),
{
    lemma_cycle_in_range(nav.selected_sub_tab, nav.tabs().len() as usize);
}

/// On an album page, `Esc` in the content returns the focus to the
/// sidebar, and `Esc` in the sidebar closes the page.
pub proof fn lemma_album_escape(nav: AlbumNav)
    ensures
        nav.focus == OverlayFocus::Content ==> nav.step(Key::Esc) == (
            AlbumNav { focus: OverlayFocus::Sidebar, ..nav },
            AlbumAction::Consumed,
        ),
        nav.focus == OverlayFocus::Sidebar ==> nav.step(Key::Esc) == (nav, AlbumAction::PopOverlay),
{
}

/// An album page shows the tracks, similar albums and about sub-tabs
/// exactly when it has them, and the way to the artist always, last.
pub proof fn lemma_album_tabs_shown(has_tracks: bool, has_similar: bool, has_about: bool)
    ensures
        spec_album_tabs(has_tracks, has_similar, has_about).contains(AlbumTabKind::Tracks) == has_tracks,
        spec_album_tabs(has_tracks, has_similar, has_about).contains(AlbumTabKind::Similar) == has_similar,
        spec_album_tabs(has_tracks, has_similar, has_about).contains(AlbumTabKind::About) == has_about,
        spec_album_tabs(has_tracks, has_similar, has_about).last() == AlbumTabKind::GoToArtist,
        has_tracks ==> spec_album_tabs(has_tracks, has_similar, has_about)[0] == AlbumTabKind::Tracks,
{
    let t = spec_album_tabs(has_tracks, has_similar, has_about);
    let a: Seq<AlbumTabKind> = if has_tracks { seq![AlbumTabKind::Tracks] } else { seq![] };
    let b: Seq<AlbumTabKind> = if has_similar { a.push(AlbumTabKind::Similar) } else { a };
    let c: Seq<AlbumTabKind> = if has_about { b.push(AlbumTabKind::About) } else { b };
    assert(t == c.push(AlbumTabKind::GoToArtist));
    if has_tracks {
        assert(t[0] == AlbumTabKind::Tracks);
    }
    if has_similar {
        assert(b[b.len() - 1] == AlbumTabKind::Similar);
        assert(t[b.len() - 1] == AlbumTabKind::Similar);
    }
    if has_about {
        assert(t[c.len() - 1] == AlbumTabKind::About);
    }
    assert(t.contains(AlbumTabKind::Tracks) ==> has_tracks) by {
        if t.contains(AlbumTabKind::Tracks) {
            let k = choose|k: int| 0 <= k < t.len() && t[k] == AlbumTabKind::Tracks;
        }
    }
    assert(t.contains(AlbumTabKind::Similar) ==> has_similar) by {
        if t.contains(AlbumTabKind::Similar) {
            let k = choose|k: int| 0 <= k < t.len() && t[k] == AlbumTabKind::Similar;
        }
    }
    assert(t.contains(AlbumTabKind::About) ==> has_about) by {
        if t.contains(AlbumTabKind::About) {
            let k = choose|k: int| 0 <= k < t.len() && t[k] == AlbumTabKind::About;
        }
    }
}

/// In the sidebar of an album page, `Up` selects the previous sub-tab
/// and `Down` the next one, wrapping around, each with the about text
/// back at its top; `Down` then `Up` returns to the sub-tab selected.
pub proof fn lemma_album_sidebar_moves(nav: AlbumNav)
    requires
        nav.wf(),
        nav.focus == OverlayFocus::Sidebar,
    ensures
        nav.step(Key::Up) == (AlbumNav {
            selected_sub_tab: if nav.selected_sub_tab == 0 { (nav.tabs().len() - 1) as usize } else { (nav.selected_sub_tab - 1) as usize },
            about_scroll: 0,
            ..nav
        }, AlbumAction::Consumed),
        nav.step(Key::Down) == (AlbumNav {
            selected_sub_tab: if nav.selected_sub_tab + 1 == nav.tabs().len() { 0 } else { (nav.selected_sub_tab + 1) as usize },
            about_scroll: 0,
            ..nav
        }, AlbumAction::Consumed),
        nav.step(Key::Down).0.step(Key::Up).0.selected_sub_tab == nav.selected_sub_tab,
{
    lemma_cycle_steps(nav.selected_sub_tab, nav.tabs().len() as usize);
    lemma_cycle_round_trip(nav.selected_sub_tab, nav.tabs().len() as usize);
}

/// With the content of an album page focused, `G` opens the artist, and
/// a key other than `Esc` and `G` goes to what the selected sub-tab shows:
/// the track list, the grid of similar albums, the about text (which
/// only scrolls), or the way to the artist (which `Enter` takes).
pub proof fn lemma_album_content_keys(nav: AlbumNav, key: Key)
    requires
        nav.focus == OverlayFocus::Content,
    ensures
        nav.step(Key::Char('G')) == (nav, AlbumAction::OpenArtist),
        key != Key::Esc && key != Key::Char('G') ==> {
            &&& nav.selected() == Some(AlbumTabKind::Tracks) ==> nav.step(key) == (nav, AlbumAction::Tracks)
            &&& nav.selected() == Some(AlbumTabKind::Similar) ==> nav.step(key) == (nav, AlbumAction::Similar)
            &&& nav.selected() == Some(AlbumTabKind::GoToArtist) ==> nav.step(key) == (nav, if key == Key::Enter {
                AlbumAction::OpenArtist
            } else {
                AlbumAction::Consumed
            })
            &&& nav.selected() == Some(AlbumTabKind::About) ==> nav.step(key) == (AlbumNav {
                about_scroll: nav.step(key).0.about_scroll,
                ..nav
            }, AlbumAction::Consumed)
        },
{
}

/// The sub-tabs of an artist page.
#[derive(Debug, Clone, Copy, PartialEq, Eq, Structural)]
pub enum ArtistTabKind {
    Albums,
    TopTracks,
    Singles,
    Live,
    Compilations,
    Similar,
    About,
}

/// What a key pressed on an artist page asks for.
#[derive(Debug, Clone, Copy, PartialEq, Eq, Structural)]
pub enum ArtistAction {
    /// The key was handled by the page.
    Consumed,
    /// Close the page.
    PopOverlay,
    /// Hand the key to the list shown for the given sub-tab.
    Content(ArtistTabKind),
}

/// Which of the lists of an artist page have entries.
#[derive(Debug, Clone, Copy, PartialEq, Eq, Structural)]
pub struct ArtistContents {
    pub albums: bool,
    pub top_tracks: bool,
    pub singles: bool,
    pub live: bool,
    pub compilations: bool,
    pub similar: bool,
    pub about: bool,
}

/// The sub-tabs an artist page shows: each list that has entries and the
/// about text when the description is not empty, in a fixed order.
pub open spec fn spec_artist_tabs(c: ArtistContents) -> Seq<ArtistTabKind> {
    let s0: Seq<ArtistTabKind> = seq![];
    let s1 = if c.albums { s0.push(ArtistTabKind::Albums) } else { s0 };
    let s2 = if c.top_tracks { s1.push(ArtistTabKind::TopTracks) } else { s1 };
    let s3 = if c.singles { s2.push(ArtistTabKind::Singles) } else { s2 };
    let s4 = if c.live { s3.push(ArtistTabKind::Live) } else { s3 };
    let s5 = if c.compilations { s4.push(ArtistTabKind::Compilations) } else { s4 };
    let s6 = if c.similar { s5.push(ArtistTabKind::Similar) } else { s5 };
    if c.about { s6.push(ArtistTabKind::About) } else { s6 }
}

/// Navigation state of an artist page.
#[derive(Debug, Clone, Copy, PartialEq, Eq, Structural)]
pub struct ArtistNav {
    pub focus: OverlayFocus,
    pub selected_sub_tab: usize,
    pub about_scroll: usize,
    pub contents: ArtistContents,
}

impl ArtistNav {
    /// The sub-tabs this page shows.
    pub open spec fn tabs(self) -> Seq<ArtistTabKind> {
        spec_artist_tabs(self.contents)
    }

    /// The selected sub-tab, if the selection is on one.
    pub open spec fn selected(self) -> Option<ArtistTabKind> {
        if self.selected_sub_tab < self.tabs().len() {
            Some(self.tabs()[self.selected_sub_tab as int])
        } else {
            None
        }
    }

    /// The selection is on one of the sub-tabs, or there are none and it
    /// is at the start.
    pub open spec fn wf(self) -> bool {
        self.selected_sub_tab < self.tabs().len() || (self.tabs().len() == 0 && self.selected_sub_tab == 0)
    }

    /// The page after moving the selection to `selected`, with the about
    /// text scrolled back to its top.
    pub open spec fn with_selection(self, selected: usize) -> Self {
        ArtistNav { selected_sub_tab: selected, about_scroll: 0, ..self }
    }

    /// What a key does on this page and the page after it: in the
    /// sidebar, `Up`/`k` and `Down`/`j` move the selection, `Enter`,
    /// `Right` or `l` focus the content, `Esc` closes the page; in the
    /// content, `Esc` goes back to the sidebar, keys scroll the about text
    /// on the about tab and go to the selected list otherwise.
    pub open spec fn step(self, key: Key) -> (Self, ArtistAction) {
        let count = self.tabs().len() as usize;
        match self.focus {
            OverlayFocus::Sidebar => {
                if is_up(key) {
                    (self.with_selection(spec_cycle_backward(self.selected_sub_tab, count)), ArtistAction::Consumed)
                } else if is_down(key) {
                    (self.with_selection(spec_cycle_forward(self.selected_sub_tab, count)), ArtistAction::Consumed)
                } else if is_enter(key) {
                    (ArtistNav { focus: OverlayFocus::Content, ..self }, ArtistAction::Consumed)
                } else if key == Key::Esc {
                    (self, ArtistAction::PopOverlay)
                } else {
                    (self, ArtistAction::Consumed)
                }
            },
            OverlayFocus::Content => {
                if key == Key::Esc {
                    (ArtistNav { focus: OverlayFocus::Sidebar, ..self }, ArtistAction::Consumed)
                } else {
                    match self.selected() {
                        Some(ArtistTabKind::About) => match spec_about_scroll_delta(key) {
                            Some(d) => (ArtistNav { about_scroll: spec_scroll(self.about_scroll, d), ..self }, ArtistAction::Consumed),
                            None => (self, ArtistAction::Consumed),
                        },
                        Some(k) => (self, ArtistAction::Content(k)),
                        None => (self, ArtistAction::Consumed),
                    }
                }
            },
        }
    }

    /// A new artist page: focus on the sidebar, first sub-tab selected.
    pub fn new(contents: ArtistContents) -> (n: Self)
        ensures
            n == (ArtistNav { focus: OverlayFocus::Sidebar, selected_sub_tab: 0, about_scroll: 0, contents }),
            n.wf(),
    {
        ArtistNav { focus: OverlayFocus::Sidebar, selected_sub_tab: 0, about_scroll: 0, contents }
    }

    /// The sub-tabs this page shows.
    pub fn visible_tab_kinds(&self) -> (v: Vec<ArtistTabKind>)
        ensures
            v@ == self.tabs(),
    {
        let c = self.contents;
        let mut v: Vec<ArtistTabKind> = Vec::new();
        if c.albums {
            v.push(ArtistTabKind::Albums);
        }
        if c.top_tracks {
            v.push(ArtistTabKind::TopTracks);
        }
        if c.singles {
            v.push(ArtistTabKind::Singles);
        }
        if c.live {
            v.push(ArtistTabKind::Live);
        }
        if c.compilations {
            v.push(ArtistTabKind::Compilations);
        }
        if c.similar {
            v.push(ArtistTabKind::Similar);
        }
        if c.about {
            v.push(ArtistTabKind::About);
        }
        assert(v@ =~= self.tabs());
        v
    }

    /// The selected sub-tab, if the selection is on one.
    pub fn selected_tab_kind(&self) -> (k: Option<ArtistTabKind>)
        ensures
            k == self.selected(),
    {
        let tabs = self.visible_tab_kinds();
        if self.selected_sub_tab < tabs.len() {
            Some(tabs[self.selected_sub_tab])
        } else {
            None
        }
    }

    /// The labels of the sub-tabs, in order.
    pub fn tab_labels(&self) -> (v: Vec<&'static str>)
        ensures
            v.len() == self.tabs().len(),
            forall|i: int| 0 <= i < v.len() ==> #[trigger] v[i] == artist_tab_label(self.tabs()[i]),
    {
        let tabs = self.visible_tab_kinds();
        let mut v: Vec<&'static str> = Vec::new();
        let mut i: usize = 0;
        while i < tabs.len()
            invariant
                i <= tabs.len(),
                tabs@ == self.tabs(),
                v.len() == i,
                forall|k: int| 0 <= k < i ==> #[trigger] v[k] == artist_tab_label(self.tabs()[k]),
            decreases tabs.len() - i,
        {
            v.push(artist_label(tabs[i]));
            i = i + 1;
        }
        v
    }

    /// Handles a key pressed on this page.
    pub fn handle_key(&mut self, key: Key) -> (a: ArtistAction)
        ensures
            (*final(self), a) == old(self).step(key),
    {
        let count = self.visible_tab_kinds().len();
        match self.focus {
            OverlayFocus::Sidebar => {
                if key_is_up(key) {
                    self.selected_sub_tab = cycle_backward(self.selected_sub_tab, count);
                    self.about_scroll = 0;
                    ArtistAction::Consumed
                } else if key_is_down(key) {
                    self.selected_sub_tab = cycle_forward(self.selected_sub_tab, count);
                    self.about_scroll = 0;
                    ArtistAction::Consumed
                } else if key_is_enter(key) {
                    self.focus = OverlayFocus::Content;
                    ArtistAction::Consumed
                } else if key == Key::Esc {
                    ArtistAction::PopOverlay
                } else {
                    ArtistAction::Consumed
                }
            },
            OverlayFocus::Content => {
                if key == Key::Esc {
                    self.focus = OverlayFocus::Sidebar;
                    ArtistAction::Consumed
                } else {
                    match self.selected_tab_kind() {
                        Some(ArtistTabKind::About) => {
                            match about_scroll_delta(key) {
                                Some(d) => {
                                    scroll_about(&mut self.about_scroll, d);
                                },
                                None => {},
                            }
                            ArtistAction::Consumed
                        },
                        Some(k) => ArtistAction::Content(k),
                        None => ArtistAction::Consumed,
                    }
                }
            },
        }
    }
}

/// The label of an artist sub-tab.
pub open spec fn artist_tab_label(k: ArtistTabKind) -> &'static str {
    match k {
        ArtistTabKind::Albums => "Albums",
        ArtistTabKind::TopTracks => "Top Tracks",
        ArtistTabKind::Singles => "Singles",
        ArtistTabKind::Live => "Live",
        ArtistTabKind::Compilations => "Compilations",
        ArtistTabKind::Similar => "Similar",
        ArtistTabKind::About => "About",
    }
}

fn artist_label(k: ArtistTabKind) -> (s: &'static str)
    ensures
        s == artist_tab_label(k),
{
    match k {
        ArtistTabKind::Albums => "Albums",
        ArtistTabKind::TopTracks => "Top Tracks",
        ArtistTabKind::Singles => "Singles",
        ArtistTabKind::Live => "Live",
        ArtistTabKind::Compilations => "Compilations",
        ArtistTabKind::Similar => "Similar",
        ArtistTabKind::About => "About",
    }
}

/// Every key keeps the selection of an artist page on one of its sub-tabs
/// (or at the start when there are none).
pub proof fn lemma_artist_step_keeps_selection(nav: ArtistNav, key: Key)
    requires
        nav.wf(),
    ensures
        nav.step(key).0.wf(),
        nav.step(key).0.tabs() == nav.tabs(),
{
    if nav.tabs().len() > 0 {
        lemma_cycle_in_range(nav.selected_sub_tab, nav.tabs().len() as usize);
    }
}

/// In the sidebar of an artist page with sub-tabs, `Up` selects the
/// previous sub-tab and `Down` the next one, wrapping around; `Down` then
/// `Up` returns to the sub-tab selected.
pub proof fn lemma_artist_sidebar_moves(nav: ArtistNav)
    requires
        nav.selected_sub_tab < nav.tabs().len(),
        nav.focus == OverlayFocus::Sidebar,
    ensures
        nav.step(Key::Up) == (ArtistNav {
            selected_sub_tab: if nav.selected_sub_tab == 0 { (nav.tabs().len() - 1) as usize } else { (nav.selected_sub_tab - 1) as usize },
            about_scroll: 0,
            ..nav
        }, ArtistAction::Consumed),
        nav.step(Key::Down) == (ArtistNav {
            selected_sub_tab: if nav.selected_sub_tab + 1 == nav.tabs().len() { 0 } else { (nav.selected_sub_tab + 1) as usize },
            about_scroll: 0,
            ..nav
        }, ArtistAction::Consumed),
        nav.step(Key::Down).0.step(Key::Up).0.selected_sub_tab == nav.selected_sub_tab,
{
    lemma_cycle_steps(nav.selected_sub_tab, nav.tabs().len() as usize);
    lemma_cycle_round_trip(nav.selected_sub_tab, nav.tabs().len() as usize);
}

/// With the content of an artist page focused, a key other than `Esc`
/// goes to the list of the selected sub-tab, unless that is the about
/// text, which only scrolls.
pub proof fn lemma_artist_content_keys(nav: ArtistNav, key: Key, kind: ArtistTabKind)
    requires
        nav.focus == OverlayFocus::Content,
        key != Key::Esc,
        nav.selected() == Some(kind),
    ensures
        kind != ArtistTabKind::About ==> nav.step(key) == (nav, ArtistAction::Content(kind)),
        kind == ArtistTabKind::About ==> nav.step(key) == (ArtistNav {
            about_scroll: nav.step(key).0.about_scroll,
            ..nav
        }, ArtistAction::Consumed),
{
}

/// The separator between the parts of a statistics or metadata line, ` · `.
pub open spec fn dot_separator() -> Seq<char> {
    seq![' ', '\u{b7}', ' ']
}

/// `parts` joined by ` · `.
pub open spec fn join_dotted(parts: Seq<Seq<char>>) -> Seq<char>
    decreases parts.len(),
{
    if parts.len() == 0 {
        seq![]
    } else if parts.len() == 1 {
        parts[0]
    } else {
        join_dotted(parts.drop_last()) + dot_separator() + parts.last()
    }
}

/// `<count> <label>` for a count that is not zero.
pub open spec fn count_part(count: usize, label: Seq<char>) -> Seq<Seq<char>> {
    if count > 0 { seq![decimal(count as nat) + seq![' '] + label] } else { seq![] }
}

/// The statistics line of an artist page: the number of albums, singles,
/// live albums and compilations, each only when there are some, joined by
/// ` · `.
pub open spec fn spec_stats_line(albums: usize, singles: usize, live: usize, compilations: usize) -> Seq<char> {
    join_dotted(
        count_part(albums, "albums"@) + count_part(singles, "singles"@) + count_part(live, "live"@)
            + count_part(compilations, "compilations"@),
    )
}

fn push_part(out: &mut Vec<char>, parts: Ghost<Seq<Seq<char>>>, any: bool, count: usize, label: &str) -> (r: (Ghost<Seq<Seq<char>>>, bool))
    requires
        old(out)@ == join_dotted(parts@),
        any == (parts@.len() > 0),
    ensures
        r.0@ == parts@ + count_part(count, label@),
        r.1 == (r.0@.len() > 0),
        final(out)@ == join_dotted(r.0@),
{
    if count > 0 {
        let ghost np = parts@ + count_part(count, label@);
        if any {
            out.push(' ');
            out.push('\u{b7}');
            out.push(' ');
        }
        push_decimal(out, count as u64);
        out.push(' ');
        push_str(out, label);
        proof {
            assert(np.drop_last() =~= parts@);
            if parts@.len() > 0 {
                assert(out@ =~= join_dotted(np.drop_last()) + dot_separator() + np.last());
            } else {
                assert(out@ =~= np[0]);
            }
        }
        (Ghost(np), true)
    } else {
        assert(parts@ + count_part(count, label@) =~= parts@);
        (Ghost(parts@), any)
    }
}

/// The statistics line of an artist page.
pub fn stats_line(albums: usize, singles: usize, live: usize, compilations: usize) -> (s: String)
    ensures
        s@ == spec_stats_line(albums, singles, live, compilations),
{
    let mut out: Vec<char> = Vec::new();
    let p0: Ghost<Seq<Seq<char>>> = Ghost(Seq::empty());
    let (p1, a1) = push_part(&mut out, p0, false, albums, "albums");
    let (p2, a2) = push_part(&mut out, p1, a1, singles, "singles");
    let (p3, a3) = push_part(&mut out, p2, a2, live, "live");
    let (p4, _a4) = push_part(&mut out, p3, a3, compilations, "compilations");
    assert(p4@ =~= count_part(albums, "albums"@) + count_part(singles, "singles"@) + count_part(live, "live"@)
        + count_part(compilations, "compilations"@));
    string_from(&out)
}

/// The kinds of detail pages, with what their titles are made of.
pub enum OverlayKind {
    Artist { name: String },
    Album { title: String },
    Playlist { title: String },
    TrackInfo { title: String },
    AddTrackToPlaylist { track_title: String },
    NewPlaylist,
    DeletePlaylist,
}

/// The title of a detail page: the name or title it shows, `Add <track>
/// to playlist`, `New playlist` or `Delete playlist`.
pub open spec fn spec_overlay_title(k: OverlayKind) -> Seq<char> {
    match k {
        OverlayKind::Artist { name } => name@,
        OverlayKind::Album { title } => title@,
        OverlayKind::Playlist { title } => title@,
        OverlayKind::TrackInfo { title } => title@,
        OverlayKind::AddTrackToPlaylist { track_title } => "Add "@ + track_title@ + " to playlist"@,
        OverlayKind::NewPlaylist => "New playlist"@,
        OverlayKind::DeletePlaylist => "Delete playlist"@,
    }
}

impl OverlayKind {
    /// The title of the page.
    pub fn title(&self) -> (t: String)
        ensures
            t@ == spec_overlay_title(*self),
    {
        match self {
            OverlayKind::Artist { name } => name.clone(),
            OverlayKind::Album { title } => title.clone(),
            OverlayKind::Playlist { title } => title.clone(),
            OverlayKind::TrackInfo { title } => title.clone(),
            OverlayKind::AddTrackToPlaylist { track_title } => {
                let mut v: Vec<char> = Vec::new();
                push_str(&mut v, "Add ");
                push_str(&mut v, track_title.as_str());
                push_str(&mut v, " to playlist");
                assert(v@ =~= "Add "@ + track_title@ + " to playlist"@);
                string_from(&v)
            },
            OverlayKind::NewPlaylist => {
                let mut v: Vec<char> = Vec::new();
                push_str(&mut v, "New playlist");
                assert(v@ =~= "New playlist"@);
                string_from(&v)
            },
            OverlayKind::DeletePlaylist => {
                let mut v: Vec<char> = Vec::new();
                push_str(&mut v, "Delete playlist");
                assert(v@ =~= "Delete playlist"@);
                string_from(&v)
            },
        }
    }
}

/// The titles shown in the breadcrumb over a stack of pages: those of the
/// three topmost pages, bottom first.
pub fn breadcrumb_titles(titles: &Vec<String>) -> (r: Vec<String>)
    ensures
        r@ == titles@.subrange(if titles.len() > 3 { titles.len() - 3 } else { 0 }, titles.len() as int),
{
    let start: usize = if titles.len() > 3 { titles.len() - 3 } else { 0 };
    let mut r: Vec<String> = Vec::new();
    let mut i: usize = start;
    while i < titles.len()
        invariant
            start <= i <= titles.len(),
            start == (if titles.len() > 3 { titles.len() - 3 } else { 0 }),
            r@ == titles@.subrange(start as int, i as int),
        decreases titles.len() - i,
    {
        r.push(titles[i].clone());
        i = i + 1;
        assert(r@ =~= titles@.subrange(start as int, i as int));
    }
    r
}

} // verus!
