//! Navigation in the main screens with a sidebar: search, discover and
//! genres.

use vstd::prelude::*;
use crate::keys::{is_down, is_enter, is_up, key_is_down, key_is_enter, key_is_up, Key};
use crate::tabs::{cycle_backward, cycle_forward, spec_cycle_backward, spec_cycle_forward, lemma_cycle_in_range, lemma_cycle_round_trip, lemma_cycle_steps};
use crate::text::{all_ws, chars_of, is_whitespace, lemma_words_empty, words};

verus! {

/// Where the keyboard focus is on the search screen.
#[derive(Debug, Clone, Copy, PartialEq, Eq, Structural)]
pub enum SearchFocus {
    Sidebar,
    Content,
    Editing,
}

/// What a key pressed on the search screen asks for.
#[derive(Debug, Clone, Copy, PartialEq, Eq, Structural)]
pub enum SearchAction {
    /// The key was handled.
    Consumed,
    /// The key is left to the enclosing screen.
    NotConsumed,
    /// Editing ended: run the search for the text typed so far.
    RunSearch,
    /// Hand the key to the text input.
    EditInput,
    /// Select the previous kind of results.
    PreviousSubTab,
    /// Select the next kind of results.
    NextSubTab,
    /// Hand the key to the selected result list.
    Content,
}

/// Navigation state of the search screen.
#[derive(Debug, Clone, Copy, PartialEq, Eq, Structural)]
pub struct SearchNav {
    pub focus: SearchFocus,
}

impl SearchNav {
    /// What a key does on the search screen and the state after it: while
    /// editing, `Esc` and `Enter` end editing and run the search, other keys
    /// edit the text; in the sidebar, `e` starts editing, `Up`/`k` and
    /// `Down`/`j` change the kind of results, `Enter`/`Right`/`l` focus the
    /// results; in the results, `e` starts editing, `Esc` returns to the
    /// sidebar and other keys go to the result list.
    pub open spec fn step(self, key: Key) -> (Self, SearchAction) {
        match self.focus {
            SearchFocus::Editing => {
                if key == Key::Esc || key == Key::Enter {
                    (SearchNav { focus: SearchFocus::Sidebar }, SearchAction::RunSearch)
                } else {
                    (self, SearchAction::EditInput)
                }
            },
            SearchFocus::Sidebar => {
                if key == Key::Char('e') {
                    (SearchNav { focus: SearchFocus::Editing }, SearchAction::Consumed)
                } else if is_up(key) {
                    (self, SearchAction::PreviousSubTab)
                } else if is_down(key) {
                    (self, SearchAction::NextSubTab)
                } else if is_enter(key) {
                    (SearchNav { focus: SearchFocus::Content }, SearchAction::Consumed)
                } else {
                    (self, SearchAction::NotConsumed)
                }
            },
            SearchFocus::Content => {
                if key == Key::Char('e') {
                    (SearchNav { focus: SearchFocus::Editing }, SearchAction::Consumed)
                } else if key == Key::Esc {
                    (SearchNav { focus: SearchFocus::Sidebar }, SearchAction::Consumed)
                } else {
                    (self, SearchAction::Content)
                }
            },
        }
    }

    /// A new search screen, with the focus on the sidebar.
    pub fn new() -> (n: Self)
        ensures
            n.focus == SearchFocus::Sidebar,
    {
        SearchNav { focus: SearchFocus::Sidebar }
    }

    /// Puts the focus on the text input.
    pub fn focus_editing(&mut self)
        ensures
            final(self).focus == SearchFocus::Editing,
    {
        self.focus = SearchFocus::Editing;
    }

    /// Handles a key pressed on the search screen.
    pub fn handle_key(&mut self, key: Key) -> (a: SearchAction)
        ensures
            (*final(self), a) == old(self).step(key),
    {
        match self.focus {
            SearchFocus::Editing => {
                if key == Key::Esc || key == Key::Enter {
                    self.focus = SearchFocus::Sidebar;
                    SearchAction::RunSearch
                } else {
                    SearchAction::EditInput
                }
            },
            SearchFocus::Sidebar => {
                if key == Key::Char('e') {
                    self.focus = SearchFocus::Editing;
                    SearchAction::Consumed
                } else if key_is_up(key) {
                    SearchAction::PreviousSubTab
                } else if key_is_down(key) {
                    SearchAction::NextSubTab
                } else if key_is_enter(key) {
                    self.focus = SearchFocus::Content;
                    SearchAction::Consumed
                } else {
                    SearchAction::NotConsumed
                }
            },
            SearchFocus::Content => {
                if key == Key::Char('e') {
                    self.focus = SearchFocus::Editing;
                    SearchAction::Consumed
                } else if key == Key::Esc {
                    self.focus = SearchFocus::Sidebar;
                    SearchAction::Consumed
                } else {
                    SearchAction::Content
                }
            },
        }
    }
}

/// On the search screen, `e` starts editing the query from the sidebar
/// and from the results; while editing, `Esc` and `Enter` run the search
/// and return to the sidebar, and any other key edits the query.
pub proof fn lemma_search_editing(nav: SearchNav, key: Key)
    ensures
        nav.focus != SearchFocus::Editing ==> nav.step(Key::Char('e')) == (
            SearchNav { focus: SearchFocus::Editing },
            SearchAction::Consumed,
        ),
        nav.focus == SearchFocus::Editing ==> nav.step(key) == (if key == Key::Esc || key == Key::Enter {
            (SearchNav { focus: SearchFocus::Sidebar }, SearchAction::RunSearch)
        } else {
            (nav, SearchAction::EditInput)
        }),
{
}

/// On the search screen, in the sidebar `Up`/`k` and `Down`/`j` select the
/// previous and the next kind of results and `Enter`/`Right`/`l` focus
/// the results; in the results `Esc` returns to the sidebar and a key
/// other than `e` and `Esc` goes to the result list.
pub proof fn lemma_search_moves(nav: SearchNav, key: Key)
    ensures
        nav.focus == SearchFocus::Sidebar && (key == Key::Up || key == Key::Char('k')) ==> nav.step(key) == (nav, SearchAction::PreviousSubTab),
        nav.focus == SearchFocus::Sidebar && (key == Key::Down || key == Key::Char('j')) ==> nav.step(key) == (nav, SearchAction::NextSubTab),
        nav.focus == SearchFocus::Sidebar && (key == Key::Enter || key == Key::Right || key == Key::Char('l')) ==> nav.step(key) == (
            SearchNav { focus: SearchFocus::Content },
            SearchAction::Consumed,
        ),
        nav.focus == SearchFocus::Content ==> nav.step(Key::Esc) == (SearchNav { focus: SearchFocus::Sidebar }, SearchAction::Consumed),
        nav.focus == SearchFocus::Content && key != Key::Esc && key != Key::Char('e') ==> nav.step(key) == (nav, SearchAction::Content),
{
}

/// Whether a search is run for the typed text: only when it holds
/// something other than white space, that is when it has a word.
pub fn should_search(filter: &str) -> (b: bool)
    ensures
        b == !all_ws(filter@),
        b == (words(filter@).len() > 0),
{
    proof { lemma_words_empty(filter@); }
    let cs = chars_of(filter);
    let mut i: usize = 0;
    while i < cs.len()
        invariant
            i <= cs.len(),
            cs@ == filter@,
            forall|k: int| 0 <= k < i ==> crate::text::is_ws(#[trigger] cs@[k]),
        decreases cs.len() - i,
    {
        if !is_whitespace(cs[i]) {
            assert(!crate::text::is_ws(filter@[i as int]));
            proof { lemma_words_empty(filter@); }
            return true;
        }
        i = i + 1;
    }
    false
}

/// Where the keyboard focus is on a screen with a sidebar.
#[derive(Debug, Clone, Copy, PartialEq, Eq, Structural)]
pub enum SidebarFocus {
    Sidebar,
    Content,
}

/// A section of the discover screen or of a genre: one of the album lists
/// or one of the playlist lists, by index.
#[derive(Debug, Clone, Copy, PartialEq, Eq, Structural)]
pub enum Section {
    Album(usize),
    Playlist(usize),
}

/// What a key pressed on a screen with sections asks for.
#[derive(Debug, Clone, Copy, PartialEq, Eq, Structural)]
pub enum SectionAction {
    Consumed,
    NotConsumed,
    /// Hand the key to the list of the given section.
    Content(Section),
}

/// Navigation state of the discover screen: its album sections come
/// first in the sidebar, then its playlist sections.
#[derive(Debug, Clone, Copy, PartialEq, Eq, Structural)]
pub struct DiscoverNav {
    pub focus: SidebarFocus,
    pub selected_sub_tab: usize,
    pub album_sections: usize,
    pub playlist_sections: usize,
}

impl DiscoverNav {
    /// The number of sections in the sidebar (saturating).
    pub open spec fn count(self) -> usize {
        if self.album_sections + self.playlist_sections > usize::MAX {
            usize::MAX
        } else {
            (self.album_sections + self.playlist_sections) as usize
        }
    }

    /// The selected section, if the selection is on one.
    pub open spec fn selected(self) -> Option<Section> {
        if self.selected_sub_tab < self.album_sections {
            Some(Section::Album(self.selected_sub_tab))
        } else if self.selected_sub_tab - self.album_sections < self.playlist_sections {
            Some(Section::Playlist((self.selected_sub_tab - self.album_sections) as usize))
        } else {
            None
        }
    }

    /// What a key does on the discover screen and the state after it: in
    /// the sidebar, `Up`/`k` and `Down`/`j` move the selection through the
    /// sections, `Enter`/`Right`/`l` focus the content, other keys are
    /// left to the enclosing screen; in the content, `Esc` returns to the
    /// sidebar and other keys go to the selected section.
    pub open spec fn step(self, key: Key) -> (Self, SectionAction) {
        match self.focus {
            SidebarFocus::Sidebar => {
                if is_up(key) {
                    (DiscoverNav { selected_sub_tab: spec_cycle_backward(self.selected_sub_tab, self.count()), ..self }, SectionAction::Consumed)
                } else if is_down(key) {
                    (DiscoverNav { selected_sub_tab: spec_cycle_forward(self.selected_sub_tab, self.count()), ..self }, SectionAction::Consumed)
                } else if is_enter(key) {
                    (DiscoverNav { focus: SidebarFocus::Content, ..self }, SectionAction::Consumed)
                } else {
                    (self, SectionAction::NotConsumed)
                }
            },
            SidebarFocus::Content => {
                if key == Key::Esc {
                    (DiscoverNav { focus: SidebarFocus::Sidebar, ..self }, SectionAction::Consumed)
                } else {
                    match self.selected() {
                        Some(s) => (self, SectionAction::Content(s)),
                        None => (self, SectionAction::NotConsumed),
                    }
                }
            },
        }
    }

    /// A new discover screen with the given numbers of sections.
    pub fn new(album_sections: usize, playlist_sections: usize) -> (n: Self)
        ensures
            n == (DiscoverNav { focus: SidebarFocus::Sidebar, selected_sub_tab: 0, album_sections, playlist_sections }),
    {
        DiscoverNav { focus: SidebarFocus::Sidebar, selected_sub_tab: 0, album_sections, playlist_sections }
    }

    /// The selected section, if the selection is on one.
    pub fn selected_section(&self) -> (s: Option<Section>)
        ensures
            s == self.selected(),
    {
        if self.selected_sub_tab < self.album_sections {
            Some(Section::Album(self.selected_sub_tab))
        } else if self.selected_sub_tab - self.album_sections < self.playlist_sections {
            Some(Section::Playlist(self.selected_sub_tab - self.album_sections))
        } else {
            None
        }
    }

    /// Handles a key pressed on the discover screen.
    pub fn handle_key(&mut self, key: Key) -> (a: SectionAction)
        ensures
            (*final(self), a) == old(self).step(key),
    {
        let count = self.album_sections.saturating_add(self.playlist_sections);
        match self.focus {
            SidebarFocus::Sidebar => {
                if key_is_up(key) {
                    self.selected_sub_tab = cycle_backward(self.selected_sub_tab, count);
                    SectionAction::Consumed
                } else if key_is_down(key) {
                    self.selected_sub_tab = cycle_forward(self.selected_sub_tab, count);
                    SectionAction::Consumed
                } else if key_is_enter(key) {
                    self.focus = SidebarFocus::Content;
                    SectionAction::Consumed
                } else {
                    SectionAction::NotConsumed
                }
            },
            SidebarFocus::Content => {
                if key == Key::Esc {
                    self.focus = SidebarFocus::Sidebar;
                    SectionAction::Consumed
                } else {
                    match self.selected_section() {
                        Some(s) => SectionAction::Content(s),
                        None => SectionAction::NotConsumed,
                    }
                }
            },
        }
    }
}

/// Number of album sections of a genre.
pub const GENRE_ALBUM_SECTIONS: usize = 6;

/// The labels of the album sections of the discover screen and of each
/// genre, in order.
pub fn album_section_labels() -> (v: Vec<&'static str>)
    ensures
        v@ == seq!["New releases", "Qobuzissime", "Essential Discography", "Album of the week", "Press Accolades", "Most streamed"],
{
    let v = vec!["New releases", "Qobuzissime", "Essential Discography", "Album of the week", "Press Accolades", "Most streamed"];
    assert(v@ =~= seq!["New releases", "Qobuzissime", "Essential Discography", "Album of the week", "Press Accolades", "Most streamed"]);
    v
}

/// Whether the genre list or the page of one genre is shown.
#[derive(Debug, Clone, Copy, PartialEq, Eq, Structural)]
pub enum GenresMode {
    GenreList,
    GenreDetail,
}

/// What a key pressed on the genres screen asks for.
#[derive(Debug, Clone, Copy, PartialEq, Eq, Structural)]
pub enum GenresAction {
    Consumed,
    NotConsumed,
    /// Load the sections of the genre at the given position, then call
    /// `genre_loaded` to open its page.
    LoadGenre(usize),
    /// Hand the key to the list of the given section.
    Content(Section),
}

/// Which of the six album sections of a genre (new releases, Qobuzissime,
/// essential discography, album of the week, press accolades, most
/// streamed) have entries.
#[derive(Debug, Clone, Copy, PartialEq, Eq, Structural)]
pub struct SectionFlags {
    pub new_releases: bool,
    pub qobuzissims: bool,
    pub ideal_discography: bool,
    pub album_of_the_week: bool,
    pub press_awards: bool,
    pub most_streamed: bool,
}

impl SectionFlags {
    /// Whether the section at position `i` has entries.
    pub open spec fn at(self, i: int) -> bool {
        if i == 0 { self.new_releases }
        else if i == 1 { self.qobuzissims }
        else if i == 2 { self.ideal_discography }
        else if i == 3 { self.album_of_the_week }
        else if i == 4 { self.press_awards }
        else { self.most_streamed }
    }

    /// Whether the section at position `i` has entries.
    pub fn get(&self, i: usize) -> (b: bool)
        ensures
            b == self.at(i as int),
    {
        if i == 0 { self.new_releases }
        else if i == 1 { self.qobuzissims }
        else if i == 2 { self.ideal_discography }
        else if i == 3 { self.album_of_the_week }
        else if i == 4 { self.press_awards }
        else { self.most_streamed }
    }

    /// No section has entries.
    pub fn none() -> (f: Self)
        ensures
            forall|i: int| 0 <= i < 6 ==> !f.at(i),
    {
        SectionFlags {
            new_releases: false,
            qobuzissims: false,
            ideal_discography: false,
            album_of_the_week: false,
            press_awards: false,
            most_streamed: false,
        }
    }
}

/// The album sections of the selected genre that have entries, in order.
pub open spec fn visible_albums(albums: SectionFlags) -> Seq<usize> {
    Seq::new(6, |i: int| i as usize).filter(|i: usize| albums.at(i as int))
}

/// The genre grid over `count` genres, two to a row: each cell holds a
/// genre's position (row times two plus column) and whether it is
/// `selected`.
pub open spec fn spec_genre_grid(count: nat, selected: nat) -> Seq<Seq<(usize, bool)>> {
    Seq::new(
        (count + 1) / 2,
        |r: int|
            Seq::new(
                if 2 * r + 1 < count { 2nat } else { 1nat },
                |c: int| ((2 * r + c) as usize, 2 * r + c == selected),
            ),
    )
}

/// Navigation state of the genres screen: a grid of genres two wide, and
/// for the opened genre its non-empty album sections followed by its
/// playlist sections.
#[derive(Debug, Clone, Copy, PartialEq, Eq, Structural)]
pub struct GenresNav {
    pub genre_count: usize,
    pub selected_genre: usize,
    pub selected_sub_tab: usize,
    pub mode: GenresMode,
    pub focus: SidebarFocus,
    /// Which album sections of the opened genre have entries.
    pub album_nonempty: SectionFlags,
    /// How many playlist sections the opened genre has.
    pub playlist_count: usize,
}

impl GenresNav {
    /// The album sections shown for the opened genre.
    pub open spec fn visible(self) -> Seq<usize> {
        visible_albums(self.album_nonempty)
    }

    /// The number of sections in the sidebar of the opened genre.
    pub open spec fn spec_total_tabs(self) -> usize {
        if self.visible().len() + self.playlist_count > usize::MAX {
            usize::MAX
        } else {
            (self.visible().len() + self.playlist_count) as usize
        }
    }

    /// The selected section of the opened genre, if any.
    pub open spec fn selected(self) -> Option<Section> {
        let v = self.visible();
        if self.selected_sub_tab < v.len() {
            Some(Section::Album(v[self.selected_sub_tab as int]))
        } else if self.selected_sub_tab - v.len() < self.playlist_count {
            Some(Section::Playlist((self.selected_sub_tab - v.len()) as usize))
        } else {
            None
        }
    }

    /// What a key does in the genre list: `Up`/`k` and `Down`/`j` move by
    /// a row of two, `Left`/`h` and `Right`/`l` by one, each only when the
    /// move stays in the list; `Enter` loads the selected genre.
    pub open spec fn list_step(self, key: Key) -> (Self, GenresAction) {
        if is_up(key) {
            (if self.selected_genre >= 2 { GenresNav { selected_genre: (self.selected_genre - 2) as usize, ..self } } else { self }, GenresAction::Consumed)
        } else if is_down(key) {
            (if self.selected_genre + 2 < self.genre_count { GenresNav { selected_genre: (self.selected_genre + 2) as usize, ..self } } else { self }, GenresAction::Consumed)
        } else if key == Key::Left || key == Key::Char('h') {
            (if self.selected_genre > 0 { GenresNav { selected_genre: (self.selected_genre - 1) as usize, ..self } } else { self }, GenresAction::Consumed)
        } else if key == Key::Right || key == Key::Char('l') {
            (if self.selected_genre + 1 < self.genre_count { GenresNav { selected_genre: (self.selected_genre + 1) as usize, ..self } } else { self }, GenresAction::Consumed)
        } else if key == Key::Enter {
            (self, GenresAction::LoadGenre(self.selected_genre))
        } else {
            (self, GenresAction::NotConsumed)
        }
    }

    /// What a key does on the page of a genre: `Esc` and `q` go back to the
    /// list; in the sidebar `Up`/`k` and `Down`/`j` move through the
    /// sections and `Enter`/`Right`/`l` focus the content; in the content
    /// keys go to the selected section.
    pub open spec fn detail_step(self, key: Key) -> (Self, GenresAction) {
        if key == Key::Esc || key == Key::Char('q') {
            (GenresNav { mode: GenresMode::GenreList, focus: SidebarFocus::Sidebar, ..self }, GenresAction::Consumed)
        } else {
            match self.focus {
                SidebarFocus::Sidebar => {
                    if is_up(key) {
                        (GenresNav { selected_sub_tab: spec_cycle_backward(self.selected_sub_tab, self.spec_total_tabs()), ..self }, GenresAction::Consumed)
                    } else if is_down(key) {
                        (GenresNav { selected_sub_tab: spec_cycle_forward(self.selected_sub_tab, self.spec_total_tabs()), ..self }, GenresAction::Consumed)
                    } else if is_enter(key) {
                        (GenresNav { focus: SidebarFocus::Content, ..self }, GenresAction::Consumed)
                    } else {
                        (self, GenresAction::NotConsumed)
                    }
                },
                SidebarFocus::Content => {
                    match self.selected() {
                        Some(s) => (self, GenresAction::Content(s)),
                        None => (self, GenresAction::NotConsumed),
                    }
                },
            }
        }
    }

    /// What a key does on the genres screen.
    pub open spec fn step(self, key: Key) -> (Self, GenresAction) {
        match self.mode {
            GenresMode::GenreList => self.list_step(key),
            GenresMode::GenreDetail => self.detail_step(key),
        }
    }

    /// A new genres screen over `genre_count` genres, showing the list.
    pub fn new(genre_count: usize) -> (n: Self)
        ensures
            n.genre_count == genre_count,
            n.selected_genre == 0,
            n.selected_sub_tab == 0,
            n.mode == GenresMode::GenreList,
            n.focus == SidebarFocus::Sidebar,
    {
        GenresNav {
            genre_count,
            selected_genre: 0,
            selected_sub_tab: 0,
            mode: GenresMode::GenreList,
            focus: SidebarFocus::Sidebar,
            album_nonempty: SectionFlags::none(),
            playlist_count: 0,
        }
    }

    /// The genre list as a grid two wide: for each row, the positions of
    /// its genres (two, or one in a last odd row) and whether each is the
    /// selected one.
    pub fn genre_grid(&self) -> (g: Vec<Vec<(usize, bool)>>)
        ensures
            g@.map_values(|row: Vec<(usize, bool)>| row@) == spec_genre_grid(
                self.genre_count as nat,
                self.selected_genre as nat,
            ),
    {
        let count = self.genre_count;
        let rows: usize = count / 2 + count % 2;
        let ghost want = spec_genre_grid(count as nat, self.selected_genre as nat);
        let mut g: Vec<Vec<(usize, bool)>> = Vec::new();
        let mut r: usize = 0;
        while r < rows
            invariant
                rows == (count + 1) / 2,
                count == self.genre_count,
                want == spec_genre_grid(count as nat, self.selected_genre as nat),
                r <= rows,
                g.len() == r,
                forall|k: int| 0 <= k < r ==> (#[trigger] g@[k])@ == want[k],
            decreases rows - r,
        {
            let idx: usize = 2 * r;
            let mut row: Vec<(usize, bool)> = Vec::new();
            row.push((idx, idx == self.selected_genre));
            if idx + 1 < count {
                row.push((idx + 1, idx + 1 == self.selected_genre));
            }
            assert(row@ =~= want[r as int]);
            g.push(row);
            r = r + 1;
        }
        assert(g@.map_values(|row: Vec<(usize, bool)>| row@) =~= want);
        g
    }

    /// The album sections shown for the opened genre.
    pub fn visible_album_indices(&self) -> (v: Vec<usize>)
        ensures
            v@ == self.visible(),
    {
        let mut v: Vec<usize> = Vec::new();
        let mut i: usize = 0;
        let ghost all = Seq::new(6, |k: int| k as usize);
        while i < GENRE_ALBUM_SECTIONS
            invariant
                i <= 6,
                all == Seq::new(6, |k: int| k as usize),
                v@ == all.take(i as int).filter(|k: usize| self.album_nonempty.at(k as int)),
            decreases 6 - i,
        {
            proof {
                reveal_with_fuel(Seq::<_>::filter, 1);
                assert(all.take(i + 1).drop_last() =~= all.take(i as int));
            }
            if self.album_nonempty.get(i) {
                v.push(i);
            }
            i = i + 1;
        }
        assert(all.take(6) =~= all);
        v
    }

    /// The selected section of the opened genre, if any.
    pub fn current_subtab(&self) -> (s: Option<Section>)
        ensures
            s == self.selected(),
    {
        let v = self.visible_album_indices();
        if self.selected_sub_tab < v.len() {
            Some(Section::Album(v[self.selected_sub_tab]))
        } else if self.selected_sub_tab - v.len() < self.playlist_count {
            Some(Section::Playlist(self.selected_sub_tab - v.len()))
        } else {
            None
        }
    }

    /// The number of sections in the sidebar of the opened genre.
    pub fn total_tabs(&self) -> (n: usize)
        ensures
            n == self.spec_total_tabs(),
    {
        self.visible_album_indices().len().saturating_add(self.playlist_count)
    }

    /// Opens the page of the genre whose sections were just loaded.
    pub fn genre_loaded(&mut self, album_nonempty: SectionFlags, playlist_count: usize)
        ensures
            *final(self) == (GenresNav {
                mode: GenresMode::GenreDetail,
                selected_sub_tab: 0,
                focus: SidebarFocus::Sidebar,
                album_nonempty,
                playlist_count,
                ..*old(self)
            }),
    {
        self.album_nonempty = album_nonempty;
        self.playlist_count = playlist_count;
        self.mode = GenresMode::GenreDetail;
        self.selected_sub_tab = 0;
        self.focus = SidebarFocus::Sidebar;
    }

    /// Handles a key pressed on the genres screen.
    pub fn handle_key(&mut self, key: Key) -> (a: GenresAction)
        ensures
            (*final(self), a) == old(self).step(key),
    {
        match self.mode {
            GenresMode::GenreList => {
                if key_is_up(key) {
                    if self.selected_genre >= 2 {
                        self.selected_genre = self.selected_genre - 2;
                    }
                    GenresAction::Consumed
                } else if key_is_down(key) {
                    if self.selected_genre.saturating_add(2) < self.genre_count {
                        self.selected_genre = self.selected_genre + 2;
                    }
                    GenresAction::Consumed
                } else if key == Key::Left || key == Key::Char('h') {
                    if self.selected_genre > 0 {
                        self.selected_genre = self.selected_genre - 1;
                    }
                    GenresAction::Consumed
                } else if key == Key::Right || key == Key::Char('l') {
                    if self.selected_genre.saturating_add(1) < self.genre_count {
                        self.selected_genre = self.selected_genre + 1;
                    }
                    GenresAction::Consumed
                } else if key == Key::Enter {
                    GenresAction::LoadGenre(self.selected_genre)
                } else {
                    GenresAction::NotConsumed
                }
            },
            GenresMode::GenreDetail => {
                if key == Key::Esc || key == Key::Char('q') {
                    self.mode = GenresMode::GenreList;
                    self.focus = SidebarFocus::Sidebar;
                    GenresAction::Consumed
                } else {
                    match self.focus {
                        SidebarFocus::Sidebar => {
                            let total = self.total_tabs();
                            if key_is_up(key) {
                                self.selected_sub_tab = cycle_backward(self.selected_sub_tab, total);
                                GenresAction::Consumed
                            } else if key_is_down(key) {
                                self.selected_sub_tab = cycle_forward(self.selected_sub_tab, total);
                                GenresAction::Consumed
                            } else if key_is_enter(key) {
                                self.focus = SidebarFocus::Content;
                                GenresAction::Consumed
                            } else {
                                GenresAction::NotConsumed
                            }
                        },
                        SidebarFocus::Content => {
                            match self.current_subtab() {
                                Some(s) => GenresAction::Content(s),
                                None => GenresAction::NotConsumed,
                            }
                        },
                    }
                }
            },
        }
    }
}

/// In the genre list, a selection inside the list stays inside it.
pub proof fn lemma_genre_list_in_range(nav: GenresNav, key: Key)
    requires
        nav.mode == GenresMode::GenreList,
        nav.selected_genre < nav.genre_count,
    ensures
        nav.step(key).0.selected_genre < nav.genre_count,
        nav.step(key).0.genre_count == nav.genre_count,
{
}

/// In the genre list, moving down a row and back up (or right and back
/// left) returns to the same genre when the first move was possible.
pub proof fn lemma_genre_list_round_trip(nav: GenresNav)
    requires
        nav.mode == GenresMode::GenreList,
    ensures
        nav.selected_genre + 2 < nav.genre_count ==> nav.step(Key::Down).0.step(Key::Up).0 == nav,
        nav.selected_genre + 1 < nav.genre_count ==> nav.step(Key::Right).0.step(Key::Left).0 == nav,
{
}

/// On the page of a genre, the selection stays on one of its sections.
pub proof fn lemma_genre_detail_in_range(nav: GenresNav, key: Key)
    requires
        nav.mode == GenresMode::GenreDetail,
        nav.selected_sub_tab < nav.spec_total_tabs(),
    ensures
        nav.step(key).0.selected_sub_tab < nav.spec_total_tabs(),
{
    lemma_cycle_in_range(nav.selected_sub_tab, nav.spec_total_tabs());
}

/// In the sidebar of a genre's page, `Up` selects the previous section and
/// `Down` the next one, wrapping around; `Down` then `Up` returns to the
/// section selected; `Esc` and `q` go back to the genre list.
pub proof fn lemma_genre_detail_moves(nav: GenresNav)
    requires
        nav.mode == GenresMode::GenreDetail,
        nav.focus == SidebarFocus::Sidebar,
        nav.selected_sub_tab < nav.spec_total_tabs(),
    ensures
        nav.step(Key::Up) == (GenresNav {
            selected_sub_tab: if nav.selected_sub_tab == 0 { (nav.spec_total_tabs() - 1) as usize } else { (nav.selected_sub_tab - 1) as usize },
            ..nav
        }, GenresAction::Consumed),
        nav.step(Key::Down) == (GenresNav {
            selected_sub_tab: if nav.selected_sub_tab + 1 == nav.spec_total_tabs() { 0 } else { (nav.selected_sub_tab + 1) as usize },
            ..nav
        }, GenresAction::Consumed),
        nav.step(Key::Down).0.step(Key::Up).0 == nav,
        nav.step(Key::Esc) == (GenresNav { mode: GenresMode::GenreList, ..nav }, GenresAction::Consumed),
        nav.step(Key::Char('q')) == (GenresNav { mode: GenresMode::GenreList, ..nav }, GenresAction::Consumed),
{
    lemma_cycle_steps(nav.selected_sub_tab, nav.spec_total_tabs());
    lemma_cycle_round_trip(nav.selected_sub_tab, nav.spec_total_tabs());
}

/// With the content of a genre's page focused, a key other than `Esc` and
/// `q` goes to the selected section; its album sections come first in
/// the sidebar, then its playlist sections.
pub proof fn lemma_genre_content_keys(nav: GenresNav, key: Key)
    requires
        nav.mode == GenresMode::GenreDetail,
        nav.focus == SidebarFocus::Content,
        key != Key::Esc && key != Key::Char('q'),
    ensures
        nav.selected_sub_tab < nav.visible().len() ==> nav.step(key) == (
            nav,
            GenresAction::Content(Section::Album(nav.visible()[nav.selected_sub_tab as int])),
        ),
        nav.visible().len() <= nav.selected_sub_tab < nav.visible().len() + nav.playlist_count ==> nav.step(key) == (
            nav,
            GenresAction::Content(Section::Playlist((nav.selected_sub_tab - nav.visible().len()) as usize)),
        ),
{
}

/// In the sidebar of the discover screen, `Up` selects the previous
/// section and `Down` the next one, wrapping around; `Down` then `Up`
/// returns to the section selected.
pub proof fn lemma_discover_moves(nav: DiscoverNav)
    requires
        nav.focus == SidebarFocus::Sidebar,
        nav.selected_sub_tab < nav.count(),
    ensures
        nav.step(Key::Up) == (DiscoverNav {
            selected_sub_tab: if nav.selected_sub_tab == 0 { (nav.count() - 1) as usize } else { (nav.selected_sub_tab - 1) as usize },
            ..nav
        }, SectionAction::Consumed),
        nav.step(Key::Down) == (DiscoverNav {
            selected_sub_tab: if nav.selected_sub_tab + 1 == nav.count() { 0 } else { (nav.selected_sub_tab + 1) as usize },
            ..nav
        }, SectionAction::Consumed),
        nav.step(Key::Down).0.step(Key::Up).0 == nav,
{
    lemma_cycle_steps(nav.selected_sub_tab, nav.count());
    lemma_cycle_round_trip(nav.selected_sub_tab, nav.count());
}

/// With the content of the discover screen focused, a key other than
/// `Esc` goes to the selected section: album sections first, then
/// playlist sections.
pub proof fn lemma_discover_content_keys(nav: DiscoverNav, key: Key)
    requires
        nav.focus == SidebarFocus::Content,
        key != Key::Esc,
    ensures
        nav.selected_sub_tab < nav.album_sections ==> nav.step(key) == (nav, SectionAction::Content(Section::Album(nav.selected_sub_tab))),
        nav.album_sections <= nav.selected_sub_tab < nav.album_sections + nav.playlist_sections ==> nav.step(key) == (
            nav,
            SectionAction::Content(Section::Playlist((nav.selected_sub_tab - nav.album_sections) as usize)),
        ),
        nav.step(Key::Esc) == (DiscoverNav { focus: SidebarFocus::Sidebar, ..nav }, SectionAction::Consumed),
{
}

} // verus!
