use qobine::keys::Key;
use qobine::overlays::{AlbumAction, AlbumNav, AlbumTabKind, ArtistAction, ArtistContents, ArtistNav, ArtistTabKind, OverlayFocus, stats_line};
use qobine::screens::{
    should_search, DiscoverNav, GenresAction, GenresMode, GenresNav, SearchAction, SearchFocus, SearchNav, Section,
    SectionAction, SectionFlags, SidebarFocus,
};
use qobine::tabs::{cycle_backward, cycle_forward};

#[test]
fn cycling_wraps_around() {
    assert_eq!(cycle_forward(0, 3), 1);
    assert_eq!(cycle_forward(2, 3), 0);
    assert_eq!(cycle_backward(0, 3), 2);
    assert_eq!(cycle_backward(2, 3), 1);
    assert_eq!(cycle_forward(5, 0), 5);
    assert_eq!(cycle_backward(5, 0), 5);
    assert_eq!(cycle_forward(usize::MAX, 4), 0);
    assert_eq!(cycle_backward(7, 3), 0);
}

#[test]
fn cycling_round_trip() {
    for count in 1..6 {
        for s in 0..count {
            assert_eq!(cycle_backward(cycle_forward(s, count), count), s);
            assert_eq!(cycle_forward(cycle_backward(s, count), count), s);
        }
    }
}

#[test]
fn album_tabs_and_labels() {
    let nav = AlbumNav::new(true, false, true);
    assert_eq!(nav.visible_tab_kinds(), [AlbumTabKind::Tracks, AlbumTabKind::About, AlbumTabKind::GoToArtist]);
    assert_eq!(nav.tab_labels(), ["Tracks", "About", "Go to Artist"]);
    assert_eq!(AlbumNav::new(false, false, false).tab_labels(), ["Go to Artist"]);
}

#[test]
fn album_navigation() {
    let mut nav = AlbumNav::new(true, true, true);
    assert_eq!(nav.handle_key(Key::Up), AlbumAction::Consumed);
    assert_eq!(nav.selected_tab_kind(), Some(AlbumTabKind::GoToArtist));
    assert_eq!(nav.handle_key(Key::Enter), AlbumAction::OpenArtist);
    assert_eq!(nav.focus, OverlayFocus::Sidebar);
    nav.handle_key(Key::Char('j'));
    assert_eq!(nav.selected_tab_kind(), Some(AlbumTabKind::Tracks));
    assert_eq!(nav.handle_key(Key::Char('l')), AlbumAction::Consumed);
    assert_eq!(nav.focus, OverlayFocus::Content);
    assert_eq!(nav.handle_key(Key::Char('x')), AlbumAction::Tracks);
    assert_eq!(nav.handle_key(Key::Char('G')), AlbumAction::OpenArtist);
    assert_eq!(nav.handle_key(Key::Esc), AlbumAction::Consumed);
    assert_eq!(nav.focus, OverlayFocus::Sidebar);
    assert_eq!(nav.handle_key(Key::Esc), AlbumAction::PopOverlay);
}

#[test]
fn album_about_scrolls_and_resets() {
    let mut nav = AlbumNav::new(false, false, true);
    assert_eq!(nav.selected_tab_kind(), Some(AlbumTabKind::About));
    nav.handle_key(Key::Enter);
    nav.handle_key(Key::PageDown);
    nav.handle_key(Key::Down);
    assert_eq!(nav.about_scroll, 11);
    nav.handle_key(Key::Esc);
    nav.handle_key(Key::Down);
    assert_eq!(nav.about_scroll, 0);
    assert_eq!(nav.selected_tab_kind(), Some(AlbumTabKind::GoToArtist));
    nav.handle_key(Key::Right);
    assert_eq!(nav.focus, OverlayFocus::Sidebar);
}

#[test]
fn artist_navigation() {
    let contents = ArtistContents { albums: true, top_tracks: true, singles: false, live: false, compilations: true, similar: true, about: false };
    let mut nav = ArtistNav::new(contents);
    assert_eq!(nav.tab_labels(), ["Albums", "Top Tracks", "Compilations", "Similar"]);
    nav.handle_key(Key::Down);
    nav.handle_key(Key::Down);
    assert_eq!(nav.selected_tab_kind(), Some(ArtistTabKind::Compilations));
    nav.handle_key(Key::Enter);
    assert_eq!(nav.handle_key(Key::Char('x')), ArtistAction::Content(ArtistTabKind::Compilations));
    assert_eq!(nav.handle_key(Key::Esc), ArtistAction::Consumed);
    assert_eq!(nav.handle_key(Key::Esc), ArtistAction::PopOverlay);
}

#[test]
fn artist_without_tabs() {
    let empty = ArtistContents { albums: false, top_tracks: false, singles: false, live: false, compilations: false, similar: false, about: false };
    let mut nav = ArtistNav::new(empty);
    nav.handle_key(Key::Down);
    assert_eq!(nav.selected_sub_tab, 0);
    nav.handle_key(Key::Enter);
    assert_eq!(nav.handle_key(Key::Char('x')), ArtistAction::Consumed);
}

#[test]
fn artist_statistics() {
    assert_eq!(stats_line(3, 0, 1, 2), "3 albums \u{b7} 1 live \u{b7} 2 compilations");
    assert_eq!(stats_line(0, 5, 0, 0), "5 singles");
    assert_eq!(stats_line(0, 0, 0, 0), "");
}

#[test]
fn search_focus() {
    let mut nav = SearchNav::new();
    assert_eq!(nav.handle_key(Key::Char('x')), SearchAction::NotConsumed);
    assert_eq!(nav.handle_key(Key::Up), SearchAction::PreviousSubTab);
    assert_eq!(nav.handle_key(Key::Char('j')), SearchAction::NextSubTab);
    assert_eq!(nav.handle_key(Key::Char('e')), SearchAction::Consumed);
    assert_eq!(nav.focus, SearchFocus::Editing);
    assert_eq!(nav.handle_key(Key::Char('q')), SearchAction::EditInput);
    assert_eq!(nav.handle_key(Key::Enter), SearchAction::RunSearch);
    assert_eq!(nav.focus, SearchFocus::Sidebar);
    nav.handle_key(Key::Right);
    assert_eq!(nav.handle_key(Key::Char('x')), SearchAction::Content);
    assert_eq!(nav.handle_key(Key::Esc), SearchAction::Consumed);
    assert_eq!(nav.focus, SearchFocus::Sidebar);
}

#[test]
fn blank_searches_are_skipped() {
    assert!(!should_search(""));
    assert!(!should_search(" \t\n"));
    assert!(should_search(" a "));
}

#[test]
fn discover_sections() {
    let mut nav = DiscoverNav::new(2, 1);
    assert_eq!(nav.selected_section(), Some(Section::Album(0)));
    nav.handle_key(Key::Up);
    assert_eq!(nav.selected_section(), Some(Section::Playlist(0)));
    assert_eq!(nav.handle_key(Key::Char('z')), SectionAction::NotConsumed);
    nav.handle_key(Key::Enter);
    assert_eq!(nav.focus, SidebarFocus::Content);
    assert_eq!(nav.handle_key(Key::Enter), SectionAction::Content(Section::Playlist(0)));
    nav.handle_key(Key::Esc);
    nav.handle_key(Key::Down);
    assert_eq!(nav.selected_section(), Some(Section::Album(0)));
}

#[test]
fn genre_list_moves_in_a_grid() {
    let mut nav = GenresNav::new(5);
    nav.handle_key(Key::Down);
    assert_eq!(nav.selected_genre, 2);
    nav.handle_key(Key::Down);
    assert_eq!(nav.selected_genre, 4);
    nav.handle_key(Key::Down);
    assert_eq!(nav.selected_genre, 4);
    nav.handle_key(Key::Right);
    assert_eq!(nav.selected_genre, 4);
    nav.handle_key(Key::Char('h'));
    assert_eq!(nav.selected_genre, 3);
    nav.handle_key(Key::Char('k'));
    assert_eq!(nav.selected_genre, 1);
    nav.handle_key(Key::Up);
    assert_eq!(nav.selected_genre, 1);
    assert_eq!(nav.handle_key(Key::Enter), GenresAction::LoadGenre(1));
    assert_eq!(nav.mode, GenresMode::GenreList);
    assert_eq!(nav.handle_key(Key::Char('z')), GenresAction::NotConsumed);
}

#[test]
fn genre_page_sections() {
    let mut nav = GenresNav::new(3);
    let flags = SectionFlags {
        new_releases: true,
        qobuzissims: false,
        ideal_discography: true,
        album_of_the_week: false,
        press_awards: false,
        most_streamed: false,
    };
    nav.genre_loaded(flags, 2);
    assert_eq!(nav.mode, GenresMode::GenreDetail);
    assert_eq!(nav.visible_album_indices(), [0, 2]);
    assert_eq!(nav.total_tabs(), 4);
    nav.handle_key(Key::Down);
    assert_eq!(nav.current_subtab(), Some(Section::Album(2)));
    nav.handle_key(Key::Down);
    assert_eq!(nav.current_subtab(), Some(Section::Playlist(0)));
    nav.handle_key(Key::Enter);
    assert_eq!(nav.handle_key(Key::Char('x')), GenresAction::Content(Section::Playlist(0)));
    assert_eq!(nav.handle_key(Key::Char('q')), GenresAction::Consumed);
    assert_eq!(nav.mode, GenresMode::GenreList);
    assert_eq!(nav.focus, SidebarFocus::Sidebar);
}

#[test]
fn genres_are_laid_out_two_to_a_row() {
    let mut nav = GenresNav::new(5);
    nav.selected_genre = 3;
    assert_eq!(
        nav.genre_grid(),
        vec![vec![(0, false), (1, false)], vec![(2, false), (3, true)], vec![(4, false)]]
    );
    assert_eq!(GenresNav::new(4).genre_grid().len(), 2);
    assert!(GenresNav::new(0).genre_grid().is_empty());
}
