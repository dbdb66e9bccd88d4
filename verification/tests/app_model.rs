use qobine::app::{create_now_playing_state, App, AppState, Effect, InputEvent, NowPlayingState, Output, Tab, TracklistSummary, TracklistType};
use qobine::keys::Key;
use qobine::models::{Notification, Status, Track};
use qobine::notifications::NotificationList;
use qobine::screens::SearchFocus;

fn track() -> Track {
    Track {
        id: 9,
        title: "Echoes".to_string(),
        number: 6,
        duration_seconds: 1400,
        artist_name: Some("Pink Floyd".to_string()),
        artist_id: Some(5),
        album_title: Some("Meddle".to_string()),
        album_id: Some("m1".to_string()),
    }
}

fn playing() -> NowPlayingState {
    let mut np = NowPlayingState::default();
    np.playing_track = Some(track());
    np
}

fn press(app: &mut App<&'static str>, key: Key, devices: usize, notes: &mut NotificationList) -> Effect {
    app.handle_event(InputEvent::KeyPress(key), devices, notes)
}

fn stack(app: &App<&'static str>) -> Vec<&'static str> {
    match &app.state {
        AppState::Overlay(v) => v.clone(),
        _ => Vec::new(),
    }
}

#[test]
fn tab_names_and_labels() {
    assert_eq!(Tab::Favorites.to_string(), "Favorites");
    assert_eq!(Tab::Preferences.to_string(), "Preferences");
    assert_eq!(Tab::Genres.index(), 4);
    assert_eq!(Tab::default(), Tab::Favorites);
    assert_eq!(
        Tab::labels(),
        ["[1] Favorites", "[2] Search", "[3] Queue", "[4] Discover", "[5] Genres", "[6] Preferences"]
    );
}

#[test]
fn normal_keys_go_to_the_screen() {
    let mut notes = NotificationList::new();
    let mut app: App<&'static str> = App::new(NowPlayingState::default());
    assert!(matches!(press(&mut app, Key::Char('x'), 0, &mut notes), Effect::DispatchToScreen(Tab::Favorites)));
    assert!(matches!(app.handle_event(InputEvent::Other, 0, &mut notes), Effect::Nothing));
    app.should_draw = false;
    app.handle_event(InputEvent::Resize, 0, &mut notes);
    assert!(app.should_draw);
}

#[test]
fn unhandled_keys() {
    let mut notes = NotificationList::new();
    let mut app: App<&'static str> = App::new(playing());
    assert!(matches!(app.handle_output(Key::Char('2'), Ok(Output::NotConsumed), &mut notes), Effect::Nothing));
    assert_eq!(app.current_screen, Tab::Search);
    assert_eq!(app.search.focus, SearchFocus::Editing);
    app.handle_output(Key::Char('5'), Ok(Output::NotConsumed), &mut notes);
    assert_eq!(app.current_screen, Tab::Genres);
    assert!(matches!(app.handle_output(Key::Char(' '), Ok(Output::NotConsumed), &mut notes), Effect::PlayPause));
    assert!(matches!(app.handle_output(Key::Char('n'), Ok(Output::NotConsumed), &mut notes), Effect::Next));
    assert!(matches!(app.handle_output(Key::Char('X'), Ok(Output::NotConsumed), &mut notes), Effect::ClearQueue));
    match app.handle_output(Key::Char('I'), Ok(Output::NotConsumed), &mut notes) {
        Effect::OpenAlbum(id) => assert_eq!(id, "m1"),
        _ => panic!("album expected"),
    }
    match app.handle_output(Key::Char('G'), Ok(Output::NotConsumed), &mut notes) {
        Effect::OpenArtist { id, name } => {
            assert_eq!(id, 5);
            assert_eq!(name.as_deref(), Some("Pink Floyd"));
        }
        _ => panic!("artist expected"),
    }
    assert!(matches!(app.handle_output(Key::Char('i'), Ok(Output::NotConsumed), &mut notes), Effect::OpenTrackInfo(9)));
    assert!(matches!(app.handle_output(Key::Char('c'), Ok(Output::NotConsumed), &mut notes), Effect::CheckConnectEnabled));
    app.handle_output(Key::Char('q'), Ok(Output::NotConsumed), &mut notes);
    assert!(app.exit);
}

#[test]
fn nothing_playing_opens_nothing() {
    let mut notes = NotificationList::new();
    let mut app: App<&'static str> = App::new(NowPlayingState::default());
    assert!(matches!(app.handle_output(Key::Char('I'), Ok(Output::NotConsumed), &mut notes), Effect::Nothing));
    assert!(matches!(app.handle_output(Key::Char('G'), Ok(Output::NotConsumed), &mut notes), Effect::Nothing));
    assert!(matches!(app.handle_output(Key::Char('i'), Ok(Output::NotConsumed), &mut notes), Effect::Nothing));
}

#[test]
fn help_is_dismissed_by_any_key() {
    let mut notes = NotificationList::new();
    let mut app: App<&'static str> = App::new(NowPlayingState::default());
    app.handle_output(Key::Char('?'), Ok(Output::NotConsumed), &mut notes);
    assert!(matches!(app.state, AppState::Help));
    app.should_clear = false;
    assert!(matches!(press(&mut app, Key::Char('z'), 0, &mut notes), Effect::Nothing));
    assert!(matches!(app.state, AppState::Normal));
    assert!(app.should_clear);
}

#[test]
fn focus_mode() {
    let mut notes = NotificationList::new();
    let mut app: App<&'static str> = App::new(NowPlayingState::default());
    app.handle_output(Key::Char('F'), Ok(Output::NotConsumed), &mut notes);
    assert!(matches!(app.state, AppState::Focus));
    assert!(matches!(press(&mut app, Key::Char(' '), 0, &mut notes), Effect::PlayPause));
    assert!(matches!(app.state, AppState::Focus));
    assert!(matches!(press(&mut app, Key::Char('n'), 0, &mut notes), Effect::Next));
    assert!(matches!(press(&mut app, Key::Esc, 0, &mut notes), Effect::Nothing));
    assert!(matches!(app.state, AppState::Normal));
}

#[test]
fn overlay_stack() {
    let mut notes = NotificationList::new();
    let mut app: App<&'static str> = App::new(NowPlayingState::default());
    app.handle_output(Key::Enter, Ok(Output::Overlay("album")), &mut notes);
    app.push_popup("artist");
    assert_eq!(stack(&app), ["album", "artist"]);
    assert!(matches!(press(&mut app, Key::Char('x'), 0, &mut notes), Effect::DispatchToOverlay));
    app.handle_output(Key::Esc, Ok(Output::PopOverlay), &mut notes);
    assert_eq!(stack(&app), ["album"]);
    assert!(matches!(app.handle_output(Key::Esc, Ok(Output::PopOverlayUpdateFavorites), &mut notes), Effect::UpdateFavorites));
    assert!(matches!(app.state, AppState::Normal));
    assert!(matches!(app.handle_output(Key::Esc, Ok(Output::PopOverlayUpdateFavorites), &mut notes), Effect::Nothing));
}

#[test]
fn page_errors_become_notifications() {
    let mut notes = NotificationList::new();
    let mut app: App<&'static str> = App::new(NowPlayingState::default());
    app.handle_output(Key::Enter, Err("boom".to_string()), &mut notes);
    assert_eq!(notes.notifications(), [&Notification::Error("boom".to_string())]);
}

#[test]
fn adding_to_a_playlist() {
    let mut notes = NotificationList::new();
    let mut app: App<&'static str> = App::new(NowPlayingState::default());
    match app.handle_output(Key::Enter, Ok(Output::AddTrackToPlaylistOverlay(track())), &mut notes) {
        Effect::ShowAddToPlaylist(t) => assert_eq!(t.id, 9),
        _ => panic!("overlay expected"),
    }
    app.push_popup("add");
    assert!(matches!(
        app.handle_output(Key::Enter, Ok(Output::AddTrackToPlaylistAndPopOverlay((9, 4))), &mut notes),
        Effect::AddTrackToPlaylist { track_id: 9, playlist_id: 4 }
    ));
    assert!(matches!(app.add_to_playlist_done(Ok(()), &mut notes), Effect::UpdateFavorites));
    assert!(matches!(app.state, AppState::Normal));
    assert_eq!(notes.notifications(), [&Notification::Info("Added to playlist".to_string())]);
    assert!(matches!(app.add_to_playlist_done(Err("no".to_string()), &mut notes), Effect::Nothing));
    assert_eq!(notes.notifications().len(), 2);
}

#[test]
fn connect_device_list() {
    let mut notes = NotificationList::new();
    let mut app: App<&'static str> = App::new(NowPlayingState::default());
    app.connect_check_done(false);
    assert!(matches!(app.state, AppState::Normal));
    app.connect_check_done(true);
    assert!(matches!(app.state, AppState::ConnectOverlay(0)));
    press(&mut app, Key::Up, 3, &mut notes);
    assert!(matches!(app.state, AppState::ConnectOverlay(0)));
    press(&mut app, Key::Down, 3, &mut notes);
    press(&mut app, Key::Right, 3, &mut notes);
    press(&mut app, Key::Down, 3, &mut notes);
    assert!(matches!(app.state, AppState::ConnectOverlay(2)));
    press(&mut app, Key::Left, 3, &mut notes);
    assert!(matches!(press(&mut app, Key::Enter, 3, &mut notes), Effect::SelectConnectDevice(1)));
    assert!(matches!(app.state, AppState::Normal));
    app.connect_check_done(true);
    assert!(matches!(press(&mut app, Key::Char('x'), 3, &mut notes), Effect::Nothing));
    assert!(matches!(app.state, AppState::Normal));
    app.connect_check_done(true);
    assert!(matches!(press(&mut app, Key::Enter, 0, &mut notes), Effect::Nothing));
}

#[test]
fn now_playing_titles() {
    let album = TracklistSummary {
        current_track: Some(track()),
        list_type: TracklistType::Playlist { title: "Mix".to_string() },
        total: 10,
        current_position: 2,
    };
    let np = create_now_playing_state(&album, Status::Playing);
    assert_eq!(np.entity_title.as_deref(), Some("Mix"));
    assert_eq!(np.tracklist_length, 10);
    assert_eq!(np.tracklist_position, 2);
    assert_eq!(np.status, Status::Playing);
    assert_eq!(np.playing_track, Some(track()));
    let tracks = TracklistSummary { current_track: Some(track()), list_type: TracklistType::Tracks, total: 1, current_position: 0 };
    assert_eq!(create_now_playing_state(&tracks, Status::Paused).entity_title.as_deref(), Some("Meddle"));
    let top = TracklistSummary { current_track: None, list_type: TracklistType::TopTracks { artist_name: "X".to_string() }, total: 0, current_position: 0 };
    assert_eq!(create_now_playing_state(&top, Status::Paused).entity_title.as_deref(), Some("X"));
    let none = TracklistSummary { current_track: None, list_type: TracklistType::Tracks, total: 0, current_position: 0 };
    assert_eq!(create_now_playing_state(&none, Status::Paused).entity_title, None);
}

#[test]
fn player_updates_reach_the_now_playing_bar() {
    let mut notes = NotificationList::new();
    let mut app: App<&'static str> = App::new(NowPlayingState::default());
    app.take_frame_requests();
    app.position_changed(61_000);
    assert_eq!(app.now_playing.duration_ms, 61_000);
    assert_eq!(app.take_frame_requests(), (false, true));
    app.position_changed(u128::from(u32::MAX) + 1);
    assert_eq!(app.now_playing.duration_ms, 0);
    app.status_changed(Status::Playing);
    assert_eq!(app.now_playing.status, Status::Playing);
    let list = TracklistSummary {
        current_track: Some(track()),
        list_type: TracklistType::Album { title: "Meddle".to_string() },
        total: 6,
        current_position: 5,
    };
    app.tracklist_changed(&list);
    assert_eq!(app.now_playing.status, Status::Playing);
    assert_eq!(app.now_playing.tracklist_position, 5);
    assert_eq!(app.now_playing.entity_title.as_deref(), Some("Meddle"));
    app.take_frame_requests();
    app.notification_received(Notification::Info("hi".to_string()), &mut notes);
    assert_eq!(notes.notifications().len(), 1);
    assert_eq!(app.take_frame_requests(), (false, true));
    app.notifications_ticked(&mut notes);
    assert_eq!(app.take_frame_requests(), (false, false));
    assert_eq!(notes.notifications().len(), 1);
}

#[test]
fn expired_notifications_clear_the_screen() {
    let mut notes = NotificationList::new();
    let mut app: App<&'static str> = App::new(NowPlayingState::default());
    app.notification_received(Notification::Info("a".to_string()), &mut notes);
    app.notification_received(Notification::Info("b".to_string()), &mut notes);
    app.take_frame_requests();
    app.expire_notifications(&mut notes, &vec![3000, 100]);
    assert_eq!(app.take_frame_requests(), (false, false));
    assert_eq!(notes.notifications().len(), 2);
    app.expire_notifications(&mut notes, &vec![5000, 100]);
    assert_eq!(app.take_frame_requests(), (true, true));
    assert_eq!(notes.notifications(), [&Notification::Info("b".to_string())]);
    app.notifications_ticked(&mut notes);
    assert_eq!(notes.notifications().len(), 1);
}
