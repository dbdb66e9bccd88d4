use qobine::favorites::{build_favorite_ids, owned_playlists, FavoriteLists, FavoritePlaylist};

#[test]
fn favorite_ids_are_collected() {
    let lists = FavoriteLists {
        album_ids: vec!["a".to_string(), "b".to_string(), "a".to_string()],
        artist_ids: vec![1, 2],
        playlist_ids: vec![],
        track_ids: vec![7, 7, 8],
    };
    let ids = build_favorite_ids(&lists);
    assert_eq!(ids.albums().len(), 2);
    assert!(ids.contains_album("a") && ids.contains_album("b"));
    assert!(!ids.contains_album("c"));
    assert_eq!(ids.albums(), &vec!["a".to_string(), "b".to_string()]);
    assert!(ids.artists().contains(&1) && ids.artists().contains(&2) && ids.artists().len() == 2);
    assert!(ids.playlists().is_empty());
    assert_eq!(ids.tracks().len(), 2);
    assert!(ids.tracks().contains(&8));
}

#[test]
fn only_owned_playlists_take_tracks() {
    let pl = |id: u32, title: &str, is_owned: bool| FavoritePlaylist { id, title: title.to_string(), is_owned };
    let owned = owned_playlists(&vec![pl(1, "mine", true), pl(2, "theirs", false), pl(3, "also mine", true)]);
    let ids: Vec<(u32, String)> = owned.iter().map(|p| (p.id, p.title.clone())).collect();
    assert_eq!(ids, vec![(1, "mine".to_string()), (3, "also mine".to_string())]);
    assert!(owned_playlists(&vec![pl(4, "x", false)]).is_empty());
}
