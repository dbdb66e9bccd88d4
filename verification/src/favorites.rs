//! The ids of the user's favorites, for marking favorite entries in lists.

use vstd::prelude::*;
use std::collections::HashSet;
use crate::text::str_eq;

verus! {

broadcast use vstd::std_specs::hash::group_hash_axioms;

/// The ids of the user's favorite albums, artists, playlists and tracks.
/// Album ids are kept in a list in which no id occurs twice.
pub struct FavoriteIds {
    albums: Vec<String>,
    artists: HashSet<u32>,
    playlists: HashSet<u32>,
    tracks: HashSet<u32>,
}

/// The favorites as lists of ids, in the order they were listed.
pub struct FavoriteLists {
    pub album_ids: Vec<String>,
    pub artist_ids: Vec<u32>,
    pub playlist_ids: Vec<u32>,
    pub track_ids: Vec<u32>,
}

impl FavoriteIds {
    /// The ids of the favorite albums.
    pub closed spec fn album_set(&self) -> Set<Seq<char>> {
        string_views(self.albums@).to_set()
    }

    /// No album id is listed twice.
    pub closed spec fn wf(&self) -> bool {
        string_views(self.albums@).no_duplicates()
    }

    /// The ids of the favorite artists.
    pub closed spec fn artist_set(&self) -> Set<u32> {
        self.artists@
    }

    /// The ids of the favorite playlists.
    pub closed spec fn playlist_set(&self) -> Set<u32> {
        self.playlists@
    }

    /// The ids of the favorite tracks.
    pub closed spec fn track_set(&self) -> Set<u32> {
        self.tracks@
    }

    /// The ids of the favorite albums, each once.
    pub fn albums(&self) -> (r: &Vec<String>)
        requires
            self.wf(),
        ensures
            string_views(r@).to_set() == self.album_set(),
            string_views(r@).no_duplicates(),
    {
        &self.albums
    }

    /// Whether `id` is the id of a favorite album.
    pub fn contains_album(&self, id: &str) -> (b: bool)
        ensures
            b == self.album_set().contains(id@),
    {
        contains_string(&self.albums, id)
    }

    /// The ids of the favorite artists.
    pub fn artists(&self) -> (r: &HashSet<u32>)
        ensures
            r@ == self.artist_set(),
    {
        &self.artists
    }

    /// The ids of the favorite playlists.
    pub fn playlists(&self) -> (r: &HashSet<u32>)
        ensures
            r@ == self.playlist_set(),
    {
        &self.playlists
    }

    /// The ids of the favorite tracks.
    pub fn tracks(&self) -> (r: &HashSet<u32>)
        ensures
            r@ == self.track_set(),
    {
        &self.tracks
    }
}

/// The set of a sequence with one more entry holds that entry too.
proof fn lemma_push_to_set<A>(t: Seq<A>, x: A)
    ensures
        t.push(x).to_set() == t.to_set().insert(x),
{
    assert forall|y| #[trigger] t.push(x).contains(y) <==> t.contains(y) || y == x by {
        if t.push(x).contains(y) {
            let k = choose|k: int| 0 <= k < t.len() + 1 && t.push(x)[k] == y;
            if k < t.len() {
                assert(t[k] == y);
            }
        }
        if t.contains(y) {
            let k = choose|k: int| 0 <= k < t.len() && t[k] == y;
            assert(t.push(x)[k] == y);
        }
        if y == x {
            assert(t.push(x)[t.len() as int] == y);
        }
    }
    assert(t.push(x).to_set() =~= t.to_set().insert(x));
}

fn id_set(ids: &Vec<u32>) -> (s: HashSet<u32>)
    ensures
        s@ == ids@.to_set(),
{
    let mut s: HashSet<u32> = HashSet::new();
    let mut i: usize = 0;
    while i < ids.len()
        invariant
            i <= ids.len(),
            s@ == ids@.take(i as int).to_set(),
        decreases ids.len() - i,
    {
        s.insert(ids[i]);
        proof {
            assert(ids@.take(i + 1) =~= ids@.take(i as int).push(ids@[i as int]));
            lemma_push_to_set(ids@.take(i as int), ids@[i as int]);
        }
        i = i + 1;
    }
    assert(ids@.take(ids.len() as int) =~= ids@);
    s
}

/// The texts of a list of strings.
pub open spec fn string_views(v: Seq<String>) -> Seq<Seq<char>> {
    v.map_values(|x: String| x@)
}

/// Whether one of `v` is `id`.
fn contains_string(v: &Vec<String>, id: &str) -> (b: bool)
    ensures
        b == string_views(v@).contains(id@),
{
    let mut i: usize = 0;
    while i < v.len()
        invariant
            i <= v.len(),
            forall|k: int| 0 <= k < i ==> string_views(v@)[k] != id@,
        decreases v.len() - i,
    {
        if str_eq(v[i].as_str(), id) {
            assert(string_views(v@)[i as int] == id@);
            return true;
        }
        i = i + 1;
    }
    assert(!string_views(v@).contains(id@)) by {
        if string_views(v@).contains(id@) {
            let k = choose|k: int| 0 <= k < v.len() && string_views(v@)[k] == id@;
            assert(k < i);
        }
    }
    false
}

/// The distinct ids of `ids`, in the order of their first occurrence.
fn distinct_strings(ids: &Vec<String>) -> (r: Vec<String>)
    ensures
        string_views(r@).to_set() == string_views(ids@).to_set(),
        string_views(r@).no_duplicates(),
{
    let mut r: Vec<String> = Vec::new();
    let mut i: usize = 0;
    while i < ids.len()
        invariant
            i <= ids.len(),
            string_views(r@).to_set() == string_views(ids@.take(i as int)).to_set(),
            string_views(r@).no_duplicates(),
        decreases ids.len() - i,
    {
        let ghost before = r@;
        proof {
            assert(string_views(ids@.take(i + 1)) =~= string_views(ids@.take(i as int)).push(ids@[i as int]@));
            lemma_push_to_set(string_views(ids@.take(i as int)), ids@[i as int]@);
        }
        if !contains_string(&r, ids[i].as_str()) {
            r.push(ids[i].clone());
            proof {
                assert(string_views(r@) =~= string_views(before).push(ids@[i as int]@));
                lemma_push_to_set(string_views(before), ids@[i as int]@);
                assert forall|a: int, b: int| 0 <= a < b < string_views(r@).len()
                    implies string_views(r@)[a] != string_views(r@)[b] by {
                    if b == before.len() {
                        assert(string_views(before).contains(string_views(before)[a]));
                    }
                }
            }
        } else {
            proof {
                assert(string_views(before).to_set().contains(ids@[i as int]@));
                assert(string_views(before).to_set().insert(ids@[i as int]@) =~= string_views(before).to_set());
            }
        }
        i = i + 1;
    }
    assert(ids@.take(ids.len() as int) =~= ids@);
    r
}

/// The sets of favorite ids of the given lists.
pub fn build_favorite_ids(favorites: &FavoriteLists) -> (f: FavoriteIds)
    ensures
        f.wf(),
        f.album_set() == string_views(favorites.album_ids@).to_set(),
        f.artist_set() == favorites.artist_ids@.to_set(),
        f.playlist_set() == favorites.playlist_ids@.to_set(),
        f.track_set() == favorites.track_ids@.to_set(),
{
    FavoriteIds {
        albums: distinct_strings(&favorites.album_ids),
        artists: id_set(&favorites.artist_ids),
        playlists: id_set(&favorites.playlist_ids),
        tracks: id_set(&favorites.track_ids),
    }
}

/// A favorite playlist: its id, its title, and whether the user owns it.
pub struct FavoritePlaylist {
    pub id: u32,
    pub title: String,
    pub is_owned: bool,
}

/// The id, title and ownership of each playlist.
pub open spec fn playlist_parts(v: Seq<FavoritePlaylist>) -> Seq<(u32, Seq<char>, bool)> {
    v.map_values(|p: FavoritePlaylist| (p.id, p.title@, p.is_owned))
}

/// The playlists a track can be added to: the owned ones, in order.
pub fn owned_playlists(playlists: &Vec<FavoritePlaylist>) -> (r: Vec<FavoritePlaylist>)
    ensures
        playlist_parts(r@) == playlist_parts(playlists@).filter(|p: (u32, Seq<char>, bool)| p.2),
{
    let mut r: Vec<FavoritePlaylist> = Vec::new();
    let mut i: usize = 0;
    let ghost all = playlist_parts(playlists@);
    while i < playlists.len()
        invariant
            i <= playlists.len(),
            all == playlist_parts(playlists@),
            playlist_parts(r@) == all.take(i as int).filter(|p: (u32, Seq<char>, bool)| p.2),
        decreases playlists.len() - i,
    {
        proof {
            reveal_with_fuel(Seq::<_>::filter, 1);
            assert(all.take(i + 1).drop_last() =~= all.take(i as int));
        }
        let p = &playlists[i];
        if p.is_owned {
            let ghost before = r@;
            r.push(FavoritePlaylist { id: p.id, title: p.title.clone(), is_owned: p.is_owned });
            assert(playlist_parts(r@) =~= playlist_parts(before).push(all[i as int]));
        }
        i = i + 1;
    }
    assert(all.take(playlists.len() as int) =~= all);
    r
}

} // verus!
