//! Plain data shared by the player, the Connect session and the interface.

use vstd::prelude::*;

verus! {

/// Playback status of the player.
#[derive(Debug, Clone, Copy, PartialEq, Eq, Structural)]
pub enum Status {
    Playing,
    Buffering,
    Paused,
}

impl Default for Status {
    fn default() -> (s: Self)
        ensures
            s == Status::Paused,
    {
        Status::Paused
    }
}

/// Highest audio quality the player asks for.
#[derive(Debug, Clone, Copy, PartialEq, Eq, Structural)]
pub enum AudioQuality {
    Mp3,
    CD,
    HIFI96,
    HIFI192,
}

/// A message shown to the user for a few seconds.
#[derive(Debug, Clone, PartialEq, Eq)]
pub enum Notification {
    Error(String),
    Warning(String),
    Success(String),
    Info(String),
}

/// Errors of the player and its Connect session.
#[derive(Debug, Clone, PartialEq, Eq)]
pub enum PlayerError {
    ConnectError { error: String },
    Terminal { message: String },
}

/// A track as the player knows it.
#[derive(Debug, Clone, PartialEq, Eq)]
pub struct Track {
    pub id: u32,
    pub title: String,
    pub number: u32,
    pub duration_seconds: u32,
    pub artist_name: Option<String>,
    pub artist_id: Option<u32>,
    pub album_title: Option<String>,
    pub album_id: Option<String>,
}

/// A copy of an optional string.
pub fn copy_opt_string(s: &Option<String>) -> (r: Option<String>)
    ensures
        r == *s,
{
    match s {
        Some(v) => Some(v.clone()),
        None => None,
    }
}

impl Track {
    /// A copy of this track.
    pub fn copy(&self) -> (t: Track)
        ensures
            t == *self,
    {
        Track {
            id: self.id,
            title: self.title.clone(),
            number: self.number,
            duration_seconds: self.duration_seconds,
            artist_name: copy_opt_string(&self.artist_name),
            artist_id: self.artist_id,
            album_title: copy_opt_string(&self.album_title),
            album_id: copy_opt_string(&self.album_id),
        }
    }
}

} // verus!
