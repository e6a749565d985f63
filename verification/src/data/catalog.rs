//! The catalog entries that the Qt views are built from, holding as plain
//! values what the views read of them.

use vstd::prelude::*;

verus! {

/// A track, as the views read it.
pub struct Track {
    /// The track's id in base-62.
    pub id: String,
    pub name: String,
    /// The artists' names, joined for display.
    pub artist_names: String,
    pub album_name: String,
    /// The first image of the track's album, if the track has an album with an image.
    pub album_image_url: Option<String>,
    /// Whether the track can be played, where the catalog says so.
    pub is_playable: Option<bool>,
    /// The track's length in nanoseconds.
    pub duration_nanos: u128,
}

/// An album, as the views read it.
pub struct Album {
    pub id: String,
    pub name: String,
    /// The name of the first credited artist.
    pub first_artist_name: Option<String>,
    /// The album's first image.
    pub first_image_url: Option<String>,
    /// The album's release, formatted for display.
    pub release: String,
}

/// An artist, as the views read it.
pub struct Artist {
    pub id: String,
    pub name: String,
    pub first_image_url: Option<String>,
}

/// A playlist, as the views read it.
pub struct Playlist {
    pub id: String,
    pub name: String,
    pub owner_display_name: String,
    /// The playlist's first image, where it has images.
    pub first_image_url: Option<String>,
}

/// A podcast show, as the views read it.
pub struct Show {
    pub id: String,
    pub name: String,
    pub publisher: String,
    pub first_image_url: Option<String>,
}

/// A podcast episode, as the views read it.
pub struct Episode {
    /// The episode's id in base-62.
    pub id: String,
    pub name: String,
    pub show_name: String,
    /// The episode's release, formatted for display.
    pub release: String,
    /// The episode's length in nanoseconds.
    pub duration_nanos: u128,
}

/// The results of one search.
pub struct SearchResults {
    pub query: String,
    pub tracks: Vec<Track>,
    pub albums: Vec<Album>,
    pub artists: Vec<Artist>,
    pub playlists: Vec<Playlist>,
    pub shows: Vec<Show>,
}

impl Track {
    /// A copy of this track.
    pub fn copy(&self) -> (r: Self)
        ensures
            r == *self,
    {
        Track {
            id: self.id.clone(),
            name: self.name.clone(),
            artist_names: self.artist_names.clone(),
            album_name: self.album_name.clone(),
            album_image_url: match &self.album_image_url {
                Some(u) => Some(u.clone()),
                None => None,
            },
            is_playable: self.is_playable,
            duration_nanos: self.duration_nanos,
        }
    }
}

/// The text of an optional string, or the empty text.
pub open spec fn text_or_empty(s: Option<String>) -> Seq<char> {
    match s {
        Some(t) => t@,
        None => Seq::empty(),
    }
}

/// The string held by `s`, or an empty string.
pub fn string_or_empty(s: &Option<String>) -> (r: String)
    ensures
        r@ == text_or_empty(*s),
{
    match s {
        Some(t) => t.clone(),
        None => String::new(),
    }
}

} // verus!
