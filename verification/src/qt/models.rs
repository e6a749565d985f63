//! The records that the Qt views show: tracks, albums, artists, playlists,
//! shows, tree items and detail rows, with the views that contracts use.

use vstd::prelude::*;
use vstd::string::*;
use crate::data::catalog::{
    text_or_empty, string_or_empty, Album, Artist, Episode, Playlist, SearchResults, Show, Track,
};
use crate::text::{decimal};

verus! {

/// An image reference with its size.
pub struct QtImage {
    pub url: String,
    pub width: i32,
    pub height: i32,
}

/// A track row of a list view.
pub struct QtTrack {
    pub id: String,
    pub title: String,
    pub artist: String,
    pub album: String,
    pub duration_ms: i32,
    pub image_url: String,
}

/// An album entry.
pub struct QtAlbum {
    pub id: String,
    pub title: String,
    pub artist: String,
    pub image_url: String,
}

/// An artist entry.
pub struct QtArtist {
    pub id: String,
    pub name: String,
    pub image_url: String,
}

/// A playlist entry.
pub struct QtPlaylist {
    pub id: String,
    pub title: String,
    pub owner: String,
    pub image_url: String,
}

/// A podcast show entry.
pub struct QtShow {
    pub id: String,
    pub title: String,
    pub publisher: String,
    pub image_url: String,
}

/// Search results, as the views show them.
pub struct QtSearchResults {
    pub query: String,
    pub tracks: Vec<QtTrack>,
    pub albums: Vec<QtAlbum>,
    pub artists: Vec<QtArtist>,
    pub playlists: Vec<QtPlaylist>,
    pub shows: Vec<QtShow>,
}

/// An item of the navigation tree.
pub struct QtTreeItem {
    pub id: String,
    pub parent_id: String,
    pub kind: String,
    pub label: String,
    pub meta: String,
    pub image_url: String,
    pub art_ascii: String,
    pub depth: i32,
    pub expanded: bool,
    pub selectable: bool,
    pub playable: bool,
}

/// A row of the detail pane.
pub struct QtDetailRow {
    pub id: String,
    pub kind: String,
    pub label: String,
    pub meta: String,
    pub image_url: String,
    pub art_ascii: String,
    pub depth: i32,
    pub playable: bool,
    pub expandable: bool,
}

/// The content of the detail pane for one route.
pub struct QtNavDocument {
    pub title: String,
    pub status: String,
    pub route_art_ascii: String,
    pub rows: Vec<QtDetailRow>,
}

/// A podcast episode entry.
pub struct QtEpisode {
    pub id: String,
    pub title: String,
    pub show: String,
    pub duration_ms: i32,
}

/// The text of a track entry.
pub struct TrackView {
    pub id: Seq<char>,
    pub title: Seq<char>,
    pub artist: Seq<char>,
    pub album: Seq<char>,
    pub duration_ms: i32,
    pub image_url: Seq<char>,
}

impl View for QtTrack {
    type V = TrackView;

    open spec fn view(&self) -> TrackView {
        TrackView {
            id: self.id@,
            title: self.title@,
            artist: self.artist@,
            album: self.album@,
            duration_ms: self.duration_ms,
            image_url: self.image_url@,
        }
    }
}

/// The text of an album, playlist or show entry: id, title, the line under
/// the title (artist, owner or publisher) and the image.
pub struct EntryView {
    pub id: Seq<char>,
    pub title: Seq<char>,
    pub subtitle: Seq<char>,
    pub image_url: Seq<char>,
}

impl View for QtAlbum {
    type V = EntryView;

    open spec fn view(&self) -> EntryView {
        EntryView { id: self.id@, title: self.title@, subtitle: self.artist@, image_url: self.image_url@ }
    }
}

impl View for QtPlaylist {
    type V = EntryView;

    open spec fn view(&self) -> EntryView {
        EntryView { id: self.id@, title: self.title@, subtitle: self.owner@, image_url: self.image_url@ }
    }
}

impl View for QtShow {
    type V = EntryView;

    open spec fn view(&self) -> EntryView {
        EntryView {
            id: self.id@,
            title: self.title@,
            subtitle: self.publisher@,
            image_url: self.image_url@,
        }
    }
}

impl View for QtArtist {
    type V = EntryView;

    open spec fn view(&self) -> EntryView {
        EntryView { id: self.id@, title: self.name@, subtitle: Seq::empty(), image_url: self.image_url@ }
    }
}

/// Search results, as views.
#[verifier::ext_equal]
pub struct SearchView {
    pub query: Seq<char>,
    pub tracks: Seq<TrackView>,
    pub albums: Seq<EntryView>,
    pub artists: Seq<EntryView>,
    pub playlists: Seq<EntryView>,
    pub shows: Seq<EntryView>,
}

impl View for QtSearchResults {
    type V = SearchView;

    open spec fn view(&self) -> SearchView {
        SearchView {
            query: self.query@,
            tracks: self.tracks@.map_values(|t: QtTrack| t@),
            albums: self.albums@.map_values(|e: QtAlbum| e@),
            artists: self.artists@.map_values(|e: QtArtist| e@),
            playlists: self.playlists@.map_values(|e: QtPlaylist| e@),
            shows: self.shows@.map_values(|e: QtShow| e@),
        }
    }
}

/// The text and flags of a detail row.
pub struct DetailRowView {
    pub id: Seq<char>,
    pub kind: Seq<char>,
    pub label: Seq<char>,
    pub meta: Seq<char>,
    pub image_url: Seq<char>,
    pub art_ascii: Seq<char>,
    pub depth: i32,
    pub playable: bool,
    pub expandable: bool,
}

impl View for QtDetailRow {
    type V = DetailRowView;

    open spec fn view(&self) -> DetailRowView {
        DetailRowView {
            id: self.id@,
            kind: self.kind@,
            label: self.label@,
            meta: self.meta@,
            image_url: self.image_url@,
            art_ascii: self.art_ascii@,
            depth: self.depth,
            playable: self.playable,
            expandable: self.expandable,
        }
    }
}

/// The text and flags of a tree item.
pub struct TreeItemView {
    pub id: Seq<char>,
    pub parent_id: Seq<char>,
    pub kind: Seq<char>,
    pub label: Seq<char>,
    pub meta: Seq<char>,
    pub image_url: Seq<char>,
    pub art_ascii: Seq<char>,
    pub depth: i32,
    pub expanded: bool,
    pub selectable: bool,
    pub playable: bool,
}

impl View for QtTreeItem {
    type V = TreeItemView;

    open spec fn view(&self) -> TreeItemView {
        TreeItemView {
            id: self.id@,
            parent_id: self.parent_id@,
            kind: self.kind@,
            label: self.label@,
            meta: self.meta@,
            image_url: self.image_url@,
            art_ascii: self.art_ascii@,
            depth: self.depth,
            expanded: self.expanded,
            selectable: self.selectable,
            playable: self.playable,
        }
    }
}

/// The views of a list of rows.
pub open spec fn rows_view(rows: Seq<QtDetailRow>) -> Seq<DetailRowView> {
    rows.map_values(|r: QtDetailRow| r@)
}

/// The views of a list of tree items.
pub open spec fn tree_view(items: Seq<QtTreeItem>) -> Seq<TreeItemView> {
    items.map_values(|r: QtTreeItem| r@)
}

/// A length given in nanoseconds, as the whole milliseconds (`i32`) that Qt
/// takes, capped at `i32::MAX`.
pub open spec fn capped_ms(nanos: u128) -> i32 {
    if nanos / 1_000_000 > i32::MAX as u128 {
        i32::MAX
    } else {
        (nanos / 1_000_000) as i32
    }
}

/// Whole milliseconds of a length given in nanoseconds, capped at `i32::MAX`.
pub fn duration_ms(nanos: u128) -> (r: i32)
    ensures
        r == capped_ms(nanos),
{
    let ms = nanos / 1_000_000;
    if ms > 2147483647u128 {
        2147483647i32
    } else {
        ms as i32
    }
}

impl Clone for QtDetailRow {
    fn clone(&self) -> (r: Self)
        ensures
            r@ == self@,
    {
        QtDetailRow {
            id: self.id.clone(),
            kind: self.kind.clone(),
            label: self.label.clone(),
            meta: self.meta.clone(),
            image_url: self.image_url.clone(),
            art_ascii: self.art_ascii.clone(),
            depth: self.depth,
            playable: self.playable,
            expandable: self.expandable,
        }
    }
}

impl Clone for QtTreeItem {
    fn clone(&self) -> (r: Self)
        ensures
            r@ == self@,
    {
        QtTreeItem {
            id: self.id.clone(),
            parent_id: self.parent_id.clone(),
            kind: self.kind.clone(),
            label: self.label.clone(),
            meta: self.meta.clone(),
            image_url: self.image_url.clone(),
            art_ascii: self.art_ascii.clone(),
            depth: self.depth,
            expanded: self.expanded,
            selectable: self.selectable,
            playable: self.playable,
        }
    }
}

/// The row that leads to a route: expandable, not playable, without art.
pub open spec fn route_row_view(
    id: Seq<char>,
    kind: Seq<char>,
    label: Seq<char>,
    meta: Seq<char>,
    depth: i32,
) -> DetailRowView {
    DetailRowView {
        id,
        kind,
        label,
        meta,
        image_url: Seq::empty(),
        art_ascii: Seq::empty(),
        depth,
        playable: false,
        expandable: true,
    }
}

/// The row of a track of the catalog.
pub open spec fn track_row_view(track: Track, depth: i32) -> DetailRowView {
    DetailRowView {
        id: "track:"@ + track.id@,
        kind: "track"@,
        label: track.name@,
        meta: track.artist_names@ + " | "@ + track.album_name@,
        image_url: text_or_empty(track.album_image_url),
        art_ascii: Seq::empty(),
        depth,
        playable: track.is_playable != Some(false),
        expandable: false,
    }
}

/// The row of a podcast episode.
pub open spec fn episode_row_view(episode: Episode, depth: i32) -> DetailRowView {
    DetailRowView {
        id: "episode:"@ + episode.id@,
        kind: "episode"@,
        label: episode.name@,
        meta: episode.release@,
        image_url: Seq::empty(),
        art_ascii: Seq::empty(),
        depth,
        playable: false,
        expandable: false,
    }
}

/// `prefix` followed by `rest`, as a new string.
pub fn join2(prefix: &str, rest: &str) -> (r: String)
    ensures
        r@ == prefix@ + rest@,
{
    let mut s = String::from_str(prefix);
    s.append(rest);
    s
}

impl QtDetailRow {
    /// A row that leads to a route.
    pub fn route(id: String, kind: String, label: String, meta: String, depth: i32) -> (r: Self)
        ensures
            r@ == route_row_view(id@, kind@, label@, meta@, depth),
    {
        QtDetailRow {
            id,
            kind,
            label,
            meta,
            image_url: String::new(),
            art_ascii: String::new(),
            depth,
            playable: false,
            expandable: true,
        }
    }

    /// The row of a track: playable unless the catalog says it is not.
    pub fn track(track: &Track, depth: i32) -> (r: Self)
        ensures
            r@ == track_row_view(*track, depth),
    {
        let mut meta = track.artist_names.clone();
        meta.append(" | ");
        meta.append(track.album_name.as_str());
        let playable = match track.is_playable {
            Some(p) => p,
            None => true,
        };
        QtDetailRow {
            id: join2("track:", track.id.as_str()),
            kind: String::from_str("track"),
            label: track.name.clone(),
            meta,
            image_url: string_or_empty(&track.album_image_url),
            art_ascii: String::new(),
            depth,
            playable,
            expandable: false,
        }
    }

    /// The row that leads to an album, with its first artist under the title.
    pub fn album(album: &Album, depth: i32) -> (r: Self)
        ensures
            r@ == route_row_view(
                "album:"@ + album.id@,
                "album"@,
                album.name@,
                text_or_empty(album.first_artist_name),
                depth,
            ),
    {
        Self::route(
            join2("album:", album.id.as_str()),
            String::from_str("album"),
            album.name.clone(),
            string_or_empty(&album.first_artist_name),
            depth,
        )
    }

    /// The row that leads to a playlist, with its owner under the title.
    pub fn playlist(playlist: &Playlist, depth: i32) -> (r: Self)
        ensures
            r@ == route_row_view(
                "playlist:"@ + playlist.id@,
                "playlist"@,
                playlist.name@,
                playlist.owner_display_name@,
                depth,
            ),
    {
        Self::route(
            join2("playlist:", playlist.id.as_str()),
            String::from_str("playlist"),
            playlist.name.clone(),
            playlist.owner_display_name.clone(),
            depth,
        )
    }

    /// The row that leads to an artist.
    pub fn artist(artist: &Artist, depth: i32) -> (r: Self)
        ensures
            r@ == route_row_view("artist:"@ + artist.id@, "artist"@, artist.name@, "artist"@, depth),
    {
        Self::route(
            join2("artist:", artist.id.as_str()),
            String::from_str("artist"),
            artist.name.clone(),
            String::from_str("artist"),
            depth,
        )
    }

    /// The row that leads to a podcast show, with its publisher under the title.
    pub fn show(show: &Show, depth: i32) -> (r: Self)
        ensures
            r@ == route_row_view("show:"@ + show.id@, "show"@, show.name@, show.publisher@, depth),
    {
        Self::route(
            join2("show:", show.id.as_str()),
            String::from_str("show"),
            show.name.clone(),
            show.publisher.clone(),
            depth,
        )
    }

    /// The row of a podcast episode: neither playable nor expandable.
    pub fn episode(episode: &Episode, depth: i32) -> (r: Self)
        ensures
            r@ == episode_row_view(*episode, depth),
    {
        QtDetailRow {
            id: join2("episode:", episode.id.as_str()),
            kind: String::from_str("episode"),
            label: episode.name.clone(),
            meta: episode.release.clone(),
            image_url: String::new(),
            art_ascii: String::new(),
            depth,
            playable: false,
            expandable: false,
        }
    }
}

/// The list entry of a catalog track.
pub open spec fn track_entry(t: Track) -> TrackView {
    TrackView {
        id: t.id@,
        title: t.name@,
        artist: t.artist_names@,
        album: t.album_name@,
        duration_ms: capped_ms(t.duration_nanos),
        image_url: text_or_empty(t.album_image_url),
    }
}

/// The list entry of a catalog album.
pub open spec fn album_entry(a: Album) -> EntryView {
    EntryView {
        id: a.id@,
        title: a.name@,
        subtitle: text_or_empty(a.first_artist_name),
        image_url: text_or_empty(a.first_image_url),
    }
}

/// The list entry of a catalog playlist.
pub open spec fn playlist_entry(p: Playlist) -> EntryView {
    EntryView {
        id: p.id@,
        title: p.name@,
        subtitle: p.owner_display_name@,
        image_url: text_or_empty(p.first_image_url),
    }
}

/// The list entry of a catalog show.
pub open spec fn show_entry(s: Show) -> EntryView {
    EntryView { id: s.id@, title: s.name@, subtitle: s.publisher@, image_url: text_or_empty(s.first_image_url) }
}

/// The list entry of a catalog artist.
pub open spec fn artist_entry(a: Artist) -> EntryView {
    EntryView { id: a.id@, title: a.name@, subtitle: Seq::empty(), image_url: text_or_empty(a.first_image_url) }
}

impl QtTrack {
    /// The list entry of a track.
    pub fn from_track(track: &Track) -> (r: Self)
        ensures
            r@ == (TrackView {
                id: track.id@,
                title: track.name@,
                artist: track.artist_names@,
                album: track.album_name@,
                duration_ms: capped_ms(track.duration_nanos),
                image_url: text_or_empty(track.album_image_url),
            }),
    {
        QtTrack {
            id: track.id.clone(),
            title: track.name.clone(),
            artist: track.artist_names.clone(),
            album: track.album_name.clone(),
            duration_ms: duration_ms(track.duration_nanos),
            image_url: string_or_empty(&track.album_image_url),
        }
    }
}

impl QtAlbum {
    /// The list entry of an album.
    pub fn from_album(album: &Album) -> (r: Self)
        ensures
            r@ == (EntryView {
                id: album.id@,
                title: album.name@,
                subtitle: text_or_empty(album.first_artist_name),
                image_url: text_or_empty(album.first_image_url),
            }),
    {
        QtAlbum {
            id: album.id.clone(),
            title: album.name.clone(),
            artist: string_or_empty(&album.first_artist_name),
            image_url: string_or_empty(&album.first_image_url),
        }
    }
}

impl QtArtist {
    /// The list entry of an artist.
    pub fn from_artist(artist: &Artist) -> (r: Self)
        ensures
            r@ == (EntryView {
                id: artist.id@,
                title: artist.name@,
                subtitle: Seq::empty(),
                image_url: text_or_empty(artist.first_image_url),
            }),
    {
        QtArtist {
            id: artist.id.clone(),
            name: artist.name.clone(),
            image_url: string_or_empty(&artist.first_image_url),
        }
    }
}

impl QtPlaylist {
    /// The list entry of a playlist.
    pub fn from_playlist(playlist: &Playlist) -> (r: Self)
        ensures
            r@ == (EntryView {
                id: playlist.id@,
                title: playlist.name@,
                subtitle: playlist.owner_display_name@,
                image_url: text_or_empty(playlist.first_image_url),
            }),
    {
        QtPlaylist {
            id: playlist.id.clone(),
            title: playlist.name.clone(),
            owner: playlist.owner_display_name.clone(),
            image_url: string_or_empty(&playlist.first_image_url),
        }
    }
}

impl QtShow {
    /// The list entry of a podcast show.
    pub fn from_show(show: &Show) -> (r: Self)
        ensures
            r@ == (EntryView {
                id: show.id@,
                title: show.name@,
                subtitle: show.publisher@,
                image_url: text_or_empty(show.first_image_url),
            }),
    {
        QtShow {
            id: show.id.clone(),
            title: show.name.clone(),
            publisher: show.publisher.clone(),
            image_url: string_or_empty(&show.first_image_url),
        }
    }
}

impl QtEpisode {
    /// The list entry of a podcast episode.
    pub fn from_episode(episode: &Episode) -> (r: Self)
        ensures
            r.id@ == episode.id@,
            r.title@ == episode.name@,
            r.show@ == episode.show_name@,
            r.duration_ms == capped_ms(episode.duration_nanos),
    {
        QtEpisode {
            id: episode.id.clone(),
            title: episode.name.clone(),
            show: episode.show_name.clone(),
            duration_ms: duration_ms(episode.duration_nanos),
        }
    }
}

} // verus!
