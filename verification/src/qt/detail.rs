//! The navigation tree and the rows of the detail pane, built from the
//! library lists, search results and account state.

use vstd::prelude::*;
use vstd::string::*;
use crate::qt::art_cache::ArtCache;
use crate::qt::models::{
    DetailRowView, EntryView, QtAlbum, QtDetailRow, QtPlaylist, QtSearchResults, QtShow, QtTrack,
    QtTreeItem, SearchView, TrackView, TreeItemView, rows_view, route_row_view, tree_view,
};
use crate::qt::navigation::{law_entry_ids_name_their_place, target_from_item_id, NavTargetView, QtNavState};
use crate::text::{chars_of, contains_ascii_lowered, contains_text, ascii_lower, decimal, decimal_string, str_equal};

verus! {

/// The small rendering shown beside an entry with image `url`: the cached
/// one, or nothing while none is cached or when there is no image.
pub open spec fn tiny_art(art: Map<Seq<char>, Seq<char>>, url: Seq<char>) -> Seq<char> {
    if url.len() == 0 {
        Seq::empty()
    } else if art.contains_key(url) {
        art[url]
    } else {
        Seq::empty()
    }
}

/// The cached small rendering for `url`, or an empty string.
pub fn tiny_tree_art_for_url(art: &ArtCache, url: &str) -> (r: String)
    requires
        art.well_formed(),
    ensures
        r@ == tiny_art(art.as_map(), url@),
{
    if url.is_empty() {
        return String::new();
    }
    match art.get(url) {
        Some(a) => a,
        None => String::new(),
    }
}

/// A tree item that leads somewhere, expanded and selectable.
pub open spec fn tree_item_view(
    id: Seq<char>,
    parent_id: Seq<char>,
    kind: Seq<char>,
    label: Seq<char>,
    meta: Seq<char>,
    image_url: Seq<char>,
    depth: i32,
    art: Map<Seq<char>, Seq<char>>,
) -> TreeItemView {
    TreeItemView {
        id,
        parent_id,
        kind,
        label,
        meta,
        image_url,
        art_ascii: tiny_art(art, image_url),
        depth,
        expanded: true,
        selectable: true,
        playable: false,
    }
}

/// The first `n` elements of `s`, or all of them.
pub open spec fn at_most<A>(s: Seq<A>, n: nat) -> Seq<A> {
    if s.len() <= n {
        s
    } else {
        s.take(n as int)
    }
}

/// The tree items of entries under a heading: one per entry, at depth 1.
pub open spec fn entry_items(
    entries: Seq<EntryView>,
    prefix: Seq<char>,
    parent_id: Seq<char>,
    kind: Seq<char>,
    art: Map<Seq<char>, Seq<char>>,
) -> Seq<TreeItemView> {
    entries.map_values(
        |e: EntryView| tree_item_view(prefix + e.id, parent_id, kind, e.title, e.subtitle, e.image_url, 1, art),
    )
}

/// `"<n> loaded"`.
pub open spec fn loaded_text(n: nat) -> Seq<char> {
    decimal(n) + " loaded"@
}

/// The navigation tree: saved tracks; playlists, albums and podcasts, each
/// with a count and at most 40 of its entries beneath it.
pub open spec fn spec_nav_tree(
    playlists: Seq<EntryView>,
    albums: Seq<EntryView>,
    shows: Seq<EntryView>,
    art: Map<Seq<char>, Seq<char>>,
) -> Seq<TreeItemView> {
    seq![tree_item_view("route:saved-tracks"@, ""@, "tracks"@, "Saved Tracks"@, ""@, ""@, 0, art)]
        + seq![tree_item_view("route:playlists"@, ""@, "playlists"@, "Playlists"@, loaded_text(playlists.len()), ""@, 0, art)]
        + entry_items(at_most(playlists, 40), "playlist:"@, "route:playlists"@, "playlist"@, art)
        + seq![tree_item_view("route:saved-albums"@, ""@, "albums"@, "Albums"@, loaded_text(albums.len()), ""@, 0, art)]
        + entry_items(at_most(albums, 40), "album:"@, "route:saved-albums"@, "album"@, art)
        + seq![tree_item_view("route:shows"@, ""@, "shows"@, "Podcasts"@, loaded_text(shows.len()), ""@, 0, art)]
        + entry_items(at_most(shows, 40), "show:"@, "route:shows"@, "show"@, art)
}

/// The views of a list of entries.
pub open spec fn entries_view<E: View<V = EntryView>>(s: Seq<E>) -> Seq<EntryView> {
    s.map_values(|e: E| e@)
}

/// Appends a tree item with an image.
pub fn push_tree_route_with_image(
    items: &mut Vec<QtTreeItem>,
    id: &str,
    parent_id: &str,
    kind: &str,
    label: &str,
    meta: &str,
    image_url: &str,
    depth: i32,
    art: &ArtCache,
)
    requires
        art.well_formed(),
    ensures
        tree_view(final(items)@) == tree_view(old(items)@).push(
            tree_item_view(id@, parent_id@, kind@, label@, meta@, image_url@, depth, art.as_map()),
        ),
{
    let item = QtTreeItem {
        id: String::from_str(id),
        parent_id: String::from_str(parent_id),
        kind: String::from_str(kind),
        label: String::from_str(label),
        meta: String::from_str(meta),
        image_url: String::from_str(image_url),
        art_ascii: tiny_tree_art_for_url(art, image_url),
        depth,
        expanded: true,
        selectable: true,
        playable: false,
    };
    items.push(item);
    assert(tree_view(items@) =~= tree_view(old(items)@).push(
        tree_item_view(id@, parent_id@, kind@, label@, meta@, image_url@, depth, art.as_map()),
    ));
}

/// Appends a tree item without an image.
pub fn push_tree_route(
    items: &mut Vec<QtTreeItem>,
    id: &str,
    parent_id: &str,
    kind: &str,
    label: &str,
    meta: &str,
    depth: i32,
    art: &ArtCache,
)
    requires
        art.well_formed(),
    ensures
        tree_view(final(items)@) == tree_view(old(items)@).push(
            tree_item_view(id@, parent_id@, kind@, label@, meta@, ""@, depth, art.as_map()),
        ),
{
    push_tree_route_with_image(items, id, parent_id, kind, label, meta, "", depth, art);
}

/// An album, playlist or show entry, read field by field.
pub trait Entry: View<V = EntryView> {
    fn entry_id(&self) -> (r: &String)
        ensures
            r@ == self@.id,
    ;

    fn entry_title(&self) -> (r: &String)
        ensures
            r@ == self@.title,
    ;

    fn entry_subtitle(&self) -> (r: String)
        ensures
            r@ == self@.subtitle,
    ;

    fn entry_image(&self) -> (r: &String)
        ensures
            r@ == self@.image_url,
    ;
}

impl Entry for QtAlbum {
    fn entry_id(&self) -> (r: &String) {
        &self.id
    }

    fn entry_title(&self) -> (r: &String) {
        &self.title
    }

    fn entry_subtitle(&self) -> (r: String) {
        self.artist.clone()
    }

    fn entry_image(&self) -> (r: &String) {
        &self.image_url
    }
}

impl Entry for QtPlaylist {
    fn entry_id(&self) -> (r: &String) {
        &self.id
    }

    fn entry_title(&self) -> (r: &String) {
        &self.title
    }

    fn entry_subtitle(&self) -> (r: String) {
        self.owner.clone()
    }

    fn entry_image(&self) -> (r: &String) {
        &self.image_url
    }
}

impl Entry for QtShow {
    fn entry_id(&self) -> (r: &String) {
        &self.id
    }

    fn entry_title(&self) -> (r: &String) {
        &self.title
    }

    fn entry_subtitle(&self) -> (r: String) {
        self.publisher.clone()
    }

    fn entry_image(&self) -> (r: &String) {
        &self.image_url
    }
}

/// Appends the tree items of at most 40 entries.
fn push_entry_items<E: Entry>(
    items: &mut Vec<QtTreeItem>,
    entries: &Vec<E>,
    prefix: &str,
    parent_id: &str,
    kind: &str,
    art: &ArtCache,
)
    requires
        art.well_formed(),
    ensures
        tree_view(final(items)@) == tree_view(old(items)@) + entry_items(
            at_most(entries_view(entries@), 40),
            prefix@,
            parent_id@,
            kind@,
            art.as_map(),
        ),
{
    let n = if entries.len() < 40 {
        entries.len()
    } else {
        40
    };
    let ghost expected = entry_items(
        at_most(entries_view(entries@), 40),
        prefix@,
        parent_id@,
        kind@,
        art.as_map(),
    );
    assert(expected.len() == n);
    let mut i: usize = 0;
    while i < n
        invariant
            art.well_formed(),
            n <= entries@.len(),
            n == expected.len(),
            expected == entry_items(
                at_most(entries_view(entries@), 40),
                prefix@,
                parent_id@,
                kind@,
                art.as_map(),
            ),
            i <= n,
            tree_view(items@) == tree_view(old(items)@) + expected.take(i as int),
        decreases n - i,
    {
        let e = &entries[i];
        let mut id = String::from_str(prefix);
        id.append(e.entry_id().as_str());
        push_tree_route_with_image(
            items,
            id.as_str(),
            parent_id,
            kind,
            e.entry_title().as_str(),
            e.entry_subtitle().as_str(),
            e.entry_image().as_str(),
            1,
            art,
        );
        assert(expected.take(i + 1) =~= expected.take(i as int).push(expected[i as int]));
        i = i + 1;
    }
    assert(expected.take(n as int) =~= expected);
}

/// Builds the navigation tree from the library lists.
pub fn nav_tree(
    _state: &QtNavState,
    playlists: &Vec<QtPlaylist>,
    albums: &Vec<QtAlbum>,
    shows: &Vec<QtShow>,
    art: &ArtCache,
) -> (r: Vec<QtTreeItem>)
    requires
        art.well_formed(),
    ensures
        tree_view(r@) == spec_nav_tree(
            entries_view(playlists@),
            entries_view(albums@),
            entries_view(shows@),
            art.as_map(),
        ),
{
    let mut items: Vec<QtTreeItem> = Vec::new();
    push_tree_route(&mut items, "route:saved-tracks", "", "tracks", "Saved Tracks", "", 0, art);
    let mut count = decimal_string(playlists.len() as u128);
    count.append(" loaded");
    push_tree_route(&mut items, "route:playlists", "", "playlists", "Playlists", count.as_str(), 0, art);
    push_entry_items(&mut items, playlists, "playlist:", "route:playlists", "playlist", art);
    let mut count = decimal_string(albums.len() as u128);
    count.append(" loaded");
    push_tree_route(&mut items, "route:saved-albums", "", "albums", "Albums", count.as_str(), 0, art);
    push_entry_items(&mut items, albums, "album:", "route:saved-albums", "album", art);
    let mut count = decimal_string(shows.len() as u128);
    count.append(" loaded");
    push_tree_route(&mut items, "route:shows", "", "shows", "Podcasts", count.as_str(), 0, art);
    push_entry_items(&mut items, shows, "show:", "route:shows", "show", art);
    assert(tree_view(items@) =~= spec_nav_tree(
        entries_view(playlists@),
        entries_view(albums@),
        entries_view(shows@),
        art.as_map(),
    ));
    items
}

/// The row of a track entry: always playable, with its small artwork.
pub open spec fn qt_track_row_view(t: TrackView, depth: i32, art: Map<Seq<char>, Seq<char>>) -> DetailRowView {
    DetailRowView {
        id: "track:"@ + t.id,
        kind: "track"@,
        label: t.title,
        meta: t.artist + " | "@ + t.album,
        image_url: t.image_url,
        art_ascii: tiny_art(art, t.image_url),
        depth,
        playable: true,
        expandable: false,
    }
}

/// The rows of a list of track entries.
pub open spec fn spec_qt_track_rows(
    tracks: Seq<TrackView>,
    depth: i32,
    art: Map<Seq<char>, Seq<char>>,
) -> Seq<DetailRowView> {
    tracks.map_values(|t: TrackView| qt_track_row_view(t, depth, art))
}

/// The views of a list of track entries.
pub open spec fn tracks_view(s: Seq<QtTrack>) -> Seq<TrackView> {
    s.map_values(|t: QtTrack| t@)
}

/// Appends the rows of `tracks`.
fn push_qt_track_rows(rows: &mut Vec<QtDetailRow>, tracks: &Vec<QtTrack>, depth: i32, art: &ArtCache)
    requires
        art.well_formed(),
    ensures
        rows_view(final(rows)@) == rows_view(old(rows)@) + spec_qt_track_rows(
            tracks_view(tracks@),
            depth,
            art.as_map(),
        ),
{
    let ghost expected = spec_qt_track_rows(tracks_view(tracks@), depth, art.as_map());
    let mut i: usize = 0;
    while i < tracks.len()
        invariant
            art.well_formed(),
            expected == spec_qt_track_rows(tracks_view(tracks@), depth, art.as_map()),
            expected.len() == tracks@.len(),
            i <= tracks@.len(),
            rows_view(rows@) == rows_view(old(rows)@) + expected.take(i as int),
        decreases tracks.len() - i,
    {
        let t = &tracks[i];
        let mut id = String::from_str("track:");
        id.append(t.id.as_str());
        let mut meta = t.artist.clone();
        meta.append(" | ");
        meta.append(t.album.as_str());
        let row = QtDetailRow {
            id,
            kind: String::from_str("track"),
            label: t.title.clone(),
            meta,
            image_url: t.image_url.clone(),
            art_ascii: tiny_tree_art_for_url(art, t.image_url.as_str()),
            depth,
            playable: true,
            expandable: false,
        };
        assert(tracks_view(tracks@)[i as int] == t@);
        assert(row@ == expected[i as int]);
        let ghost prev = rows@;
        rows.push(row);
        assert(rows_view(rows@) =~= rows_view(prev).push(expected[i as int]));
        assert(expected.take(i + 1) =~= expected.take(i as int).push(expected[i as int]));
        assert(rows_view(rows@) =~= rows_view(old(rows)@) + expected.take(i + 1));
        i = i + 1;
    }
    assert(expected.take(tracks@.len() as int) =~= expected);
}

/// The rows of track entries, each playable.
pub fn qt_track_rows(tracks: &Vec<QtTrack>, depth: i32, art: &ArtCache) -> (r: Vec<QtDetailRow>)
    requires
        art.well_formed(),
    ensures
        rows_view(r@) == spec_qt_track_rows(tracks_view(tracks@), depth, art.as_map()),
{
    let mut rows: Vec<QtDetailRow> = Vec::new();
    push_qt_track_rows(&mut rows, tracks, depth, art);
    assert(rows_view(rows@) =~= spec_qt_track_rows(tracks_view(tracks@), depth, art.as_map()));
    rows
}

/// `"<n> result(s)"`.
pub open spec fn results_text(n: nat) -> Seq<char> {
    decimal(n) + " result(s)"@
}

/// The section heading row of a search result kind.
pub open spec fn section_row(id: Seq<char>, label: Seq<char>, count: nat) -> DetailRowView {
    route_row_view(id, "section"@, label, results_text(count), 0)
}

/// The rows of entries that lead to routes, at depth 1.
pub open spec fn entry_rows(entries: Seq<EntryView>, prefix: Seq<char>, kind: Seq<char>) -> Seq<DetailRowView> {
    entries.map_values(|e: EntryView| route_row_view(prefix + e.id, kind, e.title, e.subtitle, 1))
}

/// The rows of the search view: a heading with a count for tracks, albums,
/// artists, playlists and podcasts, each followed by its results.
pub open spec fn spec_search_rows(r: SearchView, art: Map<Seq<char>, Seq<char>>) -> Seq<DetailRowView> {
    seq![section_row("route:search:tracks"@, "Tracks"@, r.tracks.len())]
        + spec_qt_track_rows(r.tracks, 1, art)
        + seq![section_row("route:search:albums"@, "Albums"@, r.albums.len())]
        + entry_rows(r.albums, "album:"@, "album"@)
        + seq![section_row("route:search:artists"@, "Artists"@, r.artists.len())]
        + entry_rows(r.artists, "artist:"@, "artist"@)
        + seq![section_row("route:search:playlists"@, "Playlists"@, r.playlists.len())]
        + entry_rows(r.playlists, "playlist:"@, "playlist"@)
        + seq![section_row("route:search:shows"@, "Podcasts"@, r.shows.len())]
        + entry_rows(r.shows, "show:"@, "show"@)
}

/// Appends a section heading with a result count.
fn push_section(rows: &mut Vec<QtDetailRow>, id: &str, label: &str, count: usize)
    ensures
        rows_view(final(rows)@) == rows_view(old(rows)@).push(section_row(id@, label@, count as nat)),
{
    let mut meta = decimal_string(count as u128);
    meta.append(" result(s)");
    rows.push(QtDetailRow::route(String::from_str(id), String::from_str("section"), String::from_str(label), meta, 0));
    assert(rows_view(rows@) =~= rows_view(old(rows)@).push(section_row(id@, label@, count as nat)));
}

/// Appends a route row for each entry.
fn push_entry_rows<E: Entry>(rows: &mut Vec<QtDetailRow>, entries: &Vec<E>, prefix: &str, kind: &str)
    ensures
        rows_view(final(rows)@) == rows_view(old(rows)@) + entry_rows(entries_view(entries@), prefix@, kind@),
{
    let ghost expected = entry_rows(entries_view(entries@), prefix@, kind@);
    let mut i: usize = 0;
    while i < entries.len()
        invariant
            expected == entry_rows(entries_view(entries@), prefix@, kind@),
            expected.len() == entries@.len(),
            i <= entries@.len(),
            rows_view(rows@) == rows_view(old(rows)@) + expected.take(i as int),
        decreases entries.len() - i,
    {
        let e = &entries[i];
        let mut id = String::from_str(prefix);
        id.append(e.entry_id().as_str());
        let row = QtDetailRow::route(id, String::from_str(kind), e.entry_title().clone(), e.entry_subtitle(), 1);
        assert(entries_view(entries@)[i as int] == e@);
        assert(row@ == expected[i as int]);
        let ghost prev = rows@;
        rows.push(row);
        assert(rows_view(rows@) =~= rows_view(prev).push(expected[i as int]));
        assert(expected.take(i + 1) =~= expected.take(i as int).push(expected[i as int]));
        assert(rows_view(rows@) =~= rows_view(old(rows)@) + expected.take(i + 1));
        i = i + 1;
    }
    assert(expected.take(entries@.len() as int) =~= expected);
}

impl Entry for crate::qt::models::QtArtist {
    fn entry_id(&self) -> (r: &String) {
        &self.id
    }

    fn entry_title(&self) -> (r: &String) {
        &self.name
    }

    fn entry_subtitle(&self) -> (r: String) {
        String::new()
    }

    fn entry_image(&self) -> (r: &String) {
        &self.image_url
    }
}

/// The rows of the search view.
pub fn search_rows(results: &QtSearchResults, art: &ArtCache) -> (r: Vec<QtDetailRow>)
    requires
        art.well_formed(),
    ensures
        rows_view(r@) == spec_search_rows(results@, art.as_map()),
{
    let mut rows: Vec<QtDetailRow> = Vec::new();
    push_section(&mut rows, "route:search:tracks", "Tracks", results.tracks.len());
    push_qt_track_rows(&mut rows, &results.tracks, 1, art);
    push_section(&mut rows, "route:search:albums", "Albums", results.albums.len());
    push_entry_rows(&mut rows, &results.albums, "album:", "album");
    push_section(&mut rows, "route:search:artists", "Artists", results.artists.len());
    push_entry_rows(&mut rows, &results.artists, "artist:", "artist");
    push_section(&mut rows, "route:search:playlists", "Playlists", results.playlists.len());
    push_entry_rows(&mut rows, &results.playlists, "playlist:", "playlist");
    push_section(&mut rows, "route:search:shows", "Podcasts", results.shows.len());
    push_entry_rows(&mut rows, &results.shows, "show:", "show");
    assert(tracks_view(results.tracks@) =~= results@.tracks);
    assert(entries_view(results.albums@) =~= results@.albums);
    assert(entries_view(results.artists@) =~= results@.artists);
    assert(entries_view(results.playlists@) =~= results@.playlists);
    assert(entries_view(results.shows@) =~= results@.shows);
    assert(rows_view(rows@) =~= spec_search_rows(results@, art.as_map()));
    rows
}

/// An account action row: a leaf at depth 1.
pub open spec fn action_row_view(id: Seq<char>, label: Seq<char>, meta: Seq<char>) -> DetailRowView {
    DetailRowView {
        id,
        kind: "action"@,
        label,
        meta,
        image_url: Seq::empty(),
        art_ascii: Seq::empty(),
        depth: 1,
        playable: false,
        expandable: false,
    }
}

/// Builds an account action row.
pub fn account_action_row(id: &str, label: &str, meta: &str) -> (r: QtDetailRow)
    ensures
        r@ == action_row_view(id@, label@, meta@),
{
    QtDetailRow {
        id: String::from_str(id),
        kind: String::from_str("action"),
        label: String::from_str(label),
        meta: String::from_str(meta),
        image_url: String::new(),
        art_ascii: String::new(),
        depth: 1,
        playable: false,
        expandable: false,
    }
}

/// The rows of the account page after the cache rows: authentication
/// actions, local data actions, and the last login error when there is one.
pub open spec fn account_tail(login_error: Seq<char>) -> Seq<DetailRowView> {
    seq![
        route_row_view("account:auth-section"@, "section"@, "Authentication"@, "Spotify OAuth and saved token controls"@, 0),
        action_row_view("account:login"@, "Start web login"@, "open Spotify auth in the browser"@),
        action_row_view("account:reauth"@, "Re-authenticate"@, "replace saved OAuth/session credentials"@),
        action_row_view("account:change-token"@, "Use key then re-auth"@, "edit the client ID field above, save it, then run web login"@),
        action_row_view("account:refresh"@, "Refresh session"@, "reload saved credentials and token state"@),
        action_row_view("account:logout"@, "Sign out"@, "clear saved credentials for this app"@),
        route_row_view("account:data-section"@, "section"@, "Local data"@, "cache and personalization maintenance"@, 0),
        action_row_view("account:clear-cache"@, "Clear cache"@, "remove cached Spotify metadata and audio files"@),
    ] + if login_error.len() == 0 {
        Seq::empty()
    } else {
        seq![route_row_view("route:login:error"@, "error"@, "Last error"@, login_error, 1)]
    }
}

/// Appends a route row built from literals.
fn push_route_row(rows: &mut Vec<QtDetailRow>, id: &str, kind: &str, label: &str, meta: &str, depth: i32)
    ensures
        rows_view(final(rows)@) == rows_view(old(rows)@).push(route_row_view(id@, kind@, label@, meta@, depth)),
{
    rows.push(QtDetailRow::route(String::from_str(id), String::from_str(kind), String::from_str(label), String::from_str(meta), depth));
    assert(rows_view(rows@) =~= rows_view(old(rows)@).push(route_row_view(id@, kind@, label@, meta@, depth)));
}

/// Appends an account action row.
fn push_action_row(rows: &mut Vec<QtDetailRow>, id: &str, label: &str, meta: &str)
    ensures
        rows_view(final(rows)@) == rows_view(old(rows)@).push(action_row_view(id@, label@, meta@)),
{
    rows.push(account_action_row(id, label, meta));
    assert(rows_view(rows@) =~= rows_view(old(rows)@).push(action_row_view(id@, label@, meta@)));
}

/// The rows of the account page: the cache rows, then the account actions.
pub fn account_rows(login_error: &str, cache_rows: Vec<QtDetailRow>) -> (r: Vec<QtDetailRow>)
    ensures
        rows_view(r@) == rows_view(cache_rows@) + account_tail(login_error@),
{
    let mut rows = cache_rows;
    push_route_row(&mut rows, "account:auth-section", "section", "Authentication", "Spotify OAuth and saved token controls", 0);
    push_action_row(&mut rows, "account:login", "Start web login", "open Spotify auth in the browser");
    push_action_row(&mut rows, "account:reauth", "Re-authenticate", "replace saved OAuth/session credentials");
    push_action_row(&mut rows, "account:change-token", "Use key then re-auth", "edit the client ID field above, save it, then run web login");
    push_action_row(&mut rows, "account:refresh", "Refresh session", "reload saved credentials and token state");
    push_action_row(&mut rows, "account:logout", "Sign out", "clear saved credentials for this app");
    push_route_row(&mut rows, "account:data-section", "section", "Local data", "cache and personalization maintenance", 0);
    push_action_row(&mut rows, "account:clear-cache", "Clear cache", "remove cached Spotify metadata and audio files");
    if !login_error.is_empty() {
        push_route_row(&mut rows, "route:login:error", "error", "Last error", login_error, 1);
    }
    assert(rows_view(rows@) =~= rows_view(cache_rows@) + account_tail(login_error@));
    rows
}

/// The label of a cache bucket, with what the known buckets hold.
pub open spec fn bucket_label(name: Seq<char>) -> Seq<char> {
    if name == "files"@ || name == "audio"@ || name == "tracks"@ {
        name + " (audio/content)"@
    } else if name == "webapi"@ || name == "metadata"@ || name == "api"@ {
        name + " (Spotify metadata)"@
    } else if name == "images"@ || name == "covers"@ {
        name + " (artwork)"@
    } else {
        name
    }
}

/// Labels a cache bucket.
pub fn cache_bucket_label(name: &str) -> (r: String)
    ensures
        r@ == bucket_label(name@),
{
    let mut label = String::from_str(name);
    if str_equal(name, "files") || str_equal(name, "audio") || str_equal(name, "tracks") {
        label.append(" (audio/content)");
    } else if str_equal(name, "webapi") || str_equal(name, "metadata") || str_equal(name, "api") {
        label.append(" (Spotify metadata)");
    } else if str_equal(name, "images") || str_equal(name, "covers") {
        label.append(" (artwork)");
    }
    label
}

/// The single row shown while a route's data loads.
pub fn loading_rows(title: &str) -> (r: Vec<QtDetailRow>)
    ensures
        rows_view(r@) == seq![route_row_view("route:loading"@, "status"@, "Loading "@ + title@, "waiting for Spotify data"@, 0)],
{
    let mut label = String::from_str("Loading ");
    label.append(title);
    let mut rows: Vec<QtDetailRow> = Vec::new();
    rows.push(QtDetailRow::route(String::from_str("route:loading"), String::from_str("status"), label, String::from_str("waiting for Spotify data"), 0));
    assert(rows_view(rows@) =~= seq![route_row_view("route:loading"@, "status"@, "Loading "@ + title@, "waiting for Spotify data"@, 0)]);
    rows
}

/// The single row shown when a route failed to load.
pub fn error_rows(error: &str) -> (r: Vec<QtDetailRow>)
    ensures
        rows_view(r@) == seq![route_row_view("route:error"@, "error"@, "Route load failed"@, error@, 0)],
{
    let mut rows: Vec<QtDetailRow> = Vec::new();
    push_route_row(&mut rows, "route:error", "error", "Route load failed", error, 0);
    assert(rows_view(rows@) =~= seq![route_row_view("route:error"@, "error"@, "Route load failed"@, error@, 0)]);
    rows
}

/// Whether an error message says that access was forbidden: it holds
/// `403` or, in any letter case, `forbidden`.
pub open spec fn forbidden_error(error: Seq<char>) -> bool {
    contains_text(ascii_lower(error), "403"@) || contains_text(ascii_lower(error), "forbidden"@)
}

/// Whether a playlist load failed because Spotify denied access.
pub fn is_forbidden_playlist_error(error: &str) -> (r: bool)
    ensures
        r == forbidden_error(error@),
{
    let v = chars_of(error);
    contains_ascii_lowered(&v, &chars_of("403")) || contains_ascii_lowered(&v, &chars_of("forbidden"))
}

/// A row with its small artwork filled in when it has an image but no art yet.
pub open spec fn enriched(row: DetailRowView, art: Map<Seq<char>, Seq<char>>) -> DetailRowView {
    if row.art_ascii.len() == 0 && row.image_url.len() != 0 {
        DetailRowView { art_ascii: tiny_art(art, row.image_url), ..row }
    } else {
        row
    }
}

/// Fills in the small artwork of rows that have an image but no art.
pub fn enrich_detail_art(rows: &mut Vec<QtDetailRow>, art: &ArtCache)
    requires
        art.well_formed(),
    ensures
        rows_view(final(rows)@) == rows_view(old(rows)@).map_values(|r: DetailRowView| enriched(r, art.as_map())),
{
    let ghost expected = rows_view(old(rows)@).map_values(|r: DetailRowView| enriched(r, art.as_map()));
    let mut i: usize = 0;
    while i < rows.len()
        invariant
            art.well_formed(),
            expected == rows_view(old(rows)@).map_values(|r: DetailRowView| enriched(r, art.as_map())),
            rows@.len() == old(rows)@.len(),
            i <= rows@.len(),
            forall|k: int| 0 <= k < i ==> (#[trigger] rows@[k])@ == expected[k],
            forall|k: int| i <= k < rows@.len() ==> (#[trigger] rows@[k]) == old(rows)@[k],
        decreases rows.len() - i,
    {
        let mut row = rows[i].clone();
        if row.art_ascii.as_str().is_empty() && !row.image_url.as_str().is_empty() {
            row.art_ascii = tiny_tree_art_for_url(art, row.image_url.as_str());
        }
        rows.set(i, row);
        i = i + 1;
    }
    assert(rows_view(rows@) =~= expected);
}

/// The index of the first item from `i` on with id `id`.
pub open spec fn first_item_index(items: Seq<TreeItemView>, id: Seq<char>, i: int) -> Option<int>
    decreases items.len() - i,
{
    if i < 0 || i >= items.len() {
        None
    } else if items[i].id == id {
        Some(i)
    } else {
        first_item_index(items, id, i + 1)
    }
}

/// The first tree item with the given id.
pub fn tree_item_by_id(items: &Vec<QtTreeItem>, item_id: &str) -> (r: Option<QtTreeItem>)
    ensures
        match first_item_index(tree_view(items@), item_id@, 0) {
            Some(k) => r is Some && r->0@ == tree_view(items@)[k],
            None => r is None,
        },
{
    let mut i: usize = 0;
    while i < items.len()
        invariant
            i <= items@.len(),
            first_item_index(tree_view(items@), item_id@, 0) == first_item_index(tree_view(items@), item_id@, i as int),
        decreases items.len() - i,
    {
        if str_equal(items[i].id.as_str(), item_id) {
            return Some(items[i].clone());
        }
        i = i + 1;
    }
    None
}

/// Whether every entry of a list has a non-empty id.
pub open spec fn ids_present(entries: Seq<EntryView>) -> bool {
    forall|k: int| 0 <= k < entries.len() ==> (#[trigger] entries[k]).id.len() > 0
}

/// Every entry of the navigation tree opens its own entry: an item under
/// the playlists heading opens a playlist of the list given, one under the
/// albums heading an album, one under the podcasts heading a podcast, each
/// by the entry's id; and no other item sits under those headings.
pub proof fn law_tree_items_open_their_entries(
    playlists: Seq<EntryView>,
    albums: Seq<EntryView>,
    shows: Seq<EntryView>,
    art: Map<Seq<char>, Seq<char>>,
    j: int,
)
    requires
        ids_present(playlists),
        ids_present(albums),
        ids_present(shows),
        0 <= j < spec_nav_tree(playlists, albums, shows, art).len(),
    ensures
        spec_nav_tree(playlists, albums, shows, art)[j].parent_id == "route:playlists"@ ==> exists|k: int|
            0 <= k < playlists.len() && #[trigger] target_from_item_id(spec_nav_tree(playlists, albums, shows, art)[j].id)
                == Some(NavTargetView::Playlist { id: playlists[k].id, name: playlists[k].id, image_url: Seq::empty() }),
        spec_nav_tree(playlists, albums, shows, art)[j].parent_id == "route:saved-albums"@ ==> exists|k: int|
            0 <= k < albums.len() && #[trigger] target_from_item_id(spec_nav_tree(playlists, albums, shows, art)[j].id)
                == Some(NavTargetView::Album { id: albums[k].id, name: albums[k].id }),
        spec_nav_tree(playlists, albums, shows, art)[j].parent_id == "route:shows"@ ==> exists|k: int|
            0 <= k < shows.len() && #[trigger] target_from_item_id(spec_nav_tree(playlists, albums, shows, art)[j].id)
                == Some(NavTargetView::Show { id: shows[k].id, name: shows[k].id }),
{
    reveal_strlit("route:playlists");
    reveal_strlit("route:saved-albums");
    reveal_strlit("route:shows");
    reveal_strlit("");
    assert("route:playlists"@.len() == 15 && "route:saved-albums"@.len() == 18 && "route:shows"@.len() == 11);
    let t = spec_nav_tree(playlists, albums, shows, art);
    let ps = at_most(playlists, 40);
    let al = at_most(albums, 40);
    let sh = at_most(shows, 40);
    let np = ps.len() as int;
    let na = al.len() as int;
    let h0 = seq![tree_item_view("route:saved-tracks"@, ""@, "tracks"@, "Saved Tracks"@, ""@, ""@, 0, art)];
    let h1 = seq![tree_item_view("route:playlists"@, ""@, "playlists"@, "Playlists"@, loaded_text(playlists.len()), ""@, 0, art)];
    let ip = entry_items(ps, "playlist:"@, "route:playlists"@, "playlist"@, art);
    let h2 = seq![tree_item_view("route:saved-albums"@, ""@, "albums"@, "Albums"@, loaded_text(albums.len()), ""@, 0, art)];
    let ia = entry_items(al, "album:"@, "route:saved-albums"@, "album"@, art);
    let h3 = seq![tree_item_view("route:shows"@, ""@, "shows"@, "Podcasts"@, loaded_text(shows.len()), ""@, 0, art)];
    let is = entry_items(sh, "show:"@, "route:shows"@, "show"@, art);
    assert(t == h0 + h1 + ip + h2 + ia + h3 + is);
    assert(ps.len() <= playlists.len() && forall|k: int| 0 <= k < ps.len() ==> ps[k] == playlists[k]);
    assert(al.len() <= albums.len() && forall|k: int| 0 <= k < al.len() ==> al[k] == albums[k]);
    assert(sh.len() <= shows.len() && forall|k: int| 0 <= k < sh.len() ==> sh[k] == shows[k]);
    if j < 2 {
        assert(t[j].parent_id == ""@);
    } else if j < 2 + np {
        let k = j - 2;
        assert(t[j] == ip[k]);
        assert(playlists[k].id.len() > 0);
        law_entry_ids_name_their_place(playlists[k].id);
        assert(target_from_item_id(t[j].id) == Some(
            NavTargetView::Playlist { id: playlists[k].id, name: playlists[k].id, image_url: Seq::empty() },
        ));
        assert(t[j].parent_id != "route:saved-albums"@);
        assert(t[j].parent_id != "route:shows"@);
    } else if j == 2 + np {
        assert(t[j].parent_id == ""@);
    } else if j < 3 + np + na {
        let k = j - 3 - np;
        assert(t[j] == ia[k]);
        assert(albums[k].id.len() > 0);
        law_entry_ids_name_their_place(albums[k].id);
        assert(target_from_item_id(t[j].id) == Some(NavTargetView::Album { id: albums[k].id, name: albums[k].id }));
        assert(t[j].parent_id != "route:playlists"@);
        assert(t[j].parent_id != "route:shows"@);
    } else if j == 3 + np + na {
        assert(t[j].parent_id == ""@);
    } else {
        let k = j - 4 - np - na;
        assert(t[j] == is[k]);
        assert(shows[k].id.len() > 0);
        law_entry_ids_name_their_place(shows[k].id);
        assert(target_from_item_id(t[j].id) == Some(NavTargetView::Show { id: shows[k].id, name: shows[k].id }));
        assert(t[j].parent_id != "route:playlists"@);
        assert(t[j].parent_id != "route:saved-albums"@);
    }
}

/// Each search result row opens the result it shows: a row of kind album
/// opens an album of the results by its id, an artist row an artist, a
/// playlist row a playlist, a podcast row a podcast.
pub proof fn law_search_rows_open_their_results(r: SearchView, art: Map<Seq<char>, Seq<char>>, j: int)
    requires
        ids_present(r.albums),
        ids_present(r.artists),
        ids_present(r.playlists),
        ids_present(r.shows),
        0 <= j < spec_search_rows(r, art).len(),
    ensures
        spec_search_rows(r, art)[j].kind == "album"@ ==> exists|k: int|
            0 <= k < r.albums.len() && #[trigger] target_from_item_id(spec_search_rows(r, art)[j].id)
                == Some(NavTargetView::Album { id: r.albums[k].id, name: r.albums[k].id }),
        spec_search_rows(r, art)[j].kind == "artist"@ ==> exists|k: int|
            0 <= k < r.artists.len() && #[trigger] target_from_item_id(spec_search_rows(r, art)[j].id)
                == Some(NavTargetView::Artist { id: r.artists[k].id, name: r.artists[k].id }),
        spec_search_rows(r, art)[j].kind == "playlist"@ ==> exists|k: int|
            0 <= k < r.playlists.len() && #[trigger] target_from_item_id(spec_search_rows(r, art)[j].id)
                == Some(NavTargetView::Playlist { id: r.playlists[k].id, name: r.playlists[k].id, image_url: Seq::empty() }),
        spec_search_rows(r, art)[j].kind == "show"@ ==> exists|k: int|
            0 <= k < r.shows.len() && #[trigger] target_from_item_id(spec_search_rows(r, art)[j].id)
                == Some(NavTargetView::Show { id: r.shows[k].id, name: r.shows[k].id }),
{
    reveal_strlit("section");
    reveal_strlit("track");
    reveal_strlit("album");
    reveal_strlit("artist");
    reveal_strlit("playlist");
    reveal_strlit("show");
    assert("section"@.len() == 7 && "track"@.len() == 5 && "album"@.len() == 5 && "artist"@.len() == 6
        && "playlist"@.len() == 8 && "show"@.len() == 4);
    assert("album"@[0] != "track"@[0]);
    let rows = spec_search_rows(r, art);
    let s0 = seq![section_row("route:search:tracks"@, "Tracks"@, r.tracks.len())];
    let rt = spec_qt_track_rows(r.tracks, 1, art);
    let s1 = seq![section_row("route:search:albums"@, "Albums"@, r.albums.len())];
    let ra = entry_rows(r.albums, "album:"@, "album"@);
    let s2 = seq![section_row("route:search:artists"@, "Artists"@, r.artists.len())];
    let rr = entry_rows(r.artists, "artist:"@, "artist"@);
    let s3 = seq![section_row("route:search:playlists"@, "Playlists"@, r.playlists.len())];
    let rp = entry_rows(r.playlists, "playlist:"@, "playlist"@);
    let s4 = seq![section_row("route:search:shows"@, "Podcasts"@, r.shows.len())];
    let rs = entry_rows(r.shows, "show:"@, "show"@);
    assert(rows == s0 + rt + s1 + ra + s2 + rr + s3 + rp + s4 + rs);
    let nt = r.tracks.len() as int;
    let na = r.albums.len() as int;
    let nr = r.artists.len() as int;
    let np = r.playlists.len() as int;
    let c1 = 1 + nt;
    let c2 = c1 + 1 + na;
    let c3 = c2 + 1 + nr;
    let c4 = c3 + 1 + np;
    if j == 0 || j == c1 || j == c2 || j == c3 || j == c4 {
        assert(rows[j].kind == "section"@);
    } else if j < c1 {
        assert(rows[j] == rt[j - 1]);
        assert(rows[j].kind == "track"@);
    } else if j < c2 {
        let k = j - c1 - 1;
        assert(rows[j] == ra[k]);
        law_entry_ids_name_their_place(r.albums[k].id);
        assert(target_from_item_id(rows[j].id) == Some(NavTargetView::Album { id: r.albums[k].id, name: r.albums[k].id }));
    } else if j < c3 {
        let k = j - c2 - 1;
        assert(rows[j] == rr[k]);
        law_entry_ids_name_their_place(r.artists[k].id);
        assert(target_from_item_id(rows[j].id) == Some(NavTargetView::Artist { id: r.artists[k].id, name: r.artists[k].id }));
    } else if j < c4 {
        let k = j - c3 - 1;
        assert(rows[j] == rp[k]);
        law_entry_ids_name_their_place(r.playlists[k].id);
        assert(target_from_item_id(rows[j].id) == Some(
            NavTargetView::Playlist { id: r.playlists[k].id, name: r.playlists[k].id, image_url: Seq::empty() },
        ));
    } else {
        let k = j - c4 - 1;
        assert(rows[j] == rs[k]);
        law_entry_ids_name_their_place(r.shows[k].id);
        assert(target_from_item_id(rows[j].id) == Some(NavTargetView::Show { id: r.shows[k].id, name: r.shows[k].id }));
    }
}

} // verus!
