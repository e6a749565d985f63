//! The state behind the Qt window: what each property shows, how moving
//! between places changes it, and how results that arrive are shown.

use vstd::prelude::*;
use vstd::string::*;
use crate::qt::art::{ascii_art_error, ascii_art_loading, ascii_art_placeholder, error_art, LOADING, PLACEHOLDER};
use crate::qt::art_cache::{finished, results_view, stored, texts, ArtCache};
use crate::data::catalog::{Album, Artist, Playlist, SearchResults, Show, Track};
use crate::text::{trim, trimmed, decimal, decimal_string, spec_strip_prefix, strip_prefix, starts_with};
use crate::qt::cache_rows::{cache_status_rows, cache_rows_from, BucketView, CacheDirInfo};
use crate::qt::detail::{
    first_item_index,
    forbidden_error, is_forbidden_playlist_error, error_rows, tree_item_by_id,
    account_rows, account_tail, enrich_detail_art, enriched, entries_view, loading_rows, nav_tree,
    qt_track_rows, search_rows, spec_nav_tree, spec_qt_track_rows, spec_search_rows, tracks_view,
};
use crate::qt::models::{
    artist_entry, QtArtist, album_entry, capped_ms, duration_ms, playlist_entry, show_entry, track_entry, route_row_view, rows_view, tree_view, DetailRowView, EntryView, QtAlbum,
    QtDetailRow, QtNavDocument, QtPlaylist, QtSearchResults, QtShow, QtTrack, QtTreeItem, SearchView,
    TrackView, TreeItemView,
};
use crate::qt::navigation::{
    is_entry, route_name, spec_back, spec_navigate, target_from_item_id, target_title, NavStateView,
    NavTargetView, QtNavState, QtNavTarget,
};
use crate::qt::playback_service::{
    registered,
    PlaybackSnapshot, PlaybackStore, PlaybackUiState, PlayerCommand, SnapshotView, ui_state_name, uninitialized_snapshot,
};
use crate::qt::playback_service;

verus! {

/// What the window shows at start-up: whether credentials were found,
/// the status line, the first route, and whether the session was set up.
pub struct StartupState {
    pub authenticated: bool,
    pub status: String,
    pub route: String,
    pub session_configured: bool,
}

/// The start-up state, as a view.
pub struct StartupView {
    pub authenticated: bool,
    pub status: Seq<char>,
    pub route: Seq<char>,
    pub session_configured: bool,
}

impl View for StartupState {
    type V = StartupView;

    open spec fn view(&self) -> StartupView {
        StartupView {
            authenticated: self.authenticated,
            status: self.status@,
            route: self.route@,
            session_configured: self.session_configured,
        }
    }
}

/// The start-up state after `set_startup_state`.
pub open spec fn spec_startup(authenticated: bool, session_configured: bool) -> StartupView {
    StartupView {
        authenticated,
        status: if session_configured {
            "Connected with saved Spotify credentials"@
        } else if authenticated {
            "Ready to load your Spotify library"@
        } else {
            "Sign in to connect Spotify"@
        },
        route: if authenticated {
            "home"@
        } else {
            "login"@
        },
        session_configured,
    }
}

impl StartupState {
    /// The state before start-up has been decided.
    pub fn starting() -> (r: Self)
        ensures
            r@ == (StartupView {
                authenticated: false,
                status: "Starting Spotix"@,
                route: "login"@,
                session_configured: false,
            }),
    {
        StartupState {
            authenticated: false,
            status: String::from_str("Starting Spotix"),
            route: String::from_str("login"),
            session_configured: false,
        }
    }

    /// A copy of this state.
    pub fn copy(&self) -> (r: Self)
        ensures
            r@ == self@,
    {
        StartupState {
            authenticated: self.authenticated,
            status: self.status.clone(),
            route: self.route.clone(),
            session_configured: self.session_configured,
        }
    }
}

/// Decides what the window shows at start-up: home when credentials were
/// found, the account page otherwise.
pub fn set_startup_state(state: &mut StartupState, authenticated: bool, session_configured: bool)
    ensures
        final(state)@ == spec_startup(authenticated, session_configured),
{
    let route = if authenticated {
        "home"
    } else {
        "login"
    };
    let status = if session_configured {
        "Connected with saved Spotify credentials"
    } else if authenticated {
        "Ready to load your Spotify library"
    } else {
        "Sign in to connect Spotify"
    };
    *state = StartupState {
        authenticated,
        status: String::from_str(status),
        route: String::from_str(route),
        session_configured,
    };
}

/// A copy of the start-up state.
pub fn startup_state(state: &StartupState) -> (r: StartupState)
    ensures
        r@ == state@,
{
    state.copy()
}

/// The properties of the window. Lists are held as values; the QML side
/// receives them as JSON. The volume is an `f64` carried by its bits.
pub struct SpotixApp {
    pub authenticated: bool,
    pub status: String,
    pub route: String,
    pub login_busy: bool,
    pub login_status: String,
    pub login_error: String,
    pub search_query: String,
    pub search_status: String,
    pub search_results: QtSearchResults,
    pub account_key: String,
    pub profile_name: String,
    pub library_status: String,
    pub playlists: Vec<QtPlaylist>,
    pub saved_tracks: Vec<QtTrack>,
    pub saved_albums: Vec<QtAlbum>,
    pub saved_shows: Vec<QtShow>,
    pub nav_tree: Vec<QtTreeItem>,
    pub active_route_title: String,
    pub active_route_art_ascii: String,
    pub detail_rows: Vec<QtDetailRow>,
    pub detail_status: String,
    pub playback_state: String,
    pub now_playing_title: String,
    pub now_playing_artist: String,
    pub now_playing_album: String,
    pub now_playing_image_url: String,
    pub now_playing_art_ascii: String,
    pub playback_status: String,
    pub queue_summary: String,
    pub playback_progress_ms: i32,
    pub playback_duration_ms: i32,
    pub volume_bits: u64,
    pub shuffle_enabled: bool,
    pub saved_track_id: String,
    pub now_playing_saved: bool,
    pub now_playing_saved_busy: bool,
    pub nav: QtNavState,
}

/// The properties of the window, as views.
#[verifier::ext_equal]
pub struct AppView {
    pub authenticated: bool,
    pub status: Seq<char>,
    pub route: Seq<char>,
    pub login_busy: bool,
    pub login_status: Seq<char>,
    pub login_error: Seq<char>,
    pub search_query: Seq<char>,
    pub search_status: Seq<char>,
    pub search_results: SearchView,
    pub account_key: Seq<char>,
    pub profile_name: Seq<char>,
    pub library_status: Seq<char>,
    pub playlists: Seq<EntryView>,
    pub saved_tracks: Seq<TrackView>,
    pub saved_albums: Seq<EntryView>,
    pub saved_shows: Seq<EntryView>,
    pub nav_tree: Seq<TreeItemView>,
    pub active_route_title: Seq<char>,
    pub active_route_art_ascii: Seq<char>,
    pub detail_rows: Seq<DetailRowView>,
    pub detail_status: Seq<char>,
    pub playback_state: Seq<char>,
    pub now_playing_title: Seq<char>,
    pub now_playing_artist: Seq<char>,
    pub now_playing_album: Seq<char>,
    pub now_playing_image_url: Seq<char>,
    pub now_playing_art_ascii: Seq<char>,
    pub playback_status: Seq<char>,
    pub queue_summary: Seq<char>,
    pub playback_progress_ms: i32,
    pub playback_duration_ms: i32,
    pub volume_bits: u64,
    pub shuffle_enabled: bool,
    pub saved_track_id: Seq<char>,
    pub now_playing_saved: bool,
    pub now_playing_saved_busy: bool,
    pub nav: NavStateView,
}

impl View for SpotixApp {
    type V = AppView;

    open spec fn view(&self) -> AppView {
        AppView {
            authenticated: self.authenticated,
            status: self.status@,
            route: self.route@,
            login_busy: self.login_busy,
            login_status: self.login_status@,
            login_error: self.login_error@,
            search_query: self.search_query@,
            search_status: self.search_status@,
            search_results: self.search_results@,
            account_key: self.account_key@,
            profile_name: self.profile_name@,
            library_status: self.library_status@,
            playlists: entries_view(self.playlists@),
            saved_tracks: tracks_view(self.saved_tracks@),
            saved_albums: entries_view(self.saved_albums@),
            saved_shows: entries_view(self.saved_shows@),
            nav_tree: tree_view(self.nav_tree@),
            active_route_title: self.active_route_title@,
            active_route_art_ascii: self.active_route_art_ascii@,
            detail_rows: rows_view(self.detail_rows@),
            detail_status: self.detail_status@,
            playback_state: self.playback_state@,
            now_playing_title: self.now_playing_title@,
            now_playing_artist: self.now_playing_artist@,
            now_playing_album: self.now_playing_album@,
            now_playing_image_url: self.now_playing_image_url@,
            now_playing_art_ascii: self.now_playing_art_ascii@,
            playback_status: self.playback_status@,
            queue_summary: self.queue_summary@,
            playback_progress_ms: self.playback_progress_ms,
            playback_duration_ms: self.playback_duration_ms,
            volume_bits: self.volume_bits,
            shuffle_enabled: self.shuffle_enabled,
            saved_track_id: self.saved_track_id@,
            now_playing_saved: self.now_playing_saved,
            now_playing_saved_busy: self.now_playing_saved_busy,
            nav: self.nav@,
        }
    }
}

/// Search results with nothing found for an empty query.
pub open spec fn empty_search() -> SearchView {
    SearchView {
        query: Seq::empty(),
        tracks: Seq::empty(),
        albums: Seq::empty(),
        artists: Seq::empty(),
        playlists: Seq::empty(),
        shows: Seq::empty(),
    }
}

/// The JSON of empty search results, as the QML side first receives them.
pub fn empty_search_json() -> (r: &'static str)
    ensures
        r@ == EMPTY_SEARCH_JSON@,
{
    EMPTY_SEARCH_JSON
}

/// The JSON of empty search results.
pub const EMPTY_SEARCH_JSON: &'static str = "{\"query\":\"\",\"tracks\":[],\"albums\":[],\"artists\":[],\"playlists\":[],\"shows\":[]}";

/// Empty search results.
pub fn empty_search_results() -> (r: QtSearchResults)
    ensures
        r@ == empty_search(),
{
    let r = QtSearchResults {
        query: String::new(),
        tracks: Vec::new(),
        albums: Vec::new(),
        artists: Vec::new(),
        playlists: Vec::new(),
        shows: Vec::new(),
    };
    assert(r@ =~= empty_search());
    r
}

/// The nav tree of the window's lists.
pub open spec fn tree_of(a: AppView, art: Map<Seq<char>, Seq<char>>) -> Seq<TreeItemView> {
    spec_nav_tree(a.playlists, a.saved_albums, a.saved_shows, art)
}

/// The images of tree items shown without their artwork, in order.
pub open spec fn tree_missing_art(items: Seq<TreeItemView>) -> Seq<Seq<char>>
    decreases items.len(),
{
    if items.len() == 0 {
        Seq::empty()
    } else {
        let rest = tree_missing_art(items.drop_last());
        let t = items.last();
        if t.image_url.len() > 0 && t.art_ascii.len() == 0 {
            rest.push(t.image_url)
        } else {
            rest
        }
    }
}

/// The images of detail rows shown without their artwork, in order.
pub open spec fn rows_missing_art(rows: Seq<DetailRowView>) -> Seq<Seq<char>>
    decreases rows.len(),
{
    if rows.len() == 0 {
        Seq::empty()
    } else {
        let rest = rows_missing_art(rows.drop_last());
        let r = rows.last();
        if r.image_url.len() > 0 && r.art_ascii.len() == 0 {
            rest.push(r.image_url)
        } else {
            rest
        }
    }
}

/// The window with the fields of a playback snapshot shown.
pub open spec fn with_playback(a: AppView, p: SnapshotView) -> AppView {
    AppView {
        playback_state: ui_state_name(p.state),
        now_playing_title: p.title,
        now_playing_artist: p.artist,
        now_playing_album: p.album,
        playback_status: p.status,
        queue_summary: p.queue_summary,
        playback_progress_ms: capped_ms(p.progress_nanos),
        playback_duration_ms: capped_ms(p.duration_nanos),
        volume_bits: p.volume_bits,
        shuffle_enabled: p.shuffle,
        ..a
    }
}

/// The window shows each field of a playback snapshot in its own place:
/// the state's name, the title, artist and album, the status and queue
/// summary, progress and length in whole milliseconds capped at
/// `i32::MAX`, the volume and shuffle; everything else stays as it was.
pub proof fn law_playback_fields_in_place(a: AppView, p: SnapshotView)
    ensures
        with_playback(a, p).now_playing_title == p.title,
        with_playback(a, p).now_playing_artist == p.artist,
        with_playback(a, p).now_playing_album == p.album,
        with_playback(a, p).playback_status == p.status,
        with_playback(a, p).queue_summary == p.queue_summary,
        p.state == PlaybackUiState::Playing ==> with_playback(a, p).playback_state == "Playing"@,
        p.state == PlaybackUiState::Paused ==> with_playback(a, p).playback_state == "Paused"@,
        p.state == PlaybackUiState::Stopped ==> with_playback(a, p).playback_state == "Stopped"@,
        p.progress_nanos / 1_000_000 <= i32::MAX ==> with_playback(a, p).playback_progress_ms == p.progress_nanos
            / 1_000_000,
        p.progress_nanos / 1_000_000 > i32::MAX ==> with_playback(a, p).playback_progress_ms == i32::MAX,
        p.duration_nanos / 1_000_000 <= i32::MAX ==> with_playback(a, p).playback_duration_ms == p.duration_nanos
            / 1_000_000,
        p.duration_nanos / 1_000_000 > i32::MAX ==> with_playback(a, p).playback_duration_ms == i32::MAX,
        with_playback(a, p).volume_bits == p.volume_bits,
        with_playback(a, p).shuffle_enabled == p.shuffle,
        with_playback(a, p).nav == a.nav,
        with_playback(a, p).detail_rows == a.detail_rows,
        with_playback(a, p).now_playing_image_url == a.now_playing_image_url,
{
}

/// The document shown at once for a place, if it needs nothing fetched:
/// its title, a status taken from the window, and its rows.
pub open spec fn spec_immediate_document(
    t: NavTargetView,
    a: AppView,
    cache_rows: Seq<DetailRowView>,
    art: Map<Seq<char>, Seq<char>>,
) -> Option<(Seq<char>, Seq<char>, Seq<DetailRowView>)> {
    if is_entry(t) {
        None
    } else {
        let status = match t {
            NavTargetView::Home => Seq::empty(),
            NavTargetView::Login => a.login_status,
            NavTargetView::Search => a.search_status,
            NavTargetView::Lyrics => "Lyrics view is still parity work."@,
            _ => a.library_status,
        };
        let rows = match t {
            NavTargetView::Login => cache_rows + account_tail(a.login_error),
            NavTargetView::SavedTracks => spec_qt_track_rows(a.saved_tracks, 0, art),
            NavTargetView::Search => spec_search_rows(a.search_results, art),
            _ => Seq::empty(),
        };
        Some((target_title(t), status, rows))
    }
}

/// The window showing a document: its title, picture, status, and rows
/// with their small artwork filled in.
pub open spec fn with_document(
    a: AppView,
    title: Seq<char>,
    art_ascii: Seq<char>,
    status: Seq<char>,
    rows: Seq<DetailRowView>,
    art: Map<Seq<char>, Seq<char>>,
) -> AppView {
    AppView {
        active_route_title: title,
        active_route_art_ascii: art_ascii,
        detail_status: status,
        detail_rows: rows.map_values(|r: DetailRowView| enriched(r, art)),
        ..a
    }
}

/// The window after going to `t`: the new place, route, title and tree;
/// then the document of the place when it is shown at once, or a loading
/// row while its data is fetched.
pub open spec fn spec_navigate_to(
    a: AppView,
    t: NavTargetView,
    push_history: bool,
    cache_rows: Seq<DetailRowView>,
    art: Map<Seq<char>, Seq<char>>,
) -> AppView {
    let moved = AppView {
        nav: spec_navigate(a.nav, t, push_history),
        route: route_name(t),
        active_route_title: target_title(t),
        nav_tree: tree_of(a, art),
        ..a
    };
    match spec_immediate_document(t, moved, cache_rows, art) {
        Some(doc) => with_document(moved, doc.0, Seq::empty(), doc.1, doc.2, art),
        None => AppView {
            detail_status: "Loading route data..."@,
            detail_rows: seq![route_row_view("route:loading"@, "status"@, "Loading "@ + target_title(t), "waiting for Spotify data"@, 0)],
            ..moved
        },
    }
}


/// `rows` are cache rows of `info`, with its buckets sorted some stable way.
pub open spec fn is_cache_rows(info: CacheDirInfo, rows: Seq<DetailRowView>) -> bool {
    exists|sorted: Seq<BucketView>, perm: Seq<int>| #[trigger] cache_rows_from(info, rows, sorted, perm)
}

/// The document shown at once for a place, if it needs nothing fetched.
pub fn immediate_nav_document(
    target: &QtNavTarget,
    app: &SpotixApp,
    cache_rows: Vec<QtDetailRow>,
    art: &ArtCache,
) -> (r: Option<QtNavDocument>)
    requires
        art.well_formed(),
    ensures
        r matches Some(d) ==> spec_immediate_document(target@, app@, rows_view(cache_rows@), art.as_map()) == Some(
            (d.title@, d.status@, rows_view(d.rows@)),
        ) && d.route_art_ascii@ == Seq::<char>::empty(),
        r is None ==> spec_immediate_document(target@, app@, rows_view(cache_rows@), art.as_map()) is None,
{
    let title = target.title();
    let status = match target {
        QtNavTarget::Home => String::new(),
        QtNavTarget::Login => app.login_status.clone(),
        QtNavTarget::Library | QtNavTarget::SavedTracks | QtNavTarget::Playlists | QtNavTarget::SavedAlbums
        | QtNavTarget::Artists | QtNavTarget::Shows => app.library_status.clone(),
        QtNavTarget::Search => app.search_status.clone(),
        QtNavTarget::Lyrics => String::from_str("Lyrics view is still parity work."),
        _ => return None,
    };
    let rows = match target {
        QtNavTarget::Login => account_rows(app.login_error.as_str(), cache_rows),
        QtNavTarget::SavedTracks => qt_track_rows(&app.saved_tracks, 0, art),
        QtNavTarget::Search => search_rows(&app.search_results, art),
        _ => Vec::new(),
    };
    assert(rows_view(Seq::<QtDetailRow>::empty()) =~= Seq::<DetailRowView>::empty());
    Some(QtNavDocument { title, status, route_art_ascii: String::new(), rows })
}

impl SpotixApp {
    /// Rebuilds the nav tree from the window's lists.
    pub fn sync_nav_tree(&mut self, art: &ArtCache)
        requires
            art.well_formed(),
        ensures
            final(self)@ == (AppView { nav_tree: tree_of(old(self)@, art.as_map()), ..old(self)@ }),
    {
        let tree = nav_tree(&self.nav, &self.playlists, &self.saved_albums, &self.saved_shows, art);
        self.nav_tree = tree;
        assert(self@ =~= (AppView { nav_tree: tree_of(old(self)@, art.as_map()), ..old(self)@ }));
    }

    /// The images of the tree items and the detail rows that are shown
    /// without their artwork, in order.
    pub fn missing_art_urls(&self) -> (r: Vec<String>)
        ensures
            texts(r@) == tree_missing_art(self@.nav_tree) + rows_missing_art(self@.detail_rows),
    {
        let mut out: Vec<String> = Vec::new();
        let mut i: usize = 0;
        while i < self.nav_tree.len()
            invariant
                i <= self.nav_tree@.len(),
                texts(out@) == tree_missing_art(tree_view(self.nav_tree@).take(i as int)),
            decreases self.nav_tree.len() - i,
        {
            let ghost next = tree_view(self.nav_tree@).take(i + 1);
            assert(next.drop_last() =~= tree_view(self.nav_tree@).take(i as int));
            let item = &self.nav_tree[i];
            if !item.image_url.as_str().is_empty() && item.art_ascii.as_str().is_empty() {
                out.push(item.image_url.clone());
            }
            assert(texts(out@) =~= tree_missing_art(next));
            i = i + 1;
        }
        assert(tree_view(self.nav_tree@).take(self.nav_tree@.len() as int) =~= tree_view(self.nav_tree@));
        let ghost tree_part = texts(out@);
        let mut j: usize = 0;
        while j < self.detail_rows.len()
            invariant
                j <= self.detail_rows@.len(),
                tree_part == tree_missing_art(tree_view(self.nav_tree@)),
                texts(out@) == tree_part + rows_missing_art(rows_view(self.detail_rows@).take(j as int)),
            decreases self.detail_rows.len() - j,
        {
            let ghost next = rows_view(self.detail_rows@).take(j + 1);
            assert(next.drop_last() =~= rows_view(self.detail_rows@).take(j as int));
            let ghost rest = rows_missing_art(rows_view(self.detail_rows@).take(j as int));
            assert(next.last() == self.detail_rows@[j as int]@);
            let row = &self.detail_rows[j];
            if !row.image_url.as_str().is_empty() && row.art_ascii.as_str().is_empty() {
                out.push(row.image_url.clone());
                assert(rows_missing_art(next) == rest.push(row.image_url@));
                assert(texts(out@) =~= (tree_part + rest).push(row.image_url@));
                assert((tree_part + rest).push(row.image_url@) =~= tree_part + rest.push(row.image_url@));
            } else {
                assert(rows_missing_art(next) == rest);
            }
            j = j + 1;
        }
        assert(rows_view(self.detail_rows@).take(self.detail_rows@.len() as int) =~= rows_view(self.detail_rows@));
        out
    }

    /// Takes in fetched small renderings, each empty when its fetch failed:
    /// stores them, then fills in the detail rows' artwork and rebuilds the
    /// tree. The window is left as it was when none came.
    pub fn apply_tree_art_results(&mut self, results: Vec<(String, String)>, art: &mut ArtCache)
        requires
            old(art).well_formed(),
        ensures
            final(art).well_formed(),
            final(art).as_map() == stored(old(art).as_map(), results_view(results@)),
            final(art).fetching() == finished(old(art).fetching(), results_view(results@)),
            results@.len() == 0 ==> final(self)@ == old(self)@,
            results@.len() > 0 ==> final(self)@ == (AppView {
                nav_tree: tree_of(old(self)@, final(art).as_map()),
                detail_rows: old(self)@.detail_rows.map_values(
                    |r: DetailRowView| enriched(r, final(art).as_map()),
                ),
                ..old(self)@
            }),
    {
        if results.len() == 0 {
            proof {
                assert(results_view(results@) =~= Seq::<(Seq<char>, Seq<char>)>::empty());
            }
            return;
        }
        art.finish_fetches(results);
        enrich_detail_art(&mut self.detail_rows, art);
        self.sync_nav_tree(art);
    }

    /// Shows a document in the detail pane.
    pub fn apply_nav_document(&mut self, document: QtNavDocument, art: &ArtCache)
        requires
            art.well_formed(),
        ensures
            final(self)@ == with_document(
                old(self)@,
                document.title@,
                document.route_art_ascii@,
                document.status@,
                rows_view(document.rows@),
                art.as_map(),
            ),
    {
        let mut rows = document.rows;
        enrich_detail_art(&mut rows, art);
        self.active_route_title = document.title;
        self.active_route_art_ascii = document.route_art_ascii;
        self.detail_status = document.status;
        self.detail_rows = rows;
        assert(self@ =~= with_document(
            old(self)@,
            document.title@,
            document.route_art_ascii@,
            document.status@,
            rows_view(document.rows@),
            art.as_map(),
        ));
    }

    /// Goes to `target`. Gives the place back when its data has to be
    /// fetched, after showing a loading row; gives `None` when its document
    /// was shown at once. `cache` is what was found of the cache directory,
    /// read for the account page.
    pub fn navigate_to(
        &mut self,
        target: &QtNavTarget,
        push_history: bool,
        cache: &CacheDirInfo,
        art: &ArtCache,
    ) -> (r: Option<QtNavTarget>)
        requires
            art.well_formed(),
        ensures
            exists|cache_rows: Seq<DetailRowView>|
                #[trigger] is_cache_rows(*cache, cache_rows) && final(self)@ == spec_navigate_to(
                    old(self)@,
                    target@,
                    push_history,
                    cache_rows,
                    art.as_map(),
                ),
            r matches Some(t) ==> t@ == target@ && is_entry(target@),
            r is None ==> !is_entry(target@),
    {
        self.nav.navigate(target, push_history);
        self.route = String::from_str(target.route());
        self.active_route_title = target.title();
        self.sync_nav_tree(art);
        let ghost moved = self@;
        let cache_rows = cache_status_rows(cache);
        let ghost cr = rows_view(cache_rows@);
        assert(is_cache_rows(*cache, cr));
        match immediate_nav_document(target, self, cache_rows, art) {
            Some(document) => {
                self.apply_nav_document(document, art);
                assert(self@ == spec_navigate_to(old(self)@, target@, push_history, cr, art.as_map()));
                None
            },
            None => {
                self.detail_status = String::from_str("Loading route data...");
                let title = target.title();
                self.detail_rows = loading_rows(title.as_str());
                assert(self@ =~= spec_navigate_to(old(self)@, target@, push_history, cr, art.as_map()));
                Some(target.clone())
            },
        }
    }

    /// Goes home, remembering the place left.
    pub fn go_home(&mut self, cache: &CacheDirInfo, art: &ArtCache) -> (r: Option<QtNavTarget>)
        requires
            art.well_formed(),
        ensures
            exists|cache_rows: Seq<DetailRowView>|
                #[trigger] is_cache_rows(*cache, cache_rows) && final(self)@ == spec_navigate_to(
                    old(self)@,
                    NavTargetView::Home,
                    true,
                    cache_rows,
                    art.as_map(),
                ),
            r is None,
    {
        self.navigate_to(&QtNavTarget::Home, true, cache, art)
    }

    /// Goes to the account page, remembering the place left.
    pub fn go_login(&mut self, cache: &CacheDirInfo, art: &ArtCache) -> (r: Option<QtNavTarget>)
        requires
            art.well_formed(),
        ensures
            exists|cache_rows: Seq<DetailRowView>|
                #[trigger] is_cache_rows(*cache, cache_rows) && final(self)@ == spec_navigate_to(
                    old(self)@,
                    NavTargetView::Login,
                    true,
                    cache_rows,
                    art.as_map(),
                ),
            r is None,
    {
        self.navigate_to(&QtNavTarget::Login, true, cache, art)
    }

    /// Goes back to the most recent place left, without remembering the
    /// current one; does nothing when there is none.
    pub fn navigate_back(&mut self, cache: &CacheDirInfo, art: &ArtCache) -> (r: Option<QtNavTarget>)
        requires
            art.well_formed(),
        ensures
            old(self)@.nav.history.len() == 0 ==> final(self)@ == old(self)@ && r is None,
            old(self)@.nav.history.len() > 0 ==> exists|cache_rows: Seq<DetailRowView>|
                #[trigger] is_cache_rows(*cache, cache_rows) && final(self)@ == spec_navigate_to(
                    AppView { nav: spec_back(old(self)@.nav), ..old(self)@ },
                    old(self)@.nav.history.last(),
                    false,
                    cache_rows,
                    art.as_map(),
                ),
    {
        match self.nav.back() {
            Some(target) => self.navigate_to(&target, false, cache, art),
            None => None,
        }
    }

    /// Goes to the place a route id names, remembering the place left; does
    /// nothing for an id that names no place.
    pub fn navigate_to_route(&mut self, route: &str, cache: &CacheDirInfo, art: &ArtCache) -> (r: Option<QtNavTarget>)
        requires
            art.well_formed(),
        ensures
            target_from_item_id(route@) is None ==> final(self)@ == old(self)@ && r is None,
            target_from_item_id(route@) matches Some(t) ==> exists|cache_rows: Seq<DetailRowView>|
                #[trigger] is_cache_rows(*cache, cache_rows) && final(self)@ == spec_navigate_to(
                    old(self)@,
                    t,
                    true,
                    cache_rows,
                    art.as_map(),
                ),
    {
        match QtNavTarget::from_item_id(route) {
            Some(target) => self.navigate_to(&target, true, cache, art),
            None => None,
        }
    }
}


/// The window as it first appears: start-up state, the first place, the
/// playback state, and everything else empty.
pub open spec fn spec_initial_app(
    startup: StartupView,
    playback: SnapshotView,
    account_key: Seq<char>,
    art: Map<Seq<char>, Seq<char>>,
) -> AppView {
    let current = match target_from_item_id(startup.route) {
        Some(t) => t,
        None => NavTargetView::Login,
    };
    AppView {
        authenticated: startup.authenticated,
        status: startup.status,
        route: startup.route,
        login_busy: false,
        login_status: if startup.authenticated {
            "Spotify credentials found"@
        } else {
            "Sign in to Spotify"@
        },
        login_error: Seq::empty(),
        search_query: Seq::empty(),
        search_status: "Search is ready"@,
        search_results: empty_search(),
        account_key,
        profile_name: Seq::empty(),
        library_status: if startup.session_configured {
            "Session configured from saved credentials"@
        } else {
            "Library not loaded"@
        },
        playlists: Seq::empty(),
        saved_tracks: Seq::empty(),
        saved_albums: Seq::empty(),
        saved_shows: Seq::empty(),
        nav_tree: spec_nav_tree(Seq::empty(), Seq::empty(), Seq::empty(), art),
        active_route_title: target_title(current),
        active_route_art_ascii: Seq::empty(),
        detail_rows: Seq::empty(),
        detail_status: Seq::empty(),
        playback_state: ui_state_name(playback.state),
        now_playing_title: playback.title,
        now_playing_artist: playback.artist,
        now_playing_album: playback.album,
        now_playing_image_url: Seq::empty(),
        now_playing_art_ascii: PLACEHOLDER@,
        playback_status: playback.status,
        queue_summary: playback.queue_summary,
        playback_progress_ms: capped_ms(playback.progress_nanos),
        playback_duration_ms: capped_ms(playback.duration_nanos),
        volume_bits: playback.volume_bits,
        shuffle_enabled: playback.shuffle,
        saved_track_id: Seq::empty(),
        now_playing_saved: false,
        now_playing_saved_busy: false,
        nav: NavStateView { current, history: Seq::empty() },
    }
}

impl SpotixApp {
    /// The window as it first appears.
    pub fn new(startup: &StartupState, playback: &PlaybackSnapshot, account_key: String, art: &ArtCache) -> (r: Self)
        requires
            art.well_formed(),
        ensures
            r@ == spec_initial_app(startup@, playback@, account_key@, art.as_map()),
    {
        let nav = QtNavState::initial(startup.route.as_str());
        let no_playlists: Vec<QtPlaylist> = Vec::new();
        let no_albums: Vec<QtAlbum> = Vec::new();
        let no_shows: Vec<QtShow> = Vec::new();
        let tree = nav_tree(&nav, &no_playlists, &no_albums, &no_shows, art);
        let title = nav.current.title();
        let r = SpotixApp {
            authenticated: startup.authenticated,
            status: startup.status.clone(),
            route: startup.route.clone(),
            login_busy: false,
            login_status: String::from_str(
                if startup.authenticated {
                    "Spotify credentials found"
                } else {
                    "Sign in to Spotify"
                },
            ),
            login_error: String::new(),
            search_query: String::new(),
            search_status: String::from_str("Search is ready"),
            search_results: empty_search_results(),
            account_key,
            profile_name: String::new(),
            library_status: String::from_str(
                if startup.session_configured {
                    "Session configured from saved credentials"
                } else {
                    "Library not loaded"
                },
            ),
            playlists: no_playlists,
            saved_tracks: Vec::new(),
            saved_albums: no_albums,
            saved_shows: no_shows,
            nav_tree: tree,
            active_route_title: title,
            active_route_art_ascii: String::new(),
            detail_rows: Vec::new(),
            detail_status: String::new(),
            playback_state: String::from_str(playback.state.as_str()),
            now_playing_title: playback.title.clone(),
            now_playing_artist: playback.artist.clone(),
            now_playing_album: playback.album.clone(),
            now_playing_image_url: String::new(),
            now_playing_art_ascii: String::from_str(ascii_art_placeholder()),
            playback_status: playback.status.clone(),
            queue_summary: playback.queue_summary.clone(),
            playback_progress_ms: duration_ms(playback.progress_nanos),
            playback_duration_ms: duration_ms(playback.duration_nanos),
            volume_bits: playback.volume_bits,
            shuffle_enabled: playback.shuffle,
            saved_track_id: String::new(),
            now_playing_saved: false,
            now_playing_saved_busy: false,
            nav,
        };
        assert(r@ =~= spec_initial_app(startup@, playback@, account_key@, art.as_map()));
        r
    }

    /// Shows the fields of a playback snapshot.
    pub fn refresh_playback(&mut self, playback: &PlaybackSnapshot)
        ensures
            final(self)@ == with_playback(old(self)@, playback@),
    {
        self.playback_state = String::from_str(playback.state.as_str());
        self.now_playing_title = playback.title.clone();
        self.now_playing_artist = playback.artist.clone();
        self.now_playing_album = playback.album.clone();
        self.playback_status = playback.status.clone();
        self.queue_summary = playback.queue_summary.clone();
        self.playback_progress_ms = duration_ms(playback.progress_nanos);
        self.playback_duration_ms = duration_ms(playback.duration_nanos);
        self.volume_bits = playback.volume_bits;
        self.shuffle_enabled = playback.shuffle;
        assert(self@ =~= with_playback(old(self)@, playback@));
    }

    /// Pauses or resumes, then shows the playback state.
    pub fn play_pause(&mut self, store: &mut PlaybackStore)
        requires
            old(store).well_formed(),
        ensures
            playback_service::sends(*old(store), *final(store), PlayerCommand::PauseOrResume),
            final(self)@ == with_playback(old(self)@, shown_of(*final(store))),
    {
        playback_service::pause_or_resume(store);
        self.refresh_playback(&playback_service::snapshot(store));
    }

    /// Goes to the previous track, then shows the playback state.
    pub fn play_previous(&mut self, store: &mut PlaybackStore)
        requires
            old(store).well_formed(),
        ensures
            playback_service::sends(*old(store), *final(store), PlayerCommand::Previous),
            final(self)@ == with_playback(old(self)@, shown_of(*final(store))),
    {
        playback_service::previous(store);
        self.refresh_playback(&playback_service::snapshot(store));
    }

    /// Goes to the next track, then shows the playback state.
    pub fn play_next(&mut self, store: &mut PlaybackStore)
        requires
            old(store).well_formed(),
        ensures
            playback_service::sends(*old(store), *final(store), PlayerCommand::Next),
            final(self)@ == with_playback(old(self)@, shown_of(*final(store))),
    {
        playback_service::next(store);
        self.refresh_playback(&playback_service::snapshot(store));
    }

    /// Stops playback, then shows the playback state.
    pub fn stop_playback(&mut self, store: &mut PlaybackStore)
        requires
            old(store).well_formed(),
        ensures
            playback_service::sends(*old(store), *final(store), PlayerCommand::Stop),
            final(self)@ == with_playback(old(self)@, shown_of(*final(store))),
    {
        playback_service::stop(store);
        self.refresh_playback(&playback_service::snapshot(store));
    }

    /// Turns shuffling on or off, then shows the playback state.
    pub fn toggle_shuffle(&mut self, store: &mut PlaybackStore)
        requires
            old(store).well_formed(),
        ensures
            final(store).well_formed(),
            final(store).ready() == old(store).ready(),
            old(store).ready() ==> final(store).shown() == (SnapshotView {
                shuffle: !old(store).shown().shuffle,
                ..old(store).shown()
            }) && final(store).known() == old(store).known() && final(store).sent() == old(store).sent().push(
                PlayerCommand::SetQueueBehavior {
                    behavior: playback_service::shuffle_behavior(!old(store).shown().shuffle),
                },
            ),
            !old(store).ready() ==> *final(store) == *old(store),
            final(self)@ == with_playback(old(self)@, shown_of(*final(store))),
    {
        let shuffle = playback_service::toggle_shuffle(store);
        self.shuffle_enabled = shuffle;
        self.refresh_playback(&playback_service::snapshot(store));
    }
}

/// The shown playback state of a store, or the state of a missing service.
pub open spec fn shown_of(store: PlaybackStore) -> SnapshotView {
    if store.ready() {
        store.shown()
    } else {
        uninitialized_snapshot()
    }
}


/// A fetched place's content: the place, its document, and the tracks it
/// lists, for playback.
pub struct QtNavPayload {
    pub target: QtNavTarget,
    pub document: QtNavDocument,
    pub tracks_for_playback: Vec<Track>,
}

/// The rows of catalog tracks.
pub open spec fn catalog_track_rows(tracks: Seq<Track>) -> Seq<DetailRowView> {
    tracks.map_values(|t: Track| crate::qt::models::track_row_view(t, 0))
}

/// The rows of catalog tracks, at depth 0.
pub fn track_rows(tracks: &Vec<Track>) -> (r: Vec<QtDetailRow>)
    ensures
        rows_view(r@) == catalog_track_rows(tracks@),
{
    let mut rows: Vec<QtDetailRow> = Vec::new();
    let mut i: usize = 0;
    while i < tracks.len()
        invariant
            i <= tracks@.len(),
            rows_view(rows@) == catalog_track_rows(tracks@).take(i as int),
        decreases tracks.len() - i,
    {
        let row = QtDetailRow::track(&tracks[i], 0);
        let ghost prev = rows@;
        rows.push(row);
        assert(rows_view(rows@) =~= rows_view(prev).push(row@));
        assert(catalog_track_rows(tracks@).take(i + 1) =~= catalog_track_rows(tracks@).take(i as int).push(row@));
        i = i + 1;
    }
    assert(catalog_track_rows(tracks@).take(tracks@.len() as int) =~= catalog_track_rows(tracks@));
    rows
}

/// Copies of catalog tracks.
pub fn copy_tracks(tracks: &Vec<Track>) -> (r: Vec<Track>)
    ensures
        r@ == tracks@,
{
    let mut out: Vec<Track> = Vec::new();
    let mut i: usize = 0;
    while i < tracks.len()
        invariant
            i <= tracks@.len(),
            out@ == tracks@.take(i as int),
        decreases tracks.len() - i,
    {
        out.push(tracks[i].copy());
        i = i + 1;
        assert(out@ =~= tracks@.take(i as int));
    }
    assert(tracks@.take(tracks@.len() as int) =~= tracks@);
    out
}

/// `a + b` as a new string.
fn cat2(a: &str, b: &str) -> (r: String)
    ensures
        r@ == a@ + b@,
{
    let mut s = String::from_str(a);
    s.append(b);
    s
}

/// `a + b + c` as a new string.
fn cat3(a: &str, b: &str, c: &str) -> (r: String)
    ensures
        r@ == a@ + b@ + c@,
{
    let mut s = String::from_str(a);
    s.append(b);
    s.append(c);
    s
}

/// The content of a playlist once its tracks were asked for: its tracks
/// listed, or, when Spotify denied access, an empty page saying so; other
/// failures are passed on. `route_art` is the rendering of its image.
pub fn playlist_payload(
    target: &QtNavTarget,
    name: &str,
    route_art: String,
    tracks: Result<Vec<Track>, String>,
) -> (r: Result<QtNavPayload, String>)
    ensures
        tracks is Err && !forbidden_error(tracks->Err_0@) ==> r == Err::<QtNavPayload, String>(tracks->Err_0),
        tracks is Err && forbidden_error(tracks->Err_0@) ==> r is Ok && {
            let p = r->Ok_0;
            &&& p.target@ == target@
            &&& p.document.title@ == name@
            &&& p.document.status@ == "Playlist | "@ + name@ + " | Spotify denied access to this playlist"@
            &&& p.document.route_art_ascii@ == route_art@
            &&& p.document.rows@.len() == 0
            &&& p.tracks_for_playback@.len() == 0
        },
        tracks is Ok ==> r is Ok && {
            let p = r->Ok_0;
            let ts = tracks->Ok_0;
            &&& p.target@ == target@
            &&& p.document.title@ == name@
            &&& p.document.status@ == "Playlist | "@ + name@ + " | "@ + decimal(ts@.len()) + " track(s)"@
            &&& p.document.route_art_ascii@ == route_art@
            &&& rows_view(p.document.rows@) == catalog_track_rows(ts@)
            &&& p.tracks_for_playback@ == ts@
        },
{
    match tracks {
        Err(e) => {
            if is_forbidden_playlist_error(e.as_str()) {
                Ok(QtNavPayload {
                    target: target.clone(),
                    document: QtNavDocument {
                        title: String::from_str(name),
                        status: cat3("Playlist | ", name, " | Spotify denied access to this playlist"),
                        route_art_ascii: route_art,
                        rows: Vec::new(),
                    },
                    tracks_for_playback: Vec::new(),
                })
            } else {
                Err(e)
            }
        },
        Ok(ts) => {
            let rows = track_rows(&ts);
            let mut status = cat3("Playlist | ", name, " | ");
            status.append(decimal_string(ts.len() as u128).as_str());
            status.append(" track(s)");
            Ok(QtNavPayload {
                target: target.clone(),
                document: QtNavDocument { title: String::from_str(name), status, route_art_ascii: route_art, rows },
                tracks_for_playback: ts,
            })
        },
    }
}

/// The content of an album: titled by the album's name, with its release,
/// its tracks listed; `name` is the name the place was opened with.
pub fn album_payload(
    target: &QtNavTarget,
    name: &str,
    album_name: &str,
    release: &str,
    route_art: String,
    tracks: Vec<Track>,
) -> (r: QtNavPayload)
    ensures
        r.target@ == target@,
        r.document.title@ == album_name@,
        r.document.status@ == "Album | "@ + name@ + " | "@ + release@,
        r.document.route_art_ascii@ == route_art@,
        rows_view(r.document.rows@) == catalog_track_rows(tracks@),
        r.tracks_for_playback@ == tracks@,
{
    let rows = track_rows(&tracks);
    let mut status = cat3("Album | ", name, " | ");
    status.append(release);
    QtNavPayload {
        target: target.clone(),
        document: QtNavDocument { title: String::from_str(album_name), status, route_art_ascii: route_art, rows },
        tracks_for_playback: tracks,
    }
}

/// The content of an artist: its top tracks listed.
pub fn artist_payload(target: &QtNavTarget, name: &str, top_tracks: Vec<Track>) -> (r: QtNavPayload)
    ensures
        r.target@ == target@,
        r.document.title@ == name@,
        r.document.status@ == "Artist | "@ + name@,
        r.document.route_art_ascii@ == Seq::<char>::empty(),
        rows_view(r.document.rows@) == catalog_track_rows(top_tracks@),
        r.tracks_for_playback@ == top_tracks@,
{
    let rows = track_rows(&top_tracks);
    QtNavPayload {
        target: target.clone(),
        document: QtNavDocument {
            title: String::from_str(name),
            status: cat2("Artist | ", name),
            route_art_ascii: String::new(),
            rows,
        },
        tracks_for_playback: top_tracks,
    }
}

/// The content of a podcast show: titled by the show's name, with no rows.
pub fn show_payload(target: &QtNavTarget, name: &str, show_name: &str) -> (r: QtNavPayload)
    ensures
        r.target@ == target@,
        r.document.title@ == show_name@,
        r.document.status@ == "Podcast | "@ + name@,
        r.document.route_art_ascii@ == Seq::<char>::empty(),
        r.document.rows@.len() == 0,
        r.tracks_for_playback@.len() == 0,
{
    QtNavPayload {
        target: target.clone(),
        document: QtNavDocument {
            title: String::from_str(show_name),
            status: cat2("Podcast | ", name),
            route_art_ascii: String::new(),
            rows: Vec::new(),
        },
        tracks_for_playback: Vec::new(),
    }
}

/// The content of a place that has nothing to fetch.
pub fn route_payload(target: &QtNavTarget) -> (r: QtNavPayload)
    ensures
        r.target@ == target@,
        r.document.title@ == target_title(target@),
        r.document.status@ == "Route loaded"@,
        r.document.route_art_ascii@ == Seq::<char>::empty(),
        r.document.rows@.len() == 0,
        r.tracks_for_playback@.len() == 0,
{
    QtNavPayload {
        target: target.clone(),
        document: QtNavDocument {
            title: target.title(),
            status: String::from_str("Route loaded"),
            route_art_ascii: String::new(),
            rows: Vec::new(),
        },
        tracks_for_playback: Vec::new(),
    }
}

/// What activating a detail row asks for.
pub enum DetailAction {
    /// Start the browser login.
    StartLogin,
    /// Refresh the session, then show the account page.
    RefreshSession,
    /// Sign out.
    Logout,
    /// Clear the cache directory, then show the account page.
    ClearCache,
    /// Play a track, with the playable tracks of the pane as its context.
    PlayTrack { track_id: String, context_ids: Vec<String> },
    /// Go to a place.
    Navigate(QtNavTarget),
    /// Nothing.
    Nothing,
}

/// The track ids of the playable track rows, in order.
pub open spec fn playable_track_ids(rows: Seq<DetailRowView>) -> Seq<Seq<char>>
    decreases rows.len(),
{
    if rows.len() == 0 {
        Seq::empty()
    } else {
        let rest = playable_track_ids(rows.drop_last());
        let r = rows.last();
        if r.playable && spec_strip_prefix(r.id, "track:"@) is Some {
            rest.push(spec_strip_prefix(r.id, "track:"@)->0)
        } else {
            rest
        }
    }
}

impl SpotixApp {
    /// What activating the detail row `row_id` asks for.
    pub fn activate_detail_row(&self, row_id: &str) -> (r: DetailAction)
        ensures
            (row_id@ == "account:login"@ || row_id@ == "account:reauth"@ || row_id@ == "account:change-token"@)
                <==> r is StartLogin,
            row_id@ == "account:refresh"@ <==> r is RefreshSession,
            row_id@ == "account:logout"@ <==> r is Logout,
            row_id@ == "account:clear-cache"@ <==> r is ClearCache,
            r matches DetailAction::PlayTrack { track_id, context_ids } ==> spec_strip_prefix(row_id@, "track:"@)
                == Some(track_id@) && context_ids@.map_values(|s: String| s@) == playable_track_ids(
                self@.detail_rows,
            ),
            r is PlayTrack <==> !is_account_action(row_id@) && spec_strip_prefix(row_id@, "track:"@) is Some,
            r matches DetailAction::Navigate(t) ==> target_from_item_id(row_id@) == Some(t@),
            r is Navigate <==> !is_account_action(row_id@) && spec_strip_prefix(row_id@, "track:"@) is None
                && target_from_item_id(row_id@) is Some,
    {
        proof {
            reveal_strlit("account:login");
            reveal_strlit("account:reauth");
            reveal_strlit("account:change-token");
            reveal_strlit("account:refresh");
            reveal_strlit("account:logout");
            reveal_strlit("account:clear-cache");
            assert("account:reauth"@[8] != "account:logout"@[8]);
        }
        if crate::text::str_equal(row_id, "account:login") || crate::text::str_equal(row_id, "account:reauth")
            || crate::text::str_equal(row_id, "account:change-token") {
            return DetailAction::StartLogin;
        }
        if crate::text::str_equal(row_id, "account:refresh") {
            return DetailAction::RefreshSession;
        }
        if crate::text::str_equal(row_id, "account:logout") {
            return DetailAction::Logout;
        }
        if crate::text::str_equal(row_id, "account:clear-cache") {
            return DetailAction::ClearCache;
        }
        match strip_prefix(row_id, "track:") {
            Some(track_id) => {
                let mut ids: Vec<String> = Vec::new();
                let mut i: usize = 0;
                while i < self.detail_rows.len()
                    invariant
                        i <= self.detail_rows@.len(),
                        ids@.map_values(|s: String| s@) == playable_track_ids(rows_view(self.detail_rows@).take(i as int)),
                    decreases self.detail_rows.len() - i,
                {
                    let row = &self.detail_rows[i];
                    let ghost before = ids@;
                    assert(rows_view(self.detail_rows@).take(i + 1).drop_last() =~= rows_view(self.detail_rows@).take(i as int));
                    if row.playable {
                        match strip_prefix(row.id.as_str(), "track:") {
                            Some(id) => {
                                ids.push(id);
                                assert(ids@.map_values(|s: String| s@) =~= before.map_values(|s: String| s@).push(id@));
                            },
                            None => {},
                        }
                    }
                    i = i + 1;
                }
                assert(rows_view(self.detail_rows@).take(self.detail_rows@.len() as int) =~= rows_view(self.detail_rows@));
                DetailAction::PlayTrack { track_id, context_ids: ids }
            },
            None => match QtNavTarget::from_item_id(row_id) {
                Some(t) => DetailAction::Navigate(t),
                None => DetailAction::Nothing,
            },
        }
    }
}

/// Whether `row_id` is one of the account actions.
pub open spec fn is_account_action(row_id: Seq<char>) -> bool {
    ||| row_id == "account:login"@
    ||| row_id == "account:reauth"@
    ||| row_id == "account:change-token"@
    ||| row_id == "account:refresh"@
    ||| row_id == "account:logout"@
    ||| row_id == "account:clear-cache"@
}


/// What activating a tree item asks for.
pub enum TreeAction {
    /// Activate the detail row with this id.
    ActivateRow(String),
    /// Go to a place.
    Navigate(QtNavTarget),
    /// Nothing.
    Nothing,
}

impl SpotixApp {
    /// What activating the tree item `item_id` asks for: a track is played as
    /// its row would be; a playlist of the tree opens with its label and
    /// image; other ids name places.
    pub fn activate_tree_item(&self, item_id: &str) -> (r: TreeAction)
        ensures
            spec_strip_prefix(item_id@, "track:"@) is Some ==> (r matches TreeAction::ActivateRow(id) && id@
                == item_id@),
            spec_strip_prefix(item_id@, "track:"@) is None && spec_strip_prefix(item_id@, "playlist:"@) is Some
                && first_item_index(self@.nav_tree, item_id@, 0) is Some ==> {
                let item = self@.nav_tree[first_item_index(self@.nav_tree, item_id@, 0)->0];
                r matches TreeAction::Navigate(t) && t@ == (NavTargetView::Playlist {
                    id: spec_strip_prefix(item_id@, "playlist:"@)->0,
                    name: item.label,
                    image_url: item.image_url,
                })
            },
            spec_strip_prefix(item_id@, "track:"@) is None && !(spec_strip_prefix(item_id@, "playlist:"@) is Some
                && first_item_index(self@.nav_tree, item_id@, 0) is Some) ==> match target_from_item_id(item_id@) {
                Some(t) => r matches TreeAction::Navigate(x) && x@ == t,
                None => r is Nothing,
            },
    {
        if starts_with(item_id, "track:") {
            return TreeAction::ActivateRow(String::from_str(item_id));
        }
        match strip_prefix(item_id, "playlist:") {
            Some(spotify_id) => {
                match tree_item_by_id(&self.nav_tree, item_id) {
                    Some(item) => {
                        return TreeAction::Navigate(
                            QtNavTarget::Playlist { id: spotify_id, name: item.label, image_url: item.image_url },
                        );
                    },
                    None => {},
                }
            },
            None => {},
        }
        match QtNavTarget::from_item_id(item_id) {
            Some(t) => TreeAction::Navigate(t),
            None => TreeAction::Nothing,
        }
    }

    /// Opens an album, remembering the place left.
    pub fn open_album(&mut self, id: String, name: String, cache: &CacheDirInfo, art: &ArtCache) -> (r: Option<QtNavTarget>)
        requires
            art.well_formed(),
        ensures
            exists|cache_rows: Seq<DetailRowView>|
                #[trigger] is_cache_rows(*cache, cache_rows) && final(self)@ == spec_navigate_to(
                    old(self)@,
                    NavTargetView::Album { id: id@, name: name@ },
                    true,
                    cache_rows,
                    art.as_map(),
                ),
            r matches Some(t) && t@ == (NavTargetView::Album { id: id@, name: name@ }),
    {
        self.navigate_to(&QtNavTarget::Album { id, name }, true, cache, art)
    }

    /// Opens an artist, remembering the place left.
    pub fn open_artist(&mut self, id: String, name: String, cache: &CacheDirInfo, art: &ArtCache) -> (r: Option<QtNavTarget>)
        requires
            art.well_formed(),
        ensures
            exists|cache_rows: Seq<DetailRowView>|
                #[trigger] is_cache_rows(*cache, cache_rows) && final(self)@ == spec_navigate_to(
                    old(self)@,
                    NavTargetView::Artist { id: id@, name: name@ },
                    true,
                    cache_rows,
                    art.as_map(),
                ),
            r matches Some(t) && t@ == (NavTargetView::Artist { id: id@, name: name@ }),
    {
        self.navigate_to(&QtNavTarget::Artist { id, name }, true, cache, art)
    }

    /// Opens a playlist, remembering the place left; its image is not known.
    pub fn open_playlist(&mut self, id: String, name: String, cache: &CacheDirInfo, art: &ArtCache) -> (r: Option<QtNavTarget>)
        requires
            art.well_formed(),
        ensures
            exists|cache_rows: Seq<DetailRowView>|
                #[trigger] is_cache_rows(*cache, cache_rows) && final(self)@ == spec_navigate_to(
                    old(self)@,
                    NavTargetView::Playlist { id: id@, name: name@, image_url: Seq::empty() },
                    true,
                    cache_rows,
                    art.as_map(),
                ),
            r matches Some(t) && t@ == (NavTargetView::Playlist { id: id@, name: name@, image_url: Seq::empty() }),
    {
        self.navigate_to(&QtNavTarget::Playlist { id, name, image_url: String::new() }, true, cache, art)
    }

    /// Opens a podcast show, remembering the place left.
    pub fn open_show(&mut self, id: String, name: String, cache: &CacheDirInfo, art: &ArtCache) -> (r: Option<QtNavTarget>)
        requires
            art.well_formed(),
        ensures
            exists|cache_rows: Seq<DetailRowView>|
                #[trigger] is_cache_rows(*cache, cache_rows) && final(self)@ == spec_navigate_to(
                    old(self)@,
                    NavTargetView::Show { id: id@, name: name@ },
                    true,
                    cache_rows,
                    art.as_map(),
                ),
            r matches Some(t) && t@ == (NavTargetView::Show { id: id@, name: name@ }),
    {
        self.navigate_to(&QtNavTarget::Show { id, name }, true, cache, art)
    }

    /// Empties the library lists and rebuilds the tree.
    pub fn clear_library_json(&mut self, art: &ArtCache)
        requires
            art.well_formed(),
        ensures
            final(self)@ == ({
                let cleared = AppView {
                    playlists: Seq::empty(),
                    saved_tracks: Seq::empty(),
                    saved_albums: Seq::empty(),
                    saved_shows: Seq::empty(),
                    ..old(self)@
                };
                AppView { nav_tree: tree_of(cleared, art.as_map()), ..cleared }
            }),
    {
        self.playlists = Vec::new();
        self.saved_tracks = Vec::new();
        self.saved_albums = Vec::new();
        self.saved_shows = Vec::new();
        assert(entries_view(Seq::<QtPlaylist>::empty()) =~= Seq::<EntryView>::empty());
        assert(entries_view(Seq::<QtAlbum>::empty()) =~= Seq::<EntryView>::empty());
        assert(entries_view(Seq::<QtShow>::empty()) =~= Seq::<EntryView>::empty());
        assert(tracks_view(Seq::<QtTrack>::empty()) =~= Seq::<TrackView>::empty());
        self.sync_nav_tree(art);
    }
}


/// `"<a> artists, <b> albums, <t> tracks, <p> playlists, <s> podcasts"`.
pub open spec fn search_summary(r: SearchView) -> Seq<char> {
    decimal(r.artists.len()) + " artists, "@ + decimal(r.albums.len()) + " albums, "@ + decimal(r.tracks.len())
        + " tracks, "@ + decimal(r.playlists.len()) + " playlists, "@ + decimal(r.shows.len()) + " podcasts"@
}

/// The library as loaded: the profile's name, the lists shown, and the
/// saved tracks for playback.
pub struct LibraryData {
    pub profile: String,
    pub playlists: Vec<QtPlaylist>,
    pub saved_tracks: Vec<QtTrack>,
    pub saved_albums: Vec<QtAlbum>,
    pub saved_shows: Vec<QtShow>,
    pub tracks_for_playback: Vec<Track>,
}

/// Whether a place shows one of the library lists.
pub open spec fn shows_library(t: NavTargetView) -> bool {
    ||| t is Library
    ||| t is SavedTracks
    ||| t is Playlists
    ||| t is SavedAlbums
    ||| t is Shows
}

/// The list entries of catalog items.
pub fn qt_tracks(items: &Vec<Track>) -> (r: Vec<QtTrack>)
    ensures
        tracks_view(r@) == items@.map_values(|x: Track| track_entry(x)),
{
    let mut out: Vec<QtTrack> = Vec::new();
    let mut i: usize = 0;
    while i < items.len()
        invariant
            i <= items@.len(),
            tracks_view(out@) == items@.take(i as int).map_values(|x: Track| track_entry(x)),
        decreases items.len() - i,
    {
        let e = QtTrack::from_track(&items[i]);
        let ghost prev = out@;
        out.push(e);
        assert(tracks_view(out@) =~= tracks_view(prev).push(e@));
        assert(items@.take(i + 1).map_values(|x: Track| track_entry(x)) =~= items@.take(i as int).map_values(|x: Track| track_entry(x)).push(e@));
        i = i + 1;
    }
    assert(items@.take(items@.len() as int) =~= items@);
    out
}

/// The list entries of catalog items.
pub fn qt_playlists(items: &Vec<Playlist>) -> (r: Vec<QtPlaylist>)
    ensures
        entries_view(r@) == items@.map_values(|x: Playlist| playlist_entry(x)),
{
    let mut out: Vec<QtPlaylist> = Vec::new();
    let mut i: usize = 0;
    while i < items.len()
        invariant
            i <= items@.len(),
            entries_view(out@) == items@.take(i as int).map_values(|x: Playlist| playlist_entry(x)),
        decreases items.len() - i,
    {
        let e = QtPlaylist::from_playlist(&items[i]);
        let ghost prev = out@;
        out.push(e);
        assert(entries_view(out@) =~= entries_view(prev).push(e@));
        assert(items@.take(i + 1).map_values(|x: Playlist| playlist_entry(x)) =~= items@.take(i as int).map_values(|x: Playlist| playlist_entry(x)).push(e@));
        i = i + 1;
    }
    assert(items@.take(items@.len() as int) =~= items@);
    out
}

/// The list entries of catalog items.
pub fn qt_albums(items: &Vec<Album>) -> (r: Vec<QtAlbum>)
    ensures
        entries_view(r@) == items@.map_values(|x: Album| album_entry(x)),
{
    let mut out: Vec<QtAlbum> = Vec::new();
    let mut i: usize = 0;
    while i < items.len()
        invariant
            i <= items@.len(),
            entries_view(out@) == items@.take(i as int).map_values(|x: Album| album_entry(x)),
        decreases items.len() - i,
    {
        let e = QtAlbum::from_album(&items[i]);
        let ghost prev = out@;
        out.push(e);
        assert(entries_view(out@) =~= entries_view(prev).push(e@));
        assert(items@.take(i + 1).map_values(|x: Album| album_entry(x)) =~= items@.take(i as int).map_values(|x: Album| album_entry(x)).push(e@));
        i = i + 1;
    }
    assert(items@.take(items@.len() as int) =~= items@);
    out
}

/// The list entries of catalog items.
pub fn qt_shows(items: &Vec<Show>) -> (r: Vec<QtShow>)
    ensures
        entries_view(r@) == items@.map_values(|x: Show| show_entry(x)),
{
    let mut out: Vec<QtShow> = Vec::new();
    let mut i: usize = 0;
    while i < items.len()
        invariant
            i <= items@.len(),
            entries_view(out@) == items@.take(i as int).map_values(|x: Show| show_entry(x)),
        decreases items.len() - i,
    {
        let e = QtShow::from_show(&items[i]);
        let ghost prev = out@;
        out.push(e);
        assert(entries_view(out@) =~= entries_view(prev).push(e@));
        assert(items@.take(i + 1).map_values(|x: Show| show_entry(x)) =~= items@.take(i as int).map_values(|x: Show| show_entry(x)).push(e@));
        i = i + 1;
    }
    assert(items@.take(items@.len() as int) =~= items@);
    out
}

/// The list entries of catalog artists.
pub fn qt_artists(items: &Vec<Artist>) -> (r: Vec<QtArtist>)
    ensures
        entries_view(r@) == items@.map_values(|x: Artist| artist_entry(x)),
{
    let mut out: Vec<QtArtist> = Vec::new();
    let mut i: usize = 0;
    while i < items.len()
        invariant
            i <= items@.len(),
            entries_view(out@) == items@.take(i as int).map_values(|x: Artist| artist_entry(x)),
        decreases items.len() - i,
    {
        let e = QtArtist::from_artist(&items[i]);
        let ghost prev = out@;
        out.push(e);
        assert(entries_view(out@) =~= entries_view(prev).push(e@));
        assert(items@.take(i + 1).map_values(|x: Artist| artist_entry(x)) =~= items@.take(i as int).map_values(|x: Artist| artist_entry(x)).push(e@));
        i = i + 1;
    }
    assert(items@.take(items@.len() as int) =~= items@);
    out
}

/// Search results as shown.
pub open spec fn search_view_of(r: SearchResults) -> SearchView {
    SearchView {
        query: r.query@,
        tracks: r.tracks@.map_values(|x: Track| track_entry(x)),
        albums: r.albums@.map_values(|x: Album| album_entry(x)),
        artists: r.artists@.map_values(|x: Artist| artist_entry(x)),
        playlists: r.playlists@.map_values(|x: Playlist| playlist_entry(x)),
        shows: r.shows@.map_values(|x: Show| show_entry(x)),
    }
}

/// Converts search results for showing.
pub fn qt_search_results(results: &SearchResults) -> (r: QtSearchResults)
    ensures
        r@ == search_view_of(*results),
{
    let r = QtSearchResults {
        query: results.query.clone(),
        tracks: qt_tracks(&results.tracks),
        albums: qt_albums(&results.albums),
        artists: qt_artists(&results.artists),
        playlists: qt_playlists(&results.playlists),
        shows: qt_shows(&results.shows),
    };
    assert(r@ =~= search_view_of(*results));
    r
}

/// The outcome of a search: refused when rate limited; otherwise the
/// search's own outcome, its tracks registered for playback and its
/// results converted for showing.
pub fn run_search(
    rate_limited: bool,
    search: Result<SearchResults, String>,
    store: &mut PlaybackStore,
) -> (r: Result<QtSearchResults, String>)
    requires
        old(store).well_formed(),
    ensures
        final(store).well_formed(),
        final(store).ready() == old(store).ready(),
        rate_limited ==> (r matches Err(e) && e@ == "Spotify search is rate limited"@) && *final(store) == *old(store),
        !rate_limited && search is Err ==> r == Err::<QtSearchResults, String>(search->Err_0) && *final(store)
            == *old(store),
        !rate_limited && search is Ok ==> (r matches Ok(q) && q@ == search_view_of(search->Ok_0)) && (old(store).ready()
            ==> final(store).known() == registered(old(store).known(), search->Ok_0.tracks@) && final(store).shown()
            == old(store).shown() && final(store).sent() == old(store).sent()),
{
    if rate_limited {
        return Err(String::from_str("Spotify search is rate limited"));
    }
    match search {
        Err(e) => Err(e),
        Ok(results) => {
            playback_service::register_tracks(store, &results.tracks);
            Ok(qt_search_results(&results))
        },
    }
}

/// The library as shown, from what was fetched of it.
pub fn library_data(
    profile: String,
    playlists: &Vec<Playlist>,
    saved_tracks: Vec<Track>,
    saved_albums: &Vec<Album>,
    saved_shows: &Vec<Show>,
) -> (r: LibraryData)
    ensures
        r.profile@ == profile@,
        entries_view(r.playlists@) == playlists@.map_values(|x: Playlist| playlist_entry(x)),
        tracks_view(r.saved_tracks@) == saved_tracks@.map_values(|x: Track| track_entry(x)),
        entries_view(r.saved_albums@) == saved_albums@.map_values(|x: Album| album_entry(x)),
        entries_view(r.saved_shows@) == saved_shows@.map_values(|x: Show| show_entry(x)),
        r.tracks_for_playback@ == saved_tracks@,
{
    let qt_playlists = qt_playlists(playlists);
    let tracks = qt_tracks(&saved_tracks);
    let albums = qt_albums(saved_albums);
    let shows = qt_shows(saved_shows);
    LibraryData {
        profile,
        playlists: qt_playlists,
        saved_tracks: tracks,
        saved_albums: albums,
        saved_shows: shows,
        tracks_for_playback: saved_tracks,
    }
}

impl SpotixApp {
    /// Shows the outcome of a search: on success a summary and the results,
    /// refreshing the search page if it is shown; on failure the error and
    /// no results.
    pub fn apply_search_result(
        &mut self,
        result: Result<QtSearchResults, String>,
        cache: &CacheDirInfo,
        art: &ArtCache,
    )
        requires
            art.well_formed(),
        ensures
            result is Err ==> final(self)@ == (AppView {
                search_status: "Search failed: "@ + result->Err_0@,
                search_results: empty_search(),
                ..old(self)@
            }),
            result is Ok && !(old(self)@.nav.current is Search) ==> final(self)@ == (AppView {
                search_status: search_summary(result->Ok_0@),
                search_results: result->Ok_0@,
                ..old(self)@
            }),
            result is Ok && old(self)@.nav.current is Search ==> exists|cache_rows: Seq<DetailRowView>|
                #[trigger] is_cache_rows(*cache, cache_rows) && final(self)@ == spec_navigate_to(
                    AppView {
                        search_status: search_summary(result->Ok_0@),
                        search_results: result->Ok_0@,
                        ..old(self)@
                    },
                    NavTargetView::Search,
                    false,
                    cache_rows,
                    art.as_map(),
                ),
    {
        match result {
            Ok(results) => {
                let mut message = decimal_string(results.artists.len() as u128);
                message.append(" artists, ");
                message.append(decimal_string(results.albums.len() as u128).as_str());
                message.append(" albums, ");
                message.append(decimal_string(results.tracks.len() as u128).as_str());
                message.append(" tracks, ");
                message.append(decimal_string(results.playlists.len() as u128).as_str());
                message.append(" playlists, ");
                message.append(decimal_string(results.shows.len() as u128).as_str());
                message.append(" podcasts");
                self.search_status = message;
                self.search_results = results;
                let is_search = match self.nav.current {
                    QtNavTarget::Search => true,
                    _ => false,
                };
                if is_search {
                    self.navigate_to(&QtNavTarget::Search, false, cache, art);
                }
            },
            Err(err) => {
                self.search_status = cat2("Search failed: ", err.as_str());
                self.search_results = empty_search_results();
            },
        }
    }

    /// Shows the outcome of loading the library: on success registers the
    /// saved tracks for playback, shows the lists and refreshes a library
    /// page that is shown; on failure the error.
    pub fn apply_library_result(
        &mut self,
        result: Result<LibraryData, String>,
        store: &mut PlaybackStore,
        cache: &CacheDirInfo,
        art: &ArtCache,
    )
        requires
            art.well_formed(),
            old(store).well_formed(),
        ensures
            final(store).well_formed(),
            final(store).ready() == old(store).ready(),
            result is Err ==> final(self)@ == (AppView {
                library_status: "Library load failed: "@ + result->Err_0@,
                ..old(self)@
            }) && *final(store) == *old(store),
            result is Ok ==> {
                let lib = result->Ok_0;
                let loaded = AppView {
                    profile_name: lib.profile@,
                    playlists: entries_view(lib.playlists@),
                    saved_tracks: tracks_view(lib.saved_tracks@),
                    saved_albums: entries_view(lib.saved_albums@),
                    saved_shows: entries_view(lib.saved_shows@),
                    library_status: "Library loaded"@,
                    ..old(self)@
                };
                let synced = AppView { nav_tree: tree_of(loaded, art.as_map()), ..loaded };
                &&& old(store).ready() ==> final(store).known() == registered(old(store).known(), lib.tracks_for_playback@)
                    && final(store).shown() == old(store).shown() && final(store).sent() == old(store).sent()
                &&& !shows_library(old(self)@.nav.current) ==> final(self)@ == synced
                &&& shows_library(old(self)@.nav.current) ==> exists|cache_rows: Seq<DetailRowView>|
                    #[trigger] is_cache_rows(*cache, cache_rows) && final(self)@ == spec_navigate_to(
                        synced,
                        old(self)@.nav.current,
                        false,
                        cache_rows,
                        art.as_map(),
                    )
            },
    {
        match result {
            Ok(library) => {
                playback_service::register_tracks(store, &library.tracks_for_playback);
                self.profile_name = library.profile;
                self.playlists = library.playlists;
                self.saved_tracks = library.saved_tracks;
                self.saved_albums = library.saved_albums;
                self.saved_shows = library.saved_shows;
                self.library_status = String::from_str("Library loaded");
                self.sync_nav_tree(art);
                let refresh = match self.nav.current {
                    QtNavTarget::Library | QtNavTarget::SavedTracks | QtNavTarget::Playlists
                    | QtNavTarget::SavedAlbums | QtNavTarget::Shows => true,
                    _ => false,
                };
                if refresh {
                    let current = self.nav.current.clone();
                    self.navigate_to(&current, false, cache, art);
                }
            },
            Err(err) => {
                self.library_status = cat2("Library load failed: ", err.as_str());
            },
        }
    }

    /// Shows the content of a fetched place when that place is still shown,
    /// registering its tracks for playback, and rebuilds the tree; on
    /// failure shows the error.
    pub fn apply_nav_result(
        &mut self,
        result: Result<QtNavPayload, String>,
        store: &mut PlaybackStore,
        art: &ArtCache,
    )
        requires
            art.well_formed(),
            old(store).well_formed(),
        ensures
            final(store).well_formed(),
            final(store).ready() == old(store).ready(),
            result is Err ==> final(self)@ == (AppView {
                detail_status: "Route load failed: "@ + result->Err_0@,
                detail_rows: seq![route_row_view("route:error"@, "error"@, "Route load failed"@, result->Err_0@, 0)],
                ..old(self)@
            }) && *final(store) == *old(store),
            result is Ok && old(self)@.nav.current != result->Ok_0.target@ ==> final(self)@ == (AppView {
                nav_tree: tree_of(old(self)@, art.as_map()),
                ..old(self)@
            }) && *final(store) == *old(store),
            result is Ok && old(self)@.nav.current == result->Ok_0.target@ ==> {
                let p = result->Ok_0;
                let shown = with_document(
                    old(self)@,
                    p.document.title@,
                    p.document.route_art_ascii@,
                    p.document.status@,
                    rows_view(p.document.rows@),
                    art.as_map(),
                );
                &&& final(self)@ == AppView { nav_tree: tree_of(shown, art.as_map()), ..shown }
                &&& old(store).ready() ==> final(store).known() == registered(old(store).known(), p.tracks_for_playback@)
                    && final(store).shown() == old(store).shown() && final(store).sent() == old(store).sent()
            },
    {
        match result {
            Ok(payload) => {
                if self.nav.current.same_as(&payload.target) {
                    playback_service::register_tracks(store, &payload.tracks_for_playback);
                    self.apply_nav_document(payload.document, art);
                }
                self.sync_nav_tree(art);
            },
            Err(err) => {
                self.detail_status = cat2("Route load failed: ", err.as_str());
                self.detail_rows = error_rows(err.as_str());
            },
        }
    }
}


/// What the now-playing track's saved state became, or why it is unknown.
pub struct SavedTrackResult {
    pub saved: bool,
    pub status: Option<String>,
}

impl SpotixApp {
    /// Starts a search of the query typed: gives the trimmed query to search
    /// for, after showing that the search runs; gives `None` after showing
    /// why not when the query is empty or search is rate limited.
    pub fn submit_search(&mut self, rate_limited: bool) -> (r: Option<String>)
        ensures
            trimmed(old(self)@.search_query).len() == 0 ==> r is None && final(self)@ == (AppView {
                search_status: "Enter a search term first"@,
                ..old(self)@
            }),
            trimmed(old(self)@.search_query).len() > 0 && rate_limited ==> r is None && final(self)@ == (AppView {
                search_status: "Spotify search is rate limited"@,
                ..old(self)@
            }),
            trimmed(old(self)@.search_query).len() > 0 && !rate_limited ==> (r matches Some(q) && q@ == trimmed(
                old(self)@.search_query,
            )) && final(self)@ == (AppView { search_status: "Searching Spotify..."@, ..old(self)@ }),
    {
        let query = trim(self.search_query.as_str());
        if query.as_str().is_empty() {
            self.search_status = String::from_str("Enter a search term first");
            return None;
        }
        if rate_limited {
            self.search_status = String::from_str("Spotify search is rate limited");
            return None;
        }
        self.search_status = String::from_str("Searching Spotify...");
        Some(query)
    }

    /// Starts loading the library when signed in; gives whether it should be
    /// fetched.
    pub fn load_library(&mut self) -> (r: bool)
        ensures
            r == old(self)@.authenticated,
            r ==> final(self)@ == (AppView { library_status: "Loading Spotify library..."@, ..old(self)@ }),
            !r ==> final(self)@ == (AppView { library_status: "Sign in before loading your library"@, ..old(self)@ }),
    {
        if !self.authenticated {
            self.library_status = String::from_str("Sign in before loading your library");
            return false;
        }
        self.library_status = String::from_str("Loading Spotify library...");
        true
    }

    /// Starts the browser login unless one runs; gives whether to go on.
    /// Without a runtime it shows that instead.
    pub fn start_spotify_login(&mut self, runtime_ready: bool) -> (r: bool)
        ensures
            old(self)@.login_busy ==> !r && final(self)@ == old(self)@,
            !old(self)@.login_busy && !runtime_ready ==> !r && final(self)@ == (AppView {
                login_error: "Qt runtime is not initialized"@,
                ..old(self)@
            }),
            !old(self)@.login_busy && runtime_ready ==> r && final(self)@ == (AppView {
                login_busy: true,
                login_status: "Opening Spotify login in your browser..."@,
                login_error: Seq::empty(),
                ..old(self)@
            }),
    {
        if self.login_busy {
            return false;
        }
        if !runtime_ready {
            self.login_error = String::from_str("Qt runtime is not initialized");
            return false;
        }
        self.login_busy = true;
        self.login_status = String::from_str("Opening Spotify login in your browser...");
        self.login_error = String::new();
        true
    }

    /// Shows that the login could not open the browser.
    pub fn show_browser_error(&self, message: &str) -> (r: String)
        ensures
            r@ == "Failed to open browser: "@ + message@,
    {
        cat2("Failed to open browser: ", message)
    }

    /// Signs out: shows the signed-out window on the account page, marks
    /// playback as no longer set up, and gives the change to the stored
    /// configuration: its credentials are cleared.
    pub fn logout(&mut self, playback_configured: &mut bool, cache: &CacheDirInfo, art: &ArtCache) -> (r: ConfigChange)
        requires
            art.well_formed(),
        ensures
            r == ConfigChange::ClearCredentials,
            !*final(playback_configured),
            exists|cache_rows: Seq<DetailRowView>|
                #[trigger] is_cache_rows(*cache, cache_rows) && final(self)@ == spec_navigate_to(
                    signed_out(old(self)@, art.as_map()),
                    NavTargetView::Login,
                    false,
                    cache_rows,
                    art.as_map(),
                ),
    {
        self.authenticated = false;
        self.status = String::from_str("Signed out");
        self.login_status = String::from_str("Signed out");
        self.login_error = String::new();
        self.profile_name = String::new();
        self.library_status = String::from_str("Library cleared");
        self.clear_library_json(art);
        self.navigate_to(&QtNavTarget::Login, false, cache, art);
        *playback_configured = false;
        ConfigChange::ClearCredentials
    }

    /// Shows the outcome of clearing the cache directory, then the account
    /// page: the message on success, with the library marked as cleared;
    /// the error otherwise.
    pub fn apply_cache_cleared(&mut self, result: Result<String, String>, cache: &CacheDirInfo, art: &ArtCache)
        requires
            art.well_formed(),
        ensures
            exists|cache_rows: Seq<DetailRowView>|
                #[trigger] is_cache_rows(*cache, cache_rows) && final(self)@ == spec_navigate_to(
                    cache_cleared(old(self)@, result),
                    NavTargetView::Login,
                    false,
                    cache_rows,
                    art.as_map(),
                ),
    {
        match result {
            Ok(message) => {
                self.detail_status = message;
                self.library_status = String::from_str("Cache cleared");
            },
            Err(err) => {
                self.detail_status = cat2("Cache clear failed: ", err.as_str());
            },
        }
        self.navigate_to(&QtNavTarget::Login, false, cache, art);
    }

    /// Shows that Spotify revoked the saved login, on the account page, and
    /// gives the change to the stored configuration: its credentials are
    /// cleared.
    pub fn show_login_expired(&mut self, cache: &CacheDirInfo, art: &ArtCache) -> (r: ConfigChange)
        requires
            art.well_formed(),
        ensures
            r == ConfigChange::ClearCredentials,
            exists|cache_rows: Seq<DetailRowView>|
                #[trigger] is_cache_rows(*cache, cache_rows) && final(self)@ == spec_navigate_to(
                    login_expired(old(self)@, art.as_map()),
                    NavTargetView::Login,
                    false,
                    cache_rows,
                    art.as_map(),
                ),
    {
        self.authenticated = false;
        self.login_status = String::from_str("Spotify login expired");
        self.login_error = String::from_str("Spotify revoked the saved refresh token. Please log in again.");
        self.status = String::from_str("Spotify login expired");
        self.library_status = String::from_str("Login required");
        self.clear_library_json(art);
        self.navigate_to(&QtNavTarget::Login, false, cache, art);
        ConfigChange::ClearCredentials
    }

    /// Saves the Web API client id typed as `key`, trimmed: with a runtime
    /// it gives the change to the stored configuration (no id, meaning the
    /// bundled one, when the trimmed key is empty) and shows it; without one
    /// it shows that nothing could be saved. Either way it shows the account
    /// page.
    pub fn save_account_key(
        &mut self,
        key: &str,
        runtime_ready: bool,
        cache: &CacheDirInfo,
        art: &ArtCache,
    ) -> (r: ConfigChange)
        requires
            art.well_formed(),
        ensures
            !runtime_ready ==> r == ConfigChange::Keep,
            runtime_ready && trimmed(key@).len() == 0 ==> r == (ConfigChange::SetClientId { client_id: None }),
            runtime_ready && trimmed(key@).len() > 0 ==> (r matches ConfigChange::SetClientId { client_id } && client_id
                matches Some(c) && c@ == trimmed(key@)),
            exists|cache_rows: Seq<DetailRowView>|
                #[trigger] is_cache_rows(*cache, cache_rows) && final(self)@ == spec_navigate_to(
                    account_key_shown(old(self)@, key@, runtime_ready),
                    NavTargetView::Login,
                    false,
                    cache_rows,
                    art.as_map(),
                ),
    {
        let change = if runtime_ready {
            let trimmed_key = trim(key);
            let empty = trimmed_key.as_str().is_empty();
            let message = if empty {
                "Using the bundled Spotify Web API client ID"
            } else {
                "Saved Spotify Web API client ID"
            };
            let client_id = if empty {
                None
            } else {
                Some(trimmed_key.clone())
            };
            self.account_key = trimmed_key;
            self.login_status = String::from_str(message);
            self.detail_status = String::from_str(message);
            ConfigChange::SetClientId { client_id }
        } else {
            self.detail_status = String::from_str("Qt runtime is not initialized");
            ConfigChange::Keep
        };
        self.navigate_to(&QtNavTarget::Login, false, cache, art);
        change
    }

    /// Shows the outcome of a track's playback request, then the playback state.
    pub fn show_play_result(&mut self, result: Result<String, String>, store: &PlaybackStore)
        ensures
            result is Ok ==> final(self)@ == with_playback(
                AppView { playback_status: result->Ok_0@, ..old(self)@ },
                shown_of(*store),
            ),
            result is Err ==> final(self)@ == (AppView {
                playback_status: "Playback failed: "@ + result->Err_0@,
                ..old(self)@
            }),
    {
        match result {
            Ok(message) => {
                self.playback_status = message;
                self.refresh_playback(&playback_service::snapshot(store));
            },
            Err(err) => {
                self.playback_status = cat2("Playback failed: ", err.as_str());
            },
        }
    }

    /// Plays a track by id and shows the outcome.
    pub fn play_track(&mut self, id: &str, store: &mut PlaybackStore)
        requires
            old(store).well_formed(),
        ensures
            exists|r: Result<String, String>|
                #[trigger] playback_service::play_id_outcome(*old(store), id@, *final(store), r) && final(self)@ == (
                match r {
                    Ok(m) => with_playback(AppView { playback_status: m@, ..old(self)@ }, shown_of(*final(store))),
                    Err(e) => AppView { playback_status: "Playback failed: "@ + e@, ..old(self)@ },
                }),
    {
        let result = playback_service::play_track_id(store, id);
        self.show_play_result(result, store);
    }

    /// Shows the outcome of playing the first search result: on success in
    /// the search status, then the playback state; on failure in the
    /// playback status.
    pub fn show_first_result_played(&mut self, result: Result<String, String>, store: &PlaybackStore)
        ensures
            result is Ok ==> final(self)@ == with_playback(
                AppView {
                    playback_status: "Loading first search result..."@,
                    search_status: result->Ok_0@,
                    ..old(self)@
                },
                shown_of(*store),
            ),
            result is Err ==> final(self)@ == (AppView {
                playback_status: "Playback failed: "@ + result->Err_0@,
                ..old(self)@
            }),
    {
        self.playback_status = String::from_str("Loading first search result...");
        match result {
            Ok(message) => {
                self.search_status = message;
                self.refresh_playback(&playback_service::snapshot(store));
            },
            Err(err) => {
                self.playback_status = cat2("Playback failed: ", err.as_str());
            },
        }
    }

    /// Starts saving or unsaving the track playing: gives its id and the
    /// state asked for, after showing it; with nothing playing shows that.
    pub fn toggle_now_playing_saved(&mut self, playing_track_id: &str) -> (r: Option<(String, bool)>)
        ensures
            playing_track_id@.len() == 0 ==> r is None && final(self)@ == (AppView {
                playback_status: "No playing track to update"@,
                ..old(self)@
            }),
            playing_track_id@.len() > 0 ==> (r matches Some(p) && p.0@ == playing_track_id@ && p.1
                == !old(self)@.now_playing_saved) && final(self)@ == (AppView {
                saved_track_id: playing_track_id@,
                now_playing_saved: !old(self)@.now_playing_saved,
                now_playing_saved_busy: true,
                playback_status: if !old(self)@.now_playing_saved {
                    "Adding to Saved Tracks"@
                } else {
                    "Removing from Saved Tracks"@
                },
                ..old(self)@
            }),
    {
        if playing_track_id.is_empty() {
            self.playback_status = String::from_str("No playing track to update");
            return None;
        }
        let target_saved = !self.now_playing_saved;
        self.saved_track_id = String::from_str(playing_track_id);
        self.now_playing_saved = target_saved;
        self.now_playing_saved_busy = true;
        self.playback_status = String::from_str(
            if target_saved {
                "Adding to Saved Tracks"
            } else {
                "Removing from Saved Tracks"
            },
        );
        Some((String::from_str(playing_track_id), target_saved))
    }

    /// Follows the track playing for the saved state: clears it when nothing
    /// plays; for a new track gives its id to check, after marking it busy.
    pub fn sync_now_playing_saved(&mut self, track_id: &str) -> (r: Option<String>)
        ensures
            track_id@.len() == 0 ==> r is None && final(self)@ == (AppView {
                saved_track_id: Seq::empty(),
                now_playing_saved: false,
                now_playing_saved_busy: false,
                ..old(self)@
            }),
            track_id@.len() > 0 && old(self)@.saved_track_id == track_id@ ==> r is None && final(self)@ == old(self)@,
            track_id@.len() > 0 && old(self)@.saved_track_id != track_id@ ==> (r matches Some(id) && id@ == track_id@)
                && final(self)@ == (AppView {
                saved_track_id: track_id@,
                now_playing_saved: false,
                now_playing_saved_busy: true,
                ..old(self)@
            }),
    {
        if track_id.is_empty() {
            self.saved_track_id = String::new();
            self.now_playing_saved = false;
            self.now_playing_saved_busy = false;
            return None;
        }
        if crate::text::str_equal(self.saved_track_id.as_str(), track_id) {
            return None;
        }
        self.saved_track_id = String::from_str(track_id);
        self.now_playing_saved = false;
        self.now_playing_saved_busy = true;
        Some(String::from_str(track_id))
    }

    /// Shows the outcome of a saved-state request when it is for the track
    /// followed; others are ignored.
    pub fn apply_saved_track_result(&mut self, track_id: &str, result: Result<SavedTrackResult, String>)
        ensures
            old(self)@.saved_track_id != track_id@ ==> final(self)@ == old(self)@,
            old(self)@.saved_track_id == track_id@ && result is Err ==> final(self)@ == (AppView {
                now_playing_saved_busy: false,
                playback_status: result->Err_0@,
                ..old(self)@
            }),
            old(self)@.saved_track_id == track_id@ && result is Ok ==> final(self)@ == (AppView {
                now_playing_saved_busy: false,
                now_playing_saved: result->Ok_0.saved,
                playback_status: match result->Ok_0.status {
                    Some(s) => s@,
                    None => old(self)@.playback_status,
                },
                ..old(self)@
            }),
    {
        if !crate::text::str_equal(self.saved_track_id.as_str(), track_id) {
            return;
        }
        self.now_playing_saved_busy = false;
        match result {
            Ok(r) => {
                self.now_playing_saved = r.saved;
                match r.status {
                    Some(status) => {
                        self.playback_status = status;
                    },
                    None => {},
                }
            },
            Err(status) => {
                self.playback_status = status;
            },
        }
    }

    /// Follows the artwork of the track playing: the placeholder without an
    /// image; nothing new for the same image already drawn; otherwise the
    /// loading picture, and gives the image to fetch.
    pub fn refresh_ascii_art(&mut self, image_url: &str, previous_image_url: &str) -> (r: Option<String>)
        ensures
            image_url@.len() == 0 ==> r is None && final(self)@ == (AppView {
                now_playing_art_ascii: PLACEHOLDER@,
                ..old(self)@
            }),
            image_url@.len() > 0 && previous_image_url@ == image_url@ && old(self)@.now_playing_art_ascii.len() > 0
                ==> r is None && final(self)@ == old(self)@,
            image_url@.len() > 0 && !(previous_image_url@ == image_url@ && old(self)@.now_playing_art_ascii.len() > 0)
                ==> (r matches Some(u) && u@ == image_url@) && final(self)@ == (AppView {
                now_playing_art_ascii: LOADING@,
                ..old(self)@
            }),
    {
        if image_url.is_empty() {
            self.now_playing_art_ascii = String::from_str(ascii_art_placeholder());
            return None;
        }
        if crate::text::str_equal(previous_image_url, image_url) && !self.now_playing_art_ascii.as_str().is_empty() {
            return None;
        }
        self.now_playing_art_ascii = String::from_str(ascii_art_loading());
        Some(String::from_str(image_url))
    }

    /// Shows fetched artwork when it is for the image shown; others are
    /// ignored. A failure shows the error picture.
    pub fn apply_art_result(&mut self, url: &str, result: Result<String, String>)
        ensures
            old(self)@.now_playing_image_url != url@ ==> final(self)@ == old(self)@,
            old(self)@.now_playing_image_url == url@ && result is Ok ==> final(self)@ == (AppView {
                now_playing_art_ascii: result->Ok_0@,
                ..old(self)@
            }),
            old(self)@.now_playing_image_url == url@ && result is Err ==> final(self)@ == (AppView {
                now_playing_art_ascii: error_art(result->Err_0@),
                ..old(self)@
            }),
    {
        if !crate::text::str_equal(self.now_playing_image_url.as_str(), url) {
            return;
        }
        match result {
            Ok(ascii) => {
                self.now_playing_art_ascii = ascii;
            },
            Err(err) => {
                self.now_playing_art_ascii = ascii_art_error(err.as_str());
            },
        }
    }
}

/// The window after clearing the cache ended with `result`.
pub open spec fn cache_cleared(a: AppView, result: Result<String, String>) -> AppView {
    match result {
        Ok(m) => AppView { detail_status: m@, library_status: "Cache cleared"@, ..a },
        Err(e) => AppView { detail_status: "Cache clear failed: "@ + e@, ..a },
    }
}

/// The window signed out: no credentials, empty library lists.
pub open spec fn signed_out(a: AppView, art: Map<Seq<char>, Seq<char>>) -> AppView {
    let cleared = AppView {
        authenticated: false,
        status: "Signed out"@,
        login_status: "Signed out"@,
        login_error: Seq::empty(),
        profile_name: Seq::empty(),
        library_status: "Library cleared"@,
        playlists: Seq::empty(),
        saved_tracks: Seq::empty(),
        saved_albums: Seq::empty(),
        saved_shows: Seq::empty(),
        ..a
    };
    AppView { nav_tree: tree_of(cleared, art), ..cleared }
}

/// The window after Spotify revoked the saved login.
pub open spec fn login_expired(a: AppView, art: Map<Seq<char>, Seq<char>>) -> AppView {
    let cleared = AppView {
        authenticated: false,
        login_status: "Spotify login expired"@,
        login_error: "Spotify revoked the saved refresh token. Please log in again."@,
        status: "Spotify login expired"@,
        library_status: "Login required"@,
        playlists: Seq::empty(),
        saved_tracks: Seq::empty(),
        saved_albums: Seq::empty(),
        saved_shows: Seq::empty(),
        ..a
    };
    AppView { nav_tree: tree_of(cleared, art), ..cleared }
}

/// The window after a client id was typed: the trimmed id and which id is
/// used, or that no runtime could store it.
pub open spec fn account_key_shown(a: AppView, key: Seq<char>, runtime_ready: bool) -> AppView {
    if runtime_ready {
        let message = if trimmed(key).len() == 0 {
            "Using the bundled Spotify Web API client ID"@
        } else {
            "Saved Spotify Web API client ID"@
        };
        AppView { account_key: trimmed(key), login_status: message, detail_status: message, ..a }
    } else {
        AppView { detail_status: "Qt runtime is not initialized"@, ..a }
    }
}


impl SpotixApp {
    /// Shows the outcome of the browser login. On success the window is
    /// signed in when the runtime took the token, saying whether a session
    /// was opened too, and goes home to load the library; gives whether to
    /// load it. On failure it shows the error.
    pub fn apply_login_result(
        &mut self,
        result: Result<bool, String>,
        runtime_ready: bool,
        cache: &CacheDirInfo,
        art: &ArtCache,
    ) -> (r: bool)
        requires
            art.well_formed(),
        ensures
            r == (result is Ok && runtime_ready),
            shows_login_result(old(self)@, final(self)@, result, runtime_ready, *cache, art.as_map()),
    {
        self.login_busy = false;
        match result {
            Ok(with_session) => {
                let authenticated = runtime_ready;
                let status = if runtime_ready && with_session {
                    "Connected to Spotify"
                } else {
                    "Spotify OAuth token saved"
                };
                self.authenticated = authenticated;
                self.status = String::from_str(status);
                self.login_status = String::from_str(status);
                self.login_error = String::new();
                if authenticated {
                    self.navigate_to(&QtNavTarget::Home, false, cache, art);
                    self.library_status = String::from_str("Loading Spotify library...");
                    self.load_library()
                } else {
                    false
                }
            },
            Err(err) => {
                self.login_error = err;
                self.login_status = String::from_str("Spotify login failed");
                false
            },
        }
    }

    /// Shows whether the session was set up from saved credentials.
    pub fn apply_session_configured(&mut self, configured: bool)
        ensures
            final(self)@ == session_configured_view(old(self)@, configured),
    {
        self.authenticated = configured;
        if configured {
            self.login_status = String::from_str("Connected with saved credentials");
            self.status = String::from_str("Connected with saved Spotify credentials");
        }
    }

    /// Follows the session on the window's timer. When the browser login
    /// has finished, shows its outcome; otherwise shows whether the saved
    /// credentials set the session up. Gives what the caller does next:
    /// load the library after a login, start playback once from a session
    /// that has credentials (marking playback as set up), and store the
    /// login in the configuration.
    pub fn refresh_session(
        &mut self,
        login_result: Option<Result<bool, String>>,
        runtime_ready: bool,
        configured: bool,
        playback_configured: &mut bool,
        cache: &CacheDirInfo,
        art: &ArtCache,
    ) -> (r: SessionFollowUp)
        requires
            art.well_formed(),
        ensures
            login_result matches Some(res) ==> shows_login_result(
                old(self)@,
                final(self)@,
                res,
                runtime_ready,
                *cache,
                art.as_map(),
            ) && r.load_library == (res is Ok && runtime_ready) && r.init_playback == (res matches Ok(
                with_session,
            ) && with_session && runtime_ready) && r.config == (if res is Ok && runtime_ready {
                ConfigChange::StoreLogin { with_credentials: res->Ok_0 }
            } else {
                ConfigChange::Keep
            }),
            login_result is None ==> final(self)@ == session_configured_view(old(self)@, configured)
                && !r.load_library && r.init_playback == (configured && !*old(playback_configured) && runtime_ready)
                && r.config == ConfigChange::Keep,
            *final(playback_configured) == (*old(playback_configured) || r.init_playback),
    {
        let follow = match login_result {
            Some(res) => {
                let with_session = match &res {
                    Ok(w) => *w,
                    Err(_) => false,
                };
                let stores = res.is_ok() && runtime_ready;
                let load = self.apply_login_result(res, runtime_ready, cache, art);
                SessionFollowUp {
                    load_library: load,
                    init_playback: with_session && runtime_ready,
                    config: if stores {
                        ConfigChange::StoreLogin { with_credentials: with_session }
                    } else {
                        ConfigChange::Keep
                    },
                }
            },
            None => {
                self.apply_session_configured(configured);
                SessionFollowUp {
                    load_library: false,
                    init_playback: configured && !*playback_configured && runtime_ready,
                    config: ConfigChange::Keep,
                }
            },
        };
        if follow.init_playback {
            *playback_configured = true;
        }
        follow
    }
}

/// What follows a session refresh.
pub struct SessionFollowUp {
    /// Fetch the library.
    pub load_library: bool,
    /// Start the playback service from the runtime's session.
    pub init_playback: bool,
    /// The change to write to the stored configuration.
    pub config: ConfigChange,
}

/// A change the caller writes to the stored configuration, then saves.
pub enum ConfigChange {
    /// Nothing to write.
    Keep,
    /// Clear the stored credentials, and shut the session down.
    ClearCredentials,
    /// Store the login's OAuth token with the Web API, and the session's
    /// credentials too when the login opened a session.
    StoreLogin { with_credentials: bool },
    /// Store the Web API client id; none means the bundled one.
    SetClientId { client_id: Option<String> },
}

/// The window after learning whether saved credentials set the session up.
pub open spec fn session_configured_view(a: AppView, configured: bool) -> AppView {
    if configured {
        AppView {
            authenticated: true,
            login_status: "Connected with saved credentials"@,
            status: "Connected with saved Spotify credentials"@,
            ..a
        }
    } else {
        AppView { authenticated: false, ..a }
    }
}

/// What the window shows after the browser login's outcome `result`.
pub open spec fn shows_login_result(
    before: AppView,
    after: AppView,
    result: Result<bool, String>,
    runtime_ready: bool,
    cache: CacheDirInfo,
    art: Map<Seq<char>, Seq<char>>,
) -> bool {
    &&& result is Err ==> after == (AppView {
        login_busy: false,
        login_error: result->Err_0@,
        login_status: "Spotify login failed"@,
        ..before
    })
    &&& result is Ok && !runtime_ready ==> after == (AppView {
        login_busy: false,
        authenticated: false,
        status: "Spotify OAuth token saved"@,
        login_status: "Spotify OAuth token saved"@,
        login_error: Seq::empty(),
        ..before
    })
    &&& result is Ok && runtime_ready ==> exists|cache_rows: Seq<DetailRowView>|
        #[trigger] is_cache_rows(cache, cache_rows) && after == (AppView {
            library_status: "Loading Spotify library..."@,
            ..spec_navigate_to(login_succeeded(before, result->Ok_0), NavTargetView::Home, false, cache_rows, art)
        })
}

/// The window signed in after the browser login.
pub open spec fn login_succeeded(a: AppView, with_session: bool) -> AppView {
    let status = if with_session {
        "Connected to Spotify"@
    } else {
        "Spotify OAuth token saved"@
    };
    AppView {
        login_busy: false,
        authenticated: true,
        status,
        login_status: status,
        login_error: Seq::empty(),
        ..a
    }
}

} // verus!
