use spotix::data::catalog::Track;
use spotix::qt::app_controller::{
    album_payload, artist_payload, empty_search_json, ConfigChange, empty_search_results, playlist_payload, route_payload,
    set_startup_state, show_payload, startup_state, DetailAction, QtNavPayload, SpotixApp, StartupState,
    TreeAction,
};
use spotix::qt::art_cache::ArtCache;
use spotix::qt::cache_rows::CacheDirInfo;
use spotix::qt::features::{core_screens, parity_features, QtFeatureState};
use spotix::qt::models::{QtNavDocument, QtTrack};
use spotix::qt::navigation::QtNavTarget;
use spotix::qt::playback_service::{PlaybackSnapshot, PlaybackStore};
use spotix::qt::runtime;

fn app(authenticated: bool) -> SpotixApp {
    let mut startup = StartupState::starting();
    set_startup_state(&mut startup, authenticated, false);
    SpotixApp::new(&startup, &PlaybackSnapshot::idle(), String::new(), &ArtCache::new())
}

fn track(id: &str) -> Track {
    Track {
        id: id.to_string(),
        name: format!("Name {id}"),
        artist_names: "A".to_string(),
        album_name: "B".to_string(),
        album_image_url: Some("img".to_string()),
        is_playable: None,
        duration_nanos: 0,
    }
}

#[test]
fn login_page_shows_cache_then_account_rows() {
    let mut app = app(false);
    assert_eq!(app.route, "login");
    let follow = app.go_home(&CacheDirInfo::Unavailable, &ArtCache::new());
    assert!(follow.is_none());
    assert_eq!(app.route, "home");
    assert_eq!(app.active_route_title, "Home");
    let follow = app.go_login(&CacheDirInfo::Unavailable, &ArtCache::new());
    assert!(follow.is_none());
    assert_eq!(app.detail_status, "Sign in to Spotify");
    assert_eq!(app.detail_rows.len(), 2 + 8);
    assert_eq!(app.detail_rows[0].id, "account:cache-section");
    assert_eq!(app.nav.history.len(), 2);
    app.navigate_back(&CacheDirInfo::Unavailable, &ArtCache::new());
    assert_eq!(app.route, "home");
    assert_eq!(app.nav.history.len(), 1);
}

#[test]
fn entries_are_fetched_after_a_loading_row() {
    let mut app = app(true);
    let follow = app.open_album("a1".to_string(), "Album One".to_string(), &CacheDirInfo::Unavailable, &ArtCache::new());
    assert!(matches!(follow, Some(QtNavTarget::Album { .. })));
    assert_eq!(app.route, "album-detail");
    assert_eq!(app.detail_status, "Loading route data...");
    assert_eq!(app.detail_rows[0].label, "Loading Album One");
    let mut store = PlaybackStore::empty();
    let doc = QtNavDocument {
        title: "Other".to_string(),
        status: "x".to_string(),
        route_art_ascii: String::new(),
        rows: Vec::new(),
    };
    let payload = QtNavPayload { target: QtNavTarget::Home, document: doc, tracks_for_playback: Vec::new() };
    app.apply_nav_result(Ok(payload), &mut store, &ArtCache::new());
    assert_eq!(app.detail_status, "Loading route data...");
    let payload = playlist_payload(&follow.unwrap(), "Album One", String::new(), Ok(vec![track("t1")])).unwrap();
    assert_eq!(payload.document.status, "Playlist | Album One | 1 track(s)");
    app.apply_nav_result(Ok(payload), &mut store, &ArtCache::new());
    assert_eq!(app.detail_rows.len(), 1);
    assert_eq!(app.detail_rows[0].id, "track:t1");
    app.apply_nav_result(Err("timeout".to_string()), &mut store, &ArtCache::new());
    assert_eq!(app.detail_status, "Route load failed: timeout");
    assert_eq!(app.detail_rows[0].meta, "timeout");
}

#[test]
fn forbidden_playlists_show_a_denied_page() {
    let target = QtNavTarget::Playlist { id: "p".to_string(), name: "Mix".to_string(), image_url: String::new() };
    let payload = playlist_payload(&target, "Mix", "art".to_string(), Err("HTTP 403 Forbidden".to_string())).unwrap();
    assert_eq!(payload.document.status, "Playlist | Mix | Spotify denied access to this playlist");
    assert_eq!(payload.document.route_art_ascii, "art");
    assert!(payload.document.rows.is_empty());
    assert!(playlist_payload(&target, "Mix", String::new(), Err("500".to_string())).is_err());
}

#[test]
fn detail_rows_activate_actions_tracks_and_places() {
    let mut app = app(true);
    app.saved_tracks = vec![QtTrack {
        id: "t1".to_string(),
        title: "T".to_string(),
        artist: "A".to_string(),
        album: "B".to_string(),
        duration_ms: 0,
        image_url: String::new(),
    }];
    app.navigate_to(&QtNavTarget::SavedTracks, true, &CacheDirInfo::Unavailable, &ArtCache::new());
    assert_eq!(app.detail_rows.len(), 1);
    assert!(matches!(app.activate_detail_row("account:reauth"), DetailAction::StartLogin));
    assert!(matches!(app.activate_detail_row("account:logout"), DetailAction::Logout));
    assert!(matches!(app.activate_detail_row("account:clear-cache"), DetailAction::ClearCache));
    match app.activate_detail_row("track:t1") {
        DetailAction::PlayTrack { track_id, context_ids } => {
            assert_eq!(track_id, "t1");
            assert_eq!(context_ids, vec!["t1".to_string()]);
        }
        _ => panic!("expected a track"),
    }
    assert!(matches!(app.activate_detail_row("artist:z"), DetailAction::Navigate(QtNavTarget::Artist { .. })));
    assert!(matches!(app.activate_detail_row("bogus"), DetailAction::Nothing));
    assert!(matches!(app.activate_tree_item("track:t1"), TreeAction::ActivateRow(_)));
    assert!(matches!(app.activate_tree_item("route:playlists"), TreeAction::Navigate(QtNavTarget::Playlists)));
    assert!(matches!(app.activate_tree_item("zzz"), TreeAction::Nothing));
}

#[test]
fn search_results_are_summarised() {
    let mut app = app(true);
    app.search_query = "  jazz ".to_string();
    assert_eq!(app.submit_search(false), Some("jazz".to_string()));
    assert_eq!(app.search_status, "Searching Spotify...");
    app.navigate_to(&QtNavTarget::Search, true, &CacheDirInfo::Unavailable, &ArtCache::new());
    let mut results = empty_search_results();
    results.query = "jazz".to_string();
    app.apply_search_result(Ok(results), &CacheDirInfo::Unavailable, &ArtCache::new());
    assert_eq!(app.search_status, "0 artists, 0 albums, 0 tracks, 0 playlists, 0 podcasts");
    assert_eq!(app.detail_status, "0 artists, 0 albums, 0 tracks, 0 playlists, 0 podcasts");
    assert_eq!(app.detail_rows.len(), 5);
    app.apply_search_result(Err("offline".to_string()), &CacheDirInfo::Unavailable, &ArtCache::new());
    assert_eq!(app.search_status, "Search failed: offline");
    app.search_query = " ".to_string();
    assert_eq!(app.submit_search(false), None);
    assert_eq!(app.search_status, "Enter a search term first");
    assert!(empty_search_json().starts_with("{\"query\""));
}

#[test]
fn saved_track_and_art_flows() {
    let mut app = app(true);
    assert_eq!(app.toggle_now_playing_saved(""), None);
    assert_eq!(app.playback_status, "No playing track to update");
    assert_eq!(app.toggle_now_playing_saved("t"), Some(("t".to_string(), true)));
    assert_eq!(app.playback_status, "Adding to Saved Tracks");
    assert_eq!(app.sync_now_playing_saved("t"), None);
    assert_eq!(app.sync_now_playing_saved("u"), Some("u".to_string()));
    assert!(app.now_playing_saved_busy);
    app.apply_saved_track_result("t", Err("ignored".to_string()));
    assert!(app.now_playing_saved_busy);
    app.apply_saved_track_result("u", Err("Saved Tracks check failed: x".to_string()));
    assert!(!app.now_playing_saved_busy);
    assert_eq!(app.playback_status, "Saved Tracks check failed: x");
    assert_eq!(app.refresh_ascii_art("", "x"), None);
    assert!(app.now_playing_art_ascii.contains("SPOTIX"));
    app.now_playing_image_url = "img".to_string();
    assert_eq!(app.refresh_ascii_art("img", ""), Some("img".to_string()));
    assert!(app.now_playing_art_ascii.contains("loading art"));
    app.apply_art_result("img", Err("bad".to_string()));
    assert!(app.now_playing_art_ascii.contains("# bad "));
}

#[test]
fn login_outcomes() {
    let mut app = app(false);
    assert!(app.start_spotify_login(true));
    assert!(app.login_busy);
    assert!(!app.start_spotify_login(true));
    let load = app.apply_login_result(Ok(true), true, &CacheDirInfo::Unavailable, &ArtCache::new());
    assert!(load);
    assert!(app.authenticated);
    assert_eq!(app.status, "Connected to Spotify");
    assert_eq!(app.route, "home");
    assert_eq!(app.library_status, "Loading Spotify library...");
    let mut app2 = SpotixApp::new(&StartupState::starting(), &PlaybackSnapshot::idle(), String::new(), &ArtCache::new());
    assert!(!app2.apply_login_result(Err("denied".to_string()), true, &CacheDirInfo::Unavailable, &ArtCache::new()));
    assert_eq!(app2.login_status, "Spotify login failed");
    let mut playback_configured = true;
    let change = app.logout(&mut playback_configured, &CacheDirInfo::Unavailable, &ArtCache::new());
    assert!(matches!(change, ConfigChange::ClearCredentials));
    assert!(!playback_configured);
    assert!(!app.authenticated);
    assert_eq!(app.library_status, "Library cleared");
    assert_eq!(app.route, "login");
    let change = app.save_account_key("  my-id ", true, &CacheDirInfo::Unavailable, &ArtCache::new());
    assert!(matches!(change, ConfigChange::SetClientId { client_id: Some(ref id) } if id == "my-id"));
    assert_eq!(app.account_key, "my-id");
    assert_eq!(app.login_status, "Saved Spotify Web API client ID");
    let change = app.save_account_key("   ", true, &CacheDirInfo::Unavailable, &ArtCache::new());
    assert!(matches!(change, ConfigChange::SetClientId { client_id: None }));
    assert_eq!(app.login_status, "Using the bundled Spotify Web API client ID");
    let change = app.save_account_key("x", false, &CacheDirInfo::Unavailable, &ArtCache::new());
    assert!(matches!(change, ConfigChange::Keep));
    assert_eq!(app.account_key, "");
    let change = app.show_login_expired(&CacheDirInfo::Unavailable, &ArtCache::new());
    assert!(matches!(change, ConfigChange::ClearCredentials));
    assert_eq!(app.login_status, "Spotify login expired");
}

#[test]
fn features_and_runtime() {
    let core = core_screens();
    assert_eq!(core.len(), 7);
    assert_eq!(core[2].name, "Search");
    assert!(core[2].state == QtFeatureState::Available);
    assert_eq!(core[6].route, "login");
    let parity = parity_features();
    assert_eq!(parity[6].name, "Last.fm");
    assert!(parity[0].state == QtFeatureState::Available);

    struct Cfg(bool);
    impl runtime::HasCredentials for Cfg {
        fn has_credentials(&self) -> bool {
            self.0
        }
    }
    struct Session;
    impl runtime::ConfigurableSession<Cfg> for Session {
        fn update_from(&self, _config: &Cfg) {}
    }
    let mut slot = runtime::empty::<Cfg, Session>();
    assert!(!runtime::configure_session_from_config(&slot));
    runtime::init(&mut slot, Cfg(false), Session);
    assert!(!runtime::configure_session_from_config(&slot));
    runtime::store_config(&mut slot, Cfg(true));
    assert!(runtime::configure_session_from_config(&slot));
    if let Some(rt) = runtime::with_runtime(&mut slot) {
        rt.config = Cfg(false);
    }
    assert!(!runtime::configure_session_from_config(&slot));
}

#[test]
fn session_refresh_follows_login_or_saved_credentials() {
    let unavailable = CacheDirInfo::Unavailable;
    let mut flag = false;
    let mut app = app(false);
    let follow = app.refresh_session(Some(Ok(true)), true, false, &mut flag, &unavailable, &ArtCache::new());
    assert!(follow.load_library);
    assert!(follow.init_playback);
    assert!(matches!(follow.config, ConfigChange::StoreLogin { with_credentials: true }));
    assert!(flag);
    assert_eq!(app.status, "Connected to Spotify");
    assert_eq!(app.route, "home");

    let mut flag = false;
    let mut app = app_signed_out();
    let follow = app.refresh_session(Some(Ok(false)), true, false, &mut flag, &unavailable, &ArtCache::new());
    assert!(follow.load_library);
    assert!(!follow.init_playback);
    assert!(matches!(follow.config, ConfigChange::StoreLogin { with_credentials: false }));
    assert!(!flag);
    assert_eq!(app.status, "Spotify OAuth token saved");

    let mut app = app_signed_out();
    let follow = app.refresh_session(None, true, true, &mut flag, &unavailable, &ArtCache::new());
    assert!(!follow.load_library);
    assert!(follow.init_playback);
    assert!(matches!(follow.config, ConfigChange::Keep));
    assert!(flag);
    assert!(app.authenticated);
    assert_eq!(app.login_status, "Connected with saved credentials");

    let follow = app.refresh_session(None, true, true, &mut flag, &unavailable, &ArtCache::new());
    assert!(!follow.init_playback);
    assert!(flag);

    let mut flag = false;
    let follow = app.refresh_session(None, true, false, &mut flag, &unavailable, &ArtCache::new());
    assert!(!follow.init_playback);
    assert!(!app.authenticated);

    let follow = app.refresh_session(Some(Err("denied".to_string())), true, true, &mut flag, &unavailable, &ArtCache::new());
    assert!(!follow.load_library);
    assert!(!follow.init_playback);
    assert!(matches!(follow.config, ConfigChange::Keep));
    assert_eq!(app.login_error, "denied");
}

fn app_signed_out() -> SpotixApp {
    app(false)
}

#[test]
fn payloads_name_their_place() {
    let album = QtNavTarget::Album { id: "a".to_string(), name: "Blue".to_string() };
    let p = album_payload(&album, "Blue", "Blue (Deluxe)", "1971", "<art>".to_string(), vec![track("t1"), track("t2")]);
    assert_eq!(p.document.title, "Blue (Deluxe)");
    assert_eq!(p.document.status, "Album | Blue | 1971");
    assert_eq!(p.document.route_art_ascii, "<art>");
    assert_eq!(p.document.rows.len(), 2);
    assert_eq!(p.document.rows[1].id, "track:t2");
    assert_eq!(p.tracks_for_playback.len(), 2);

    let artist = QtNavTarget::Artist { id: "r".to_string(), name: "Joni".to_string() };
    let p = artist_payload(&artist, "Joni", vec![track("t3")]);
    assert_eq!(p.document.title, "Joni");
    assert_eq!(p.document.status, "Artist | Joni");
    assert_eq!(p.document.rows[0].label, "Name t3");
    assert_eq!(p.document.route_art_ascii, "");

    let show = QtNavTarget::Show { id: "s".to_string(), name: "Talk".to_string() };
    let p = show_payload(&show, "Talk", "Talk Daily");
    assert_eq!(p.document.title, "Talk Daily");
    assert_eq!(p.document.status, "Podcast | Talk");
    assert!(p.document.rows.is_empty());
    assert!(p.tracks_for_playback.is_empty());

    let p = route_payload(&QtNavTarget::Lyrics);
    assert_eq!(p.document.status, "Route loaded");
    assert_eq!(p.document.title, QtNavTarget::Lyrics.title());

    let mut startup = StartupState::starting();
    set_startup_state(&mut startup, true, true);
    let copy = startup_state(&startup);
    assert_eq!(copy.route, "home");
    assert_eq!(copy.status, "Connected with saved Spotify credentials");
}

#[test]
fn cache_clear_outcome_is_shown() {
    let mut app = app(true);
    app.apply_cache_cleared(Ok("Cleared cache at /tmp/c".to_string()), &CacheDirInfo::Unavailable, &ArtCache::new());
    assert_eq!(app.library_status, "Cache cleared");
    assert_eq!(app.route, "login");
    let mut other = app_signed_out();
    other.apply_cache_cleared(Err("denied".to_string()), &CacheDirInfo::Unavailable, &ArtCache::new());
    assert_eq!(other.route, "login");
    assert_ne!(other.library_status, "Cache cleared");
}
