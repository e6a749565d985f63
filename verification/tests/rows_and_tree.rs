use spotix::qt::app_controller::{empty_search_results, SpotixApp};
use spotix::qt::art_cache::ArtCache;
use spotix::qt::cache_rows::{cache_status_rows, sort_buckets_by_size, CacheBucket, CacheDirInfo};
use spotix::qt::detail::{
    account_rows, enrich_detail_art, error_rows, loading_rows, nav_tree, qt_track_rows, search_rows,
    tiny_tree_art_for_url, tree_item_by_id,
};
use spotix::qt::models::{QtAlbum, QtDetailRow, QtPlaylist, QtSearchResults, QtShow, QtTrack};
use spotix::qt::navigation::QtNavState;

fn playlist(i: usize) -> QtPlaylist {
    QtPlaylist {
        id: format!("p{i}"),
        title: format!("List {i}"),
        owner: "me".to_string(),
        image_url: if i == 0 { "http://img/0".to_string() } else { String::new() },
    }
}

fn track(id: &str) -> QtTrack {
    QtTrack {
        id: id.to_string(),
        title: format!("Song {id}"),
        artist: "Band".to_string(),
        album: "Record".to_string(),
        duration_ms: 1000,
        image_url: "http://img/t".to_string(),
    }
}

#[test]
fn nav_tree_lists_at_most_forty_entries_per_heading() {
    let mut art = ArtCache::new();
    art.insert("http://img/0".to_string(), "<art>".to_string());
    let playlists: Vec<QtPlaylist> = (0..45).map(playlist).collect();
    let albums = vec![QtAlbum {
        id: "a1".to_string(),
        title: "Album".to_string(),
        artist: "Artist".to_string(),
        image_url: String::new(),
    }];
    let shows: Vec<QtShow> = Vec::new();
    let state = QtNavState::initial("home");
    let tree = nav_tree(&state, &playlists, &albums, &shows, &art);
    assert_eq!(tree.len(), 1 + 1 + 40 + 1 + 1 + 1);
    assert_eq!(tree[0].id, "route:saved-tracks");
    assert_eq!(tree[1].id, "route:playlists");
    assert_eq!(tree[1].meta, "45 loaded");
    assert_eq!(tree[2].id, "playlist:p0");
    assert_eq!(tree[2].parent_id, "route:playlists");
    assert_eq!(tree[2].art_ascii, "<art>");
    assert_eq!(tree[2].depth, 1);
    assert_eq!(tree[3].art_ascii, "");
    assert_eq!(tree[42].id, "route:saved-albums");
    assert_eq!(tree[42].meta, "1 loaded");
    assert_eq!(tree[43].id, "album:a1");
    assert_eq!(tree[43].meta, "Artist");
    assert_eq!(tree[44].label, "Podcasts");
    assert_eq!(tree[44].meta, "0 loaded");
    assert!(tree.iter().all(|item| item.expanded && item.selectable && !item.playable));
    let found = tree_item_by_id(&tree, "playlist:p3").expect("present");
    assert_eq!(found.label, "List 3");
    assert!(tree_item_by_id(&tree, "playlist:zz").is_none());
}

#[test]
fn tiny_art_only_for_cached_images() {
    let mut art = ArtCache::new();
    assert_eq!(tiny_tree_art_for_url(&art, "u"), "");
    art.insert("u".to_string(), "first".to_string());
    art.insert("u".to_string(), "second".to_string());
    assert_eq!(tiny_tree_art_for_url(&art, "u"), "second");
    assert_eq!(tiny_tree_art_for_url(&art, ""), "");
    assert_eq!(art.get("v"), None);
}

#[test]
fn track_rows_are_playable_with_meta() {
    let art = ArtCache::new();
    let rows = qt_track_rows(&vec![track("t1"), track("t2")], 2, &art);
    assert_eq!(rows.len(), 2);
    assert_eq!(rows[0].id, "track:t1");
    assert_eq!(rows[0].kind, "track");
    assert_eq!(rows[0].meta, "Band | Record");
    assert_eq!(rows[1].depth, 2);
    assert!(rows[1].playable && !rows[1].expandable);
}

#[test]
fn search_rows_have_headings_with_counts() {
    let art = ArtCache::new();
    let mut results: QtSearchResults = empty_search_results();
    results.tracks = vec![track("t1")];
    results.playlists = vec![playlist(1), playlist(2)];
    let rows = search_rows(&results, &art);
    let ids: Vec<&str> = rows.iter().map(|r| r.id.as_str()).collect();
    assert_eq!(
        ids,
        vec![
            "route:search:tracks",
            "track:t1",
            "route:search:albums",
            "route:search:artists",
            "route:search:playlists",
            "playlist:p1",
            "playlist:p2",
            "route:search:shows",
        ]
    );
    assert_eq!(rows[0].meta, "1 result(s)");
    assert_eq!(rows[4].meta, "2 result(s)");
    assert_eq!(rows[7].label, "Podcasts");
    assert_eq!(rows[5].meta, "me");
    assert_eq!(rows[5].depth, 1);
}

#[test]
fn account_rows_end_with_error_only_when_there_is_one() {
    let rows = account_rows("", Vec::new());
    assert_eq!(rows.len(), 8);
    assert_eq!(rows[0].id, "account:auth-section");
    assert_eq!(rows[1].kind, "action");
    assert_eq!(rows[7].id, "account:clear-cache");
    let rows = account_rows("boom", Vec::new());
    assert_eq!(rows.len(), 9);
    assert_eq!(rows[8].id, "route:login:error");
    assert_eq!(rows[8].meta, "boom");
    assert_eq!(rows[8].depth, 1);
}

#[test]
fn loading_and_error_rows() {
    let rows = loading_rows("Albums");
    assert_eq!(rows.len(), 1);
    assert_eq!(rows[0].label, "Loading Albums");
    assert_eq!(rows[0].meta, "waiting for Spotify data");
    let rows = error_rows("bad");
    assert_eq!(rows[0].id, "route:error");
    assert_eq!(rows[0].label, "Route load failed");
    assert_eq!(rows[0].meta, "bad");
}

#[test]
fn enrich_fills_only_missing_art() {
    let mut art = ArtCache::new();
    art.insert("img".to_string(), "A".to_string());
    let mut a = QtDetailRow::route("x".into(), "k".into(), "l".into(), "m".into(), 0);
    a.image_url = "img".to_string();
    let mut b = a.clone();
    b.art_ascii = "keep".to_string();
    let c = QtDetailRow::route("y".into(), "k".into(), "l".into(), "m".into(), 0);
    let mut rows = vec![a, b, c];
    enrich_detail_art(&mut rows, &art);
    assert_eq!(rows[0].art_ascii, "A");
    assert_eq!(rows[1].art_ascii, "keep");
    assert_eq!(rows[2].art_ascii, "");
}

fn bucket(name: &str, bytes: u64) -> CacheBucket {
    CacheBucket { name: name.to_string(), bytes, files: 1 }
}

#[test]
fn buckets_sort_largest_first_keeping_ties_in_order() {
    let input = vec![bucket("a", 5), bucket("b", 9), bucket("c", 5), bucket("d", 1), bucket("e", 9)];
    let sorted = sort_buckets_by_size(&input);
    let names: Vec<&str> = sorted.iter().map(|b| b.name.as_str()).collect();
    assert_eq!(names, vec!["b", "e", "a", "c", "d"]);
}

#[test]
fn cache_rows_show_the_eight_largest_buckets() {
    let buckets: Vec<CacheBucket> = (0..10u64).map(|i| bucket(&format!("b{i}"), i * 1024)).collect();
    let rows = cache_status_rows(&CacheDirInfo::Present { total_bytes: 2048, total_files: 3, buckets });
    assert_eq!(rows.len(), 2 + 8);
    assert_eq!(rows[0].id, "account:cache-section");
    assert_eq!(rows[1].meta, "2.0 KiB across 3 file(s)");
    assert_eq!(rows[2].id, "account:cache-bucket:b9");
    assert_eq!(rows[2].meta, "9.0 KiB | 1 file(s)");
    assert_eq!(rows[9].id, "account:cache-bucket:b2");
    let rows = cache_status_rows(&CacheDirInfo::Present { total_bytes: 0, total_files: 0, buckets: Vec::new() });
    assert_eq!(rows[2].id, "account:cache-buckets-empty");
    let rows = cache_status_rows(&CacheDirInfo::Unavailable);
    assert_eq!(rows[1].meta, "not available on this platform");
    let rows = cache_status_rows(&CacheDirInfo::NotCreated { display: "/tmp/x".to_string() });
    assert_eq!(rows[1].meta, "not created yet: /tmp/x");
}

#[test]
fn app_starts_empty_on_its_first_route() {
    let art = ArtCache::new();
    let mut startup = spotix::qt::app_controller::StartupState::starting();
    spotix::qt::app_controller::set_startup_state(&mut startup, true, false);
    assert_eq!(startup.route, "home");
    assert_eq!(startup.status, "Ready to load your Spotify library");
    let playback = spotix::qt::playback_service::PlaybackSnapshot::idle();
    let app = SpotixApp::new(&startup, &playback, "key".to_string(), &art);
    assert_eq!(app.active_route_title, "Home");
    assert_eq!(app.login_status, "Spotify credentials found");
    assert_eq!(app.library_status, "Library not loaded");
    assert_eq!(app.playback_state, "Stopped");
    assert_eq!(app.now_playing_title, "Nothing playing");
    assert_eq!(app.nav_tree.len(), 4);
    assert_eq!(app.account_key, "key");
    assert_eq!(f64::from_bits(app.volume_bits), 1.0);
}

#[test]
fn each_missing_artwork_is_fetched_once() {
    let mut art = ArtCache::new();
    art.insert("cached".to_string(), "<c>".to_string());
    let urls = vec![
        "a".to_string(),
        String::new(),
        "cached".to_string(),
        "b".to_string(),
        "a".to_string(),
    ];
    let due = art.claim_fetches(&urls);
    assert_eq!(due, vec!["a".to_string(), "b".to_string()]);
    assert!(art.claim_fetches(&urls).is_empty());
    assert!(!art.claim_fetch("b"));
    art.finish_fetch("b".to_string(), "<b>".to_string());
    assert!(!art.claim_fetch("b"));
    assert_eq!(art.get("b"), Some("<b>".to_string()));
    art.finish_fetches(vec![("a".to_string(), String::new())]);
    assert_eq!(art.get("a"), Some(String::new()));
    assert!(art.claim_fetch("new"));
}

#[test]
fn fetched_artwork_fills_tree_and_rows() {
    let mut art = ArtCache::new();
    let mut app = SpotixApp::new(
        &spotix::qt::app_controller::StartupState::starting(),
        &spotix::qt::playback_service::PlaybackSnapshot::idle(),
        String::new(),
        &art,
    );
    app.playlists = vec![playlist(0), playlist(1)];
    app.sync_nav_tree(&art);
    app.detail_rows = qt_track_rows(&vec![track("t1")], 0, &art);
    let missing = app.missing_art_urls();
    assert_eq!(missing, vec!["http://img/0".to_string(), "http://img/t".to_string()]);
    let due = art.claim_fetches(&missing);
    assert_eq!(due.len(), 2);

    let before = app.nav_tree.len();
    app.apply_tree_art_results(Vec::new(), &mut art);
    assert_eq!(app.nav_tree.len(), before);
    assert!(app.missing_art_urls().len() == 2);

    app.apply_tree_art_results(
        vec![("http://img/0".to_string(), "<p0>".to_string()), ("http://img/t".to_string(), "<t>".to_string())],
        &mut art,
    );
    assert!(app.missing_art_urls().is_empty());
    assert_eq!(app.detail_rows[0].art_ascii, "<t>");
    assert!(app.nav_tree.iter().any(|item| item.art_ascii == "<p0>"));
}
