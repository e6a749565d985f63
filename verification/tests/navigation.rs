use spotix::qt::navigation::{QtNavState, QtNavTarget};

fn names(t: &Option<QtNavTarget>) -> String {
    match t {
        None => "none".to_string(),
        Some(t) => format!("{}|{}", t.route(), t.title()),
    }
}

#[test]
fn fixed_routes_parse_by_both_spellings() {
    assert_eq!(names(&QtNavTarget::from_item_id("route:home")), "home|Home");
    assert_eq!(names(&QtNavTarget::from_item_id("home")), "home|Home");
    assert_eq!(names(&QtNavTarget::from_item_id("account")), "login|Account");
    assert_eq!(names(&QtNavTarget::from_item_id("tracks")), "saved-tracks|Saved Tracks");
    assert_eq!(names(&QtNavTarget::from_item_id("albums")), "saved-albums|Albums");
    assert_eq!(names(&QtNavTarget::from_item_id("route:shows")), "shows|Podcasts");
    assert_eq!(names(&QtNavTarget::from_item_id("lyrics")), "lyrics|Lyrics");
}

#[test]
fn entry_ids_split_at_first_colon() {
    assert_eq!(names(&QtNavTarget::from_item_id("playlist:abc")), "playlist-detail|abc");
    assert_eq!(names(&QtNavTarget::from_item_id("album:x:y")), "album-detail|x:y");
    assert_eq!(names(&QtNavTarget::from_item_id("artist:42")), "artist-detail|42");
    assert_eq!(names(&QtNavTarget::from_item_id("show:s1")), "show-detail|s1");
    assert_eq!(names(&QtNavTarget::from_item_id("playlist:")), "none");
    assert_eq!(names(&QtNavTarget::from_item_id("track:abc")), "none");
    assert_eq!(names(&QtNavTarget::from_item_id("route:nowhere")), "none");
    assert_eq!(names(&QtNavTarget::from_item_id("nothing")), "none");
}

#[test]
fn back_undoes_navigate() {
    let mut state = QtNavState::initial("home");
    state.navigate(&QtNavTarget::Search, true);
    assert_eq!(state.history.len(), 1);
    state.navigate(&QtNavTarget::Search, true);
    assert_eq!(state.history.len(), 1);
    let back = state.back();
    assert_eq!(names(&back), "home|Home");
    assert_eq!(state.current.route(), "home");
    assert!(state.history.is_empty());
    assert!(state.back().is_none());
}

#[test]
fn navigate_without_history_keeps_back_stack() {
    let mut state = QtNavState::initial("nowhere");
    assert_eq!(state.current.route(), "login");
    state.navigate(&QtNavTarget::Library, false);
    assert!(state.history.is_empty());
    assert_eq!(state.current.route(), "library");
}
