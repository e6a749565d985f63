//! Where the Qt front end can go, how a route id names a place, and the
//! back-stack of places visited.

use vstd::prelude::*;
use vstd::string::*;
use crate::text::{occurs_at, chars_of, find_from, find_text, str_equal, text_between};

verus! {

/// A place the front end can show.
pub enum QtNavTarget {
    Home,
    Login,
    Library,
    SavedTracks,
    Playlists,
    SavedAlbums,
    Artists,
    Shows,
    Search,
    Lyrics,
    Playlist { id: String, name: String, image_url: String },
    Album { id: String, name: String },
    Artist { id: String, name: String },
    Show { id: String, name: String },
}

/// A place, with its text as character sequences.
pub enum NavTargetView {
    Home,
    Login,
    Library,
    SavedTracks,
    Playlists,
    SavedAlbums,
    Artists,
    Shows,
    Search,
    Lyrics,
    Playlist { id: Seq<char>, name: Seq<char>, image_url: Seq<char> },
    Album { id: Seq<char>, name: Seq<char> },
    Artist { id: Seq<char>, name: Seq<char> },
    Show { id: Seq<char>, name: Seq<char> },
}

impl View for QtNavTarget {
    type V = NavTargetView;

    open spec fn view(&self) -> NavTargetView {
        match self {
            QtNavTarget::Home => NavTargetView::Home,
            QtNavTarget::Login => NavTargetView::Login,
            QtNavTarget::Library => NavTargetView::Library,
            QtNavTarget::SavedTracks => NavTargetView::SavedTracks,
            QtNavTarget::Playlists => NavTargetView::Playlists,
            QtNavTarget::SavedAlbums => NavTargetView::SavedAlbums,
            QtNavTarget::Artists => NavTargetView::Artists,
            QtNavTarget::Shows => NavTargetView::Shows,
            QtNavTarget::Search => NavTargetView::Search,
            QtNavTarget::Lyrics => NavTargetView::Lyrics,
            QtNavTarget::Playlist { id, name, image_url } => NavTargetView::Playlist {
                id: id@,
                name: name@,
                image_url: image_url@,
            },
            QtNavTarget::Album { id, name } => NavTargetView::Album { id: id@, name: name@ },
            QtNavTarget::Artist { id, name } => NavTargetView::Artist { id: id@, name: name@ },
            QtNavTarget::Show { id, name } => NavTargetView::Show { id: id@, name: name@ },
        }
    }
}

/// The place that an entry of kind `kind` with id `id` opens, named by its id
/// until its real name is known.
pub open spec fn entry_target(kind: Seq<char>, id: Seq<char>) -> Option<NavTargetView> {
    if id.len() == 0 {
        None
    } else if kind == "playlist"@ {
        Some(NavTargetView::Playlist { id, name: id, image_url: Seq::empty() })
    } else if kind == "album"@ {
        Some(NavTargetView::Album { id, name: id })
    } else if kind == "artist"@ {
        Some(NavTargetView::Artist { id, name: id })
    } else if kind == "show"@ {
        Some(NavTargetView::Show { id, name: id })
    } else {
        None
    }
}

/// The place that a tree item, row or route id names: one of the fixed
/// routes by its names, or `kind:id` for an entry, split at the first `:`.
pub open spec fn target_from_item_id(id: Seq<char>) -> Option<NavTargetView> {
    if id == "route:home"@ || id == "home"@ {
        Some(NavTargetView::Home)
    } else if id == "route:login"@ || id == "login"@ || id == "account"@ {
        Some(NavTargetView::Login)
    } else if id == "route:library"@ || id == "library"@ {
        Some(NavTargetView::Library)
    } else if id == "route:saved-tracks"@ || id == "saved-tracks"@ || id == "tracks"@ {
        Some(NavTargetView::SavedTracks)
    } else if id == "route:playlists"@ || id == "playlists"@ {
        Some(NavTargetView::Playlists)
    } else if id == "route:saved-albums"@ || id == "saved-albums"@ || id == "albums"@ {
        Some(NavTargetView::SavedAlbums)
    } else if id == "route:artists"@ || id == "artists"@ {
        Some(NavTargetView::Artists)
    } else if id == "route:shows"@ || id == "shows"@ {
        Some(NavTargetView::Shows)
    } else if id == "route:search"@ || id == "search"@ {
        Some(NavTargetView::Search)
    } else if id == "route:lyrics"@ || id == "lyrics"@ {
        Some(NavTargetView::Lyrics)
    } else {
        match find_from(id, ":"@, 0) {
            None => None,
            Some(i) => entry_target(id.take(i), id.skip(i + ":"@.len())),
        }
    }
}

/// The route name that the QML side switches on.
pub open spec fn route_name(t: NavTargetView) -> Seq<char> {
    match t {
        NavTargetView::Home => "home"@,
        NavTargetView::Login => "login"@,
        NavTargetView::Library => "library"@,
        NavTargetView::SavedTracks => "saved-tracks"@,
        NavTargetView::Playlists => "playlists"@,
        NavTargetView::SavedAlbums => "saved-albums"@,
        NavTargetView::Artists => "artists"@,
        NavTargetView::Shows => "shows"@,
        NavTargetView::Search => "search"@,
        NavTargetView::Lyrics => "lyrics"@,
        NavTargetView::Playlist { .. } => "playlist-detail"@,
        NavTargetView::Album { .. } => "album-detail"@,
        NavTargetView::Artist { .. } => "artist-detail"@,
        NavTargetView::Show { .. } => "show-detail"@,
    }
}

/// The title shown above a place.
pub open spec fn target_title(t: NavTargetView) -> Seq<char> {
    match t {
        NavTargetView::Home => "Home"@,
        NavTargetView::Login => "Account"@,
        NavTargetView::Library => "Library"@,
        NavTargetView::SavedTracks => "Saved Tracks"@,
        NavTargetView::Playlists => "Playlists"@,
        NavTargetView::SavedAlbums => "Albums"@,
        NavTargetView::Artists => "Artists"@,
        NavTargetView::Shows => "Podcasts"@,
        NavTargetView::Search => "Search"@,
        NavTargetView::Lyrics => "Lyrics"@,
        NavTargetView::Playlist { name, .. } => name,
        NavTargetView::Album { name, .. } => name,
        NavTargetView::Artist { name, .. } => name,
        NavTargetView::Show { name, .. } => name,
    }
}

/// Whether a place shows an entry whose content has to be fetched.
pub open spec fn is_entry(t: NavTargetView) -> bool {
    ||| t is Playlist
    ||| t is Album
    ||| t is Artist
    ||| t is Show
}

/// The fixed place that `id` names as one of two spellings.
fn either(id: &str, a: &str, b: &str) -> (r: bool)
    ensures
        r == (id@ == a@ || id@ == b@),
{
    str_equal(id, a) || str_equal(id, b)
}

impl Clone for QtNavTarget {
    fn clone(&self) -> (r: Self)
        ensures
            r@ == self@,
    {
        match self {
            QtNavTarget::Home => QtNavTarget::Home,
            QtNavTarget::Login => QtNavTarget::Login,
            QtNavTarget::Library => QtNavTarget::Library,
            QtNavTarget::SavedTracks => QtNavTarget::SavedTracks,
            QtNavTarget::Playlists => QtNavTarget::Playlists,
            QtNavTarget::SavedAlbums => QtNavTarget::SavedAlbums,
            QtNavTarget::Artists => QtNavTarget::Artists,
            QtNavTarget::Shows => QtNavTarget::Shows,
            QtNavTarget::Search => QtNavTarget::Search,
            QtNavTarget::Lyrics => QtNavTarget::Lyrics,
            QtNavTarget::Playlist { id, name, image_url } => QtNavTarget::Playlist {
                id: id.clone(),
                name: name.clone(),
                image_url: image_url.clone(),
            },
            QtNavTarget::Album { id, name } => QtNavTarget::Album { id: id.clone(), name: name.clone() },
            QtNavTarget::Artist { id, name } => QtNavTarget::Artist {
                id: id.clone(),
                name: name.clone(),
            },
            QtNavTarget::Show { id, name } => QtNavTarget::Show { id: id.clone(), name: name.clone() },
        }
    }
}

impl QtNavTarget {
    /// Whether two places are the same place.
    pub fn same_as(&self, other: &Self) -> (r: bool)
        ensures
            r == (self@ == other@),
    {
        match (self, other) {
            (QtNavTarget::Home, QtNavTarget::Home) => true,
            (QtNavTarget::Login, QtNavTarget::Login) => true,
            (QtNavTarget::Library, QtNavTarget::Library) => true,
            (QtNavTarget::SavedTracks, QtNavTarget::SavedTracks) => true,
            (QtNavTarget::Playlists, QtNavTarget::Playlists) => true,
            (QtNavTarget::SavedAlbums, QtNavTarget::SavedAlbums) => true,
            (QtNavTarget::Artists, QtNavTarget::Artists) => true,
            (QtNavTarget::Shows, QtNavTarget::Shows) => true,
            (QtNavTarget::Search, QtNavTarget::Search) => true,
            (QtNavTarget::Lyrics, QtNavTarget::Lyrics) => true,
            (
                QtNavTarget::Playlist { id: a, name: b, image_url: c },
                QtNavTarget::Playlist { id: x, name: y, image_url: z },
            ) => *a == *x && *b == *y && *c == *z,
            (QtNavTarget::Album { id: a, name: b }, QtNavTarget::Album { id: x, name: y }) => *a
                == *x && *b == *y,
            (QtNavTarget::Artist { id: a, name: b }, QtNavTarget::Artist { id: x, name: y }) => *a
                == *x && *b == *y,
            (QtNavTarget::Show { id: a, name: b }, QtNavTarget::Show { id: x, name: y }) => *a == *x
                && *b == *y,
            _ => false,
        }
    }

    /// The place that a tree item, row or route id names, if any.
    pub fn from_item_id(id: &str) -> (r: Option<QtNavTarget>)
        ensures
            r matches Some(t) ==> target_from_item_id(id@) == Some(t@),
            r is None ==> target_from_item_id(id@) is None,
    {
        if either(id, "route:home", "home") {
            return Some(QtNavTarget::Home);
        }
        if either(id, "route:login", "login") || str_equal(id, "account") {
            return Some(QtNavTarget::Login);
        }
        if either(id, "route:library", "library") {
            return Some(QtNavTarget::Library);
        }
        if either(id, "route:saved-tracks", "saved-tracks") || str_equal(id, "tracks") {
            return Some(QtNavTarget::SavedTracks);
        }
        if either(id, "route:playlists", "playlists") {
            return Some(QtNavTarget::Playlists);
        }
        if either(id, "route:saved-albums", "saved-albums") || str_equal(id, "albums") {
            return Some(QtNavTarget::SavedAlbums);
        }
        if either(id, "route:artists", "artists") {
            return Some(QtNavTarget::Artists);
        }
        if either(id, "route:shows", "shows") {
            return Some(QtNavTarget::Shows);
        }
        if either(id, "route:search", "search") {
            return Some(QtNavTarget::Search);
        }
        if either(id, "route:lyrics", "lyrics") {
            return Some(QtNavTarget::Lyrics);
        }
        let v = chars_of(id);
        let colon = chars_of(":");
        match find_text(&v, &colon, 0) {
            None => None,
            Some(i) => {
                proof {
                    crate::text::lemma_find_from(v@, colon@, 0);
                    assert(occurs_at(v@, colon@, i as int));
                }
                assert(i + colon@.len() <= v@.len());
                let n = v.len();
                let c = colon.len();
                assert(i + c <= n);
                let kind = text_between(id, 0, i);
                let spotify_id = text_between(id, i + c, n);
                assert(kind@ =~= id@.take(i as int));
                assert(spotify_id@ =~= id@.skip(i + ":"@.len()));
                if spotify_id.as_str().is_empty() {
                    None
                } else if str_equal(kind.as_str(), "playlist") {
                    Some(
                        QtNavTarget::Playlist {
                            id: spotify_id.clone(),
                            name: spotify_id,
                            image_url: String::new(),
                        },
                    )
                } else if str_equal(kind.as_str(), "album") {
                    Some(QtNavTarget::Album { id: spotify_id.clone(), name: spotify_id })
                } else if str_equal(kind.as_str(), "artist") {
                    Some(QtNavTarget::Artist { id: spotify_id.clone(), name: spotify_id })
                } else if str_equal(kind.as_str(), "show") {
                    Some(QtNavTarget::Show { id: spotify_id.clone(), name: spotify_id })
                } else {
                    None
                }
            },
        }
    }

    /// The route name of this place.
    pub fn route(&self) -> (r: &'static str)
        ensures
            r@ == route_name(self@),
    {
        match self {
            QtNavTarget::Home => "home",
            QtNavTarget::Login => "login",
            QtNavTarget::Library => "library",
            QtNavTarget::SavedTracks => "saved-tracks",
            QtNavTarget::Playlists => "playlists",
            QtNavTarget::SavedAlbums => "saved-albums",
            QtNavTarget::Artists => "artists",
            QtNavTarget::Shows => "shows",
            QtNavTarget::Search => "search",
            QtNavTarget::Lyrics => "lyrics",
            QtNavTarget::Playlist { .. } => "playlist-detail",
            QtNavTarget::Album { .. } => "album-detail",
            QtNavTarget::Artist { .. } => "artist-detail",
            QtNavTarget::Show { .. } => "show-detail",
        }
    }

    /// The title of this place.
    pub fn title(&self) -> (r: String)
        ensures
            r@ == target_title(self@),
    {
        match self {
            QtNavTarget::Home => String::from_str("Home"),
            QtNavTarget::Login => String::from_str("Account"),
            QtNavTarget::Library => String::from_str("Library"),
            QtNavTarget::SavedTracks => String::from_str("Saved Tracks"),
            QtNavTarget::Playlists => String::from_str("Playlists"),
            QtNavTarget::SavedAlbums => String::from_str("Albums"),
            QtNavTarget::Artists => String::from_str("Artists"),
            QtNavTarget::Shows => String::from_str("Podcasts"),
            QtNavTarget::Search => String::from_str("Search"),
            QtNavTarget::Lyrics => String::from_str("Lyrics"),
            QtNavTarget::Playlist { name, .. } => name.clone(),
            QtNavTarget::Album { name, .. } => name.clone(),
            QtNavTarget::Artist { name, .. } => name.clone(),
            QtNavTarget::Show { name, .. } => name.clone(),
        }
    }
}


/// The place shown now and the places to go back to, the most recent last.
pub struct QtNavState {
    pub current: QtNavTarget,
    pub history: Vec<QtNavTarget>,
}

/// The place shown now and the back-stack, as views.
#[verifier::ext_equal]
pub struct NavStateView {
    pub current: NavTargetView,
    pub history: Seq<NavTargetView>,
}

impl View for QtNavState {
    type V = NavStateView;

    open spec fn view(&self) -> NavStateView {
        NavStateView { current: self.current@, history: self.history@.map_values(|t: QtNavTarget| t@) }
    }
}

/// Going to `target`: it becomes the current place; the place left is pushed
/// on the back-stack when asked for and when it is another place.
pub open spec fn spec_navigate(s: NavStateView, target: NavTargetView, push_history: bool) -> NavStateView {
    NavStateView {
        current: target,
        history: if push_history && s.current != target {
            s.history.push(s.current)
        } else {
            s.history
        },
    }
}

/// Going back: the most recent place of the back-stack becomes the current
/// place; with an empty back-stack nothing changes.
pub open spec fn spec_back(s: NavStateView) -> NavStateView {
    if s.history.len() == 0 {
        s
    } else {
        NavStateView { current: s.history.last(), history: s.history.drop_last() }
    }
}

impl QtNavState {
    /// The state at start-up: the place that the start-up route names, or the
    /// account page, with nothing to go back to.
    pub fn initial(startup_route: &str) -> (r: Self)
        ensures
            r@.current == (match target_from_item_id(startup_route@) {
                Some(t) => t,
                None => NavTargetView::Login,
            }),
            r@.history.len() == 0,
    {
        let current = match QtNavTarget::from_item_id(startup_route) {
            Some(t) => t,
            None => QtNavTarget::Login,
        };
        let r = QtNavState { current, history: Vec::new() };
        assert(r@.history =~= Seq::<NavTargetView>::empty());
        r
    }

    /// Goes to `target`, remembering the place left when `push_history` asks
    /// for it and the place changes.
    pub fn navigate(&mut self, target: &QtNavTarget, push_history: bool)
        ensures
            final(self)@ == spec_navigate(old(self)@, target@, push_history),
    {
        if push_history && !self.current.same_as(target) {
            let left = self.current.clone();
            self.history.push(left);
        }
        self.current = target.clone();
        assert(self@.history =~= spec_navigate(old(self)@, target@, push_history).history);
    }

    /// Goes back to the most recent place of the back-stack, and gives it;
    /// gives `None` and changes nothing when there is none.
    pub fn back(&mut self) -> (r: Option<QtNavTarget>)
        ensures
            final(self)@ == spec_back(old(self)@),
            r matches Some(t) ==> old(self)@.history.len() > 0 && t@ == old(self)@.history.last(),
            r is None <==> old(self)@.history.len() == 0,
    {
        match self.history.pop() {
            Some(t) => {
                self.current = t.clone();
                assert(self@.history =~= old(self)@.history.drop_last());
                Some(t)
            },
            None => None,
        }
    }
}

/// Going back after going, with history, to another place returns to the
/// place that was left, with the back-stack as it was.
pub proof fn law_back_undoes_navigate(s: NavStateView, target: NavTargetView)
    requires
        s.current != target,
    ensures
        spec_back(spec_navigate(s, target, true)) == s,
{
    assert(s.history.push(s.current).drop_last() =~= s.history);
}

/// Going to the place already shown never grows the back-stack.
pub proof fn law_navigate_same_place_keeps_history(s: NavStateView, push_history: bool)
    ensures
        spec_navigate(s, s.current, push_history) == s,
{
}

/// Each step changes the back-stack by at most one place: going pushes at
/// most one, going back pops exactly one when there is one.
pub proof fn law_history_changes_by_one(s: NavStateView, target: NavTargetView, push_history: bool)
    ensures
        spec_navigate(s, target, push_history).history.len() <= s.history.len() + 1,
        !push_history ==> spec_navigate(s, target, push_history).history == s.history,
        s.history.len() > 0 ==> spec_back(s).history.len() + 1 == s.history.len(),
{
}


/// The route name of each fixed place names that place again.
pub proof fn law_route_name_names_place(t: NavTargetView)
    requires
        !is_entry(t),
    ensures
        target_from_item_id(route_name(t)) == Some(t),
{
    reveal_strlit("route:home");
    reveal_strlit("home");
    reveal_strlit("route:login");
    reveal_strlit("login");
    reveal_strlit("account");
    reveal_strlit("route:library");
    reveal_strlit("library");
    reveal_strlit("route:saved-tracks");
    reveal_strlit("saved-tracks");
    reveal_strlit("tracks");
    reveal_strlit("route:playlists");
    reveal_strlit("playlists");
    reveal_strlit("route:saved-albums");
    reveal_strlit("saved-albums");
    reveal_strlit("albums");
    reveal_strlit("route:artists");
    reveal_strlit("artists");
    reveal_strlit("route:shows");
    reveal_strlit("shows");
    reveal_strlit("route:search");
    reveal_strlit("search");
    reveal_strlit("route:lyrics");
    reveal_strlit("lyrics");
    match t {
        NavTargetView::Login => {
            assert("login"@[0] != "home"@[0]);
        },
        NavTargetView::Library => {
            assert("library"@[0] != "home"@[0]);
            assert("library"@[1] != "login"@[1]);
        },
        NavTargetView::SavedTracks => {
            assert("saved-tracks"@[0] != "home"@[0]);
            assert("saved-tracks"@[0] != "login"@[0]);
            assert("saved-tracks"@[0] != "library"@[0]);
        },
        NavTargetView::Playlists => {
            assert("playlists"@[0] != "home"@[0]);
            assert("playlists"@[0] != "login"@[0]);
            assert("playlists"@[0] != "library"@[0]);
            assert("playlists"@[0] != "tracks"@[0]);
        },
        NavTargetView::SavedAlbums => {
            assert("saved-albums"@[0] != "home"@[0]);
            assert("saved-albums"@[0] != "login"@[0]);
            assert("saved-albums"@[0] != "library"@[0]);
            assert("saved-albums"@[6] != "saved-tracks"@[6]);
            assert("saved-albums"@[0] != "playlists"@[0]);
        },
        NavTargetView::Artists => {
            assert("artists"@[0] != "home"@[0]);
            assert("artists"@[0] != "login"@[0]);
            assert("artists"@[0] != "library"@[0]);
            assert("artists"@[0] != "tracks"@[0]);
            assert("artists"@[0] != "playlists"@[0]);
            assert("artists"@[0] != "saved-albums"@[0]);
            assert("artists"@[1] != "albums"@[1]);
            assert("artists"@[0] != "account"@[0] || "artists"@[1] != "account"@[1]);
        },
        NavTargetView::Shows => {
            assert("shows"@[0] != "home"@[0]);
            assert("shows"@[0] != "login"@[0]);
            assert("shows"@[0] != "library"@[0]);
            assert("shows"@[1] != "saved-tracks"@[1]);
            assert("shows"@[0] != "tracks"@[0]);
            assert("shows"@[0] != "playlists"@[0]);
            assert("shows"@[0] != "albums"@[0]);
            assert("shows"@[0] != "artists"@[0]);
        },
        NavTargetView::Search => {
            assert("search"@[0] != "home"@[0]);
            assert("search"@[0] != "login"@[0]);
            assert("search"@[0] != "library"@[0]);
            assert("search"@[1] != "saved-tracks"@[1]);
            assert("search"@[0] != "tracks"@[0]);
            assert("search"@[0] != "playlists"@[0]);
            assert("search"@[1] != "saved-albums"@[1]);
            assert("search"@[0] != "albums"@[0]);
            assert("search"@[0] != "artists"@[0]);
            assert("search"@[1] != "shows"@[1]);
        },
        NavTargetView::Lyrics => {
            assert("lyrics"@[0] != "home"@[0]);
            assert("lyrics"@[1] != "login"@[1]);
            assert("lyrics"@[1] != "library"@[1]);
            assert("lyrics"@[0] != "saved-tracks"@[0]);
            assert("lyrics"@[0] != "tracks"@[0]);
            assert("lyrics"@[0] != "playlists"@[0]);
            assert("lyrics"@[0] != "albums"@[0]);
            assert("lyrics"@[0] != "artists"@[0]);
            assert("lyrics"@[0] != "shows"@[0]);
            assert("lyrics"@[0] != "search"@[0]);
            assert("lyrics"@[0] != "account"@[0]);
        },
        _ => {},
    }
}


/// `kind:id` names the place of entry kind `kind` with that id, for a
/// non-empty id and a kind without `:`, when no fixed place is spelled so.
proof fn lemma_entry_id(kind: Seq<char>, id: Seq<char>)
    requires
        id.len() > 0,
        ":"@ == seq![':'],
        forall|j: int| 0 <= j < kind.len() ==> kind[j] != ':',
        target_from_item_id(kind + ":"@ + id) == match find_from(kind + ":"@ + id, ":"@, 0) {
            None => None,
            Some(i) => entry_target((kind + ":"@ + id).take(i), (kind + ":"@ + id).skip(i + ":"@.len())),
        },
    ensures
        target_from_item_id(kind + ":"@ + id) == entry_target(kind, id),
{
    let s = kind + ":"@ + id;
    let k = kind.len() as int;
    assert(s.subrange(k, k + 1) =~= ":"@);
    assert forall|j: int| 0 <= j < k implies !occurs_at(s, ":"@, j) by {
        assert(s.subrange(j, j + 1)[0] == kind[j]);
    }
    crate::text::lemma_find_from_at(s, ":"@, 0, k);
    assert(s.take(k) =~= kind);
    assert(s.skip(k + 1) =~= id);
}

/// The ids that the tree and the rows give entries, `kind:id`, name the
/// entry's place again, named by its id, for every non-empty id.
pub proof fn law_entry_ids_name_their_place(id: Seq<char>)
    requires
        id.len() > 0,
    ensures
        target_from_item_id("playlist:"@ + id) == Some(NavTargetView::Playlist { id, name: id, image_url: Seq::empty() }),
        target_from_item_id("album:"@ + id) == Some(NavTargetView::Album { id, name: id }),
        target_from_item_id("artist:"@ + id) == Some(NavTargetView::Artist { id, name: id }),
        target_from_item_id("show:"@ + id) == Some(NavTargetView::Show { id, name: id }),
{
    reveal_strlit(":");
    reveal_strlit("playlist:");
    reveal_strlit("playlist");
    reveal_strlit("album:");
    reveal_strlit("album");
    reveal_strlit("artist:");
    reveal_strlit("artist");
    reveal_strlit("show:");
    reveal_strlit("show");
    reveal_strlit("route:home");
    reveal_strlit("home");
    reveal_strlit("route:login");
    reveal_strlit("login");
    reveal_strlit("account");
    reveal_strlit("route:library");
    reveal_strlit("library");
    reveal_strlit("route:saved-tracks");
    reveal_strlit("saved-tracks");
    reveal_strlit("tracks");
    reveal_strlit("route:playlists");
    reveal_strlit("playlists");
    reveal_strlit("route:saved-albums");
    reveal_strlit("saved-albums");
    reveal_strlit("albums");
    reveal_strlit("route:artists");
    reveal_strlit("artists");
    reveal_strlit("route:shows");
    reveal_strlit("shows");
    reveal_strlit("route:search");
    reveal_strlit("search");
    reveal_strlit("route:lyrics");
    reveal_strlit("lyrics");
    assert(":"@ =~= seq![':']);
    let pl = "playlist"@ + ":"@ + id;
    assert(pl =~= "playlist:"@ + id);
    assert(pl[0] == 'p');
    assert(pl[8] == ':');
    assert(pl[8] != "playlists"@[8]);
    lemma_entry_id("playlist"@, id);
    let al = "album"@ + ":"@ + id;
    assert(al =~= "album:"@ + id);
    assert(al[0] == 'a' && al[1] == 'l' && al[5] == ':');
    assert(al[5] != "albums"@[5]);
    lemma_entry_id("album"@, id);
    let ar = "artist"@ + ":"@ + id;
    assert(ar =~= "artist:"@ + id);
    assert(ar[0] == 'a' && ar[1] == 'r' && ar[6] == ':');
    assert(ar[6] != "artists"@[6]);
    lemma_entry_id("artist"@, id);
    let sh = "show"@ + ":"@ + id;
    assert(sh =~= "show:"@ + id);
    assert(sh[0] == 's' && sh[1] == 'h' && sh[4] == ':');
    assert(sh[4] != "shows"@[4]);
    lemma_entry_id("show"@, id);
    assert("playlist"@ != "album"@);
    assert("album"@[0] != "playlist"@[0]);
    assert("artist"@[0] != "playlist"@[0]);
    assert("artist"@[1] != "album"@[1]);
    assert("show"@[0] != "playlist"@[0]);
    assert("show"@[0] != "album"@[0]);
    assert("show"@[0] != "artist"@[0]);
}

} // verus!
