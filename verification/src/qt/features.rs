//! The screens and features of the Qt front end, with how far along each is.

use vstd::prelude::*;

verus! {

/// How far along a feature is.
#[derive(Clone, Copy, Debug, PartialEq, Eq, Structural)]
pub enum QtFeatureState {
    Available,
    InProgress,
    LegacyReference,
}

/// A feature: its name, state and route.
#[derive(Clone, Copy, Debug)]
pub struct QtFeature {
    pub name: &'static str,
    pub state: QtFeatureState,
    pub route: &'static str,
}

/// A feature, as a view.
pub struct FeatureView {
    pub name: Seq<char>,
    pub state: QtFeatureState,
    pub route: Seq<char>,
}

impl View for QtFeature {
    type V = FeatureView;

    open spec fn view(&self) -> FeatureView {
        FeatureView { name: self.name@, state: self.state, route: self.route@ }
    }
}

/// The views of a list of features.
pub open spec fn features_view(s: Seq<QtFeature>) -> Seq<FeatureView> {
    s.map_values(|f: QtFeature| f@)
}

/// A feature view.
pub open spec fn feature(name: Seq<char>, state: QtFeatureState, route: Seq<char>) -> FeatureView {
    FeatureView { name, state, route }
}

/// The core screens.
pub open spec fn spec_core_screens() -> Seq<FeatureView> {
    seq![
        feature("Home"@, QtFeatureState::InProgress, "home"@),
        feature("Library"@, QtFeatureState::InProgress, "library"@),
        feature("Search"@, QtFeatureState::Available, "search"@),
        feature("Playlists"@, QtFeatureState::InProgress, "playlists"@),
        feature("Albums"@, QtFeatureState::InProgress, "albums"@),
        feature("Artists"@, QtFeatureState::InProgress, "artists"@),
        feature("Account"@, QtFeatureState::InProgress, "login"@),
    ]
}

/// The features still to match the older front end.
pub open spec fn spec_parity_features() -> Seq<FeatureView> {
    seq![
        feature("Playback"@, QtFeatureState::Available, "playback"@),
        feature("Lyrics"@, QtFeatureState::InProgress, "lyrics"@),
        feature("Credits"@, QtFeatureState::LegacyReference, "credits"@),
        feature("Recommendations"@, QtFeatureState::LegacyReference, "recommendations"@),
        feature("Finder"@, QtFeatureState::LegacyReference, "finder"@),
        feature("Artwork"@, QtFeatureState::LegacyReference, "artwork"@),
        feature("Last.fm"@, QtFeatureState::LegacyReference, "lastfm"@),
    ]
}

/// The core screens, in menu order.
pub fn core_screens() -> (r: Vec<QtFeature>)
    ensures
        features_view(r@) == spec_core_screens(),
{
    let r = vec![
        QtFeature { name: "Home", state: QtFeatureState::InProgress, route: "home" },
        QtFeature { name: "Library", state: QtFeatureState::InProgress, route: "library" },
        QtFeature { name: "Search", state: QtFeatureState::Available, route: "search" },
        QtFeature { name: "Playlists", state: QtFeatureState::InProgress, route: "playlists" },
        QtFeature { name: "Albums", state: QtFeatureState::InProgress, route: "albums" },
        QtFeature { name: "Artists", state: QtFeatureState::InProgress, route: "artists" },
        QtFeature { name: "Account", state: QtFeatureState::InProgress, route: "login" },
    ];
    assert(features_view(r@) =~= spec_core_screens());
    r
}

/// The parity features, in menu order.
pub fn parity_features() -> (r: Vec<QtFeature>)
    ensures
        features_view(r@) == spec_parity_features(),
{
    let r = vec![
        QtFeature { name: "Playback", state: QtFeatureState::Available, route: "playback" },
        QtFeature { name: "Lyrics", state: QtFeatureState::InProgress, route: "lyrics" },
        QtFeature { name: "Credits", state: QtFeatureState::LegacyReference, route: "credits" },
        QtFeature { name: "Recommendations", state: QtFeatureState::LegacyReference, route: "recommendations" },
        QtFeature { name: "Finder", state: QtFeatureState::LegacyReference, route: "finder" },
        QtFeature { name: "Artwork", state: QtFeatureState::LegacyReference, route: "artwork" },
        QtFeature { name: "Last.fm", state: QtFeatureState::LegacyReference, route: "lastfm" },
    ];
    assert(features_view(r@) =~= spec_parity_features());
    r
}

} // verus!
