//! The small artwork renderings already made, keyed by image URL, and the
//! images whose rendering is being fetched.

use vstd::prelude::*;
use vstd::string::*;
use crate::text_map::TextMap;

verus! {

/// Artwork renderings by image URL, and which images are being fetched.
pub struct ArtCache {
    renderings: TextMap<String>,
    in_flight: TextMap<bool>,
}

/// Whether a fetch of `url` is due: it names an image, none is rendered
/// for it, and none is being fetched.
pub open spec fn fetch_due(art: Map<Seq<char>, Seq<char>>, fetching: Set<Seq<char>>, url: Seq<char>) -> bool {
    url.len() > 0 && !art.contains_key(url) && !fetching.contains(url)
}

/// The images being fetched after asking for `url`.
pub open spec fn fetching_after(art: Map<Seq<char>, Seq<char>>, fetching: Set<Seq<char>>, url: Seq<char>) -> Set<
    Seq<char>,
> {
    if url.len() > 0 && !art.contains_key(url) {
        fetching.insert(url)
    } else {
        fetching
    }
}

/// The fetches due when asking for `urls` in order, and the images being
/// fetched afterwards.
pub open spec fn claimed(urls: Seq<Seq<char>>, art: Map<Seq<char>, Seq<char>>, fetching: Set<Seq<char>>) -> (
    Seq<Seq<char>>,
    Set<Seq<char>>,
)
    decreases urls.len(),
{
    if urls.len() == 0 {
        (Seq::empty(), fetching)
    } else {
        let (due, f) = claimed(urls.drop_last(), art, fetching);
        let u = urls.last();
        (
            if fetch_due(art, f, u) {
                due.push(u)
            } else {
                due
            },
            fetching_after(art, f, u),
        )
    }
}

/// The renderings after storing `results` in order.
pub open spec fn stored(art: Map<Seq<char>, Seq<char>>, results: Seq<(Seq<char>, Seq<char>)>) -> Map<
    Seq<char>,
    Seq<char>,
>
    decreases results.len(),
{
    if results.len() == 0 {
        art
    } else {
        stored(art, results.drop_last()).insert(results.last().0, results.last().1)
    }
}

/// The images being fetched after `results` came in.
pub open spec fn finished(fetching: Set<Seq<char>>, results: Seq<(Seq<char>, Seq<char>)>) -> Set<Seq<char>>
    decreases results.len(),
{
    if results.len() == 0 {
        fetching
    } else {
        finished(fetching, results.drop_last()).remove(results.last().0)
    }
}

/// The text of a list of strings.
pub open spec fn texts(v: Seq<String>) -> Seq<Seq<char>> {
    v.map_values(|s: String| s@)
}

/// The text of a list of fetched renderings.
pub open spec fn results_view(v: Seq<(String, String)>) -> Seq<(Seq<char>, Seq<char>)> {
    v.map_values(|p: (String, String)| (p.0@, p.1@))
}

impl ArtCache {
    /// The underlying maps are well formed.
    pub closed spec fn well_formed(&self) -> bool {
        self.renderings.well_formed() && self.in_flight.well_formed()
    }

    /// The images whose rendering is being fetched.
    pub closed spec fn fetching(&self) -> Set<Seq<char>> {
        Set::new(|url: Seq<char>| self.in_flight.as_map().contains_key(url) && self.in_flight.as_map()[url])
    }

    /// The cache as a map from URL to rendering.
    pub closed spec fn as_map(&self) -> Map<Seq<char>, Seq<char>> {
        self.renderings.as_map().map_values(|s: String| s@)
    }

    /// An empty cache.
    pub fn new() -> (r: Self)
        ensures
            r.well_formed(),
            r.as_map() == Map::<Seq<char>, Seq<char>>::empty(),
            r.fetching() == Set::<Seq<char>>::empty(),
    {
        let r = ArtCache { renderings: TextMap::new(), in_flight: TextMap::new() };
        assert(r.as_map() =~= Map::<Seq<char>, Seq<char>>::empty());
        assert(r.fetching() =~= Set::<Seq<char>>::empty());
        r
    }

    /// The rendering held for `url`, if any.
    pub fn get(&self, url: &str) -> (r: Option<String>)
        requires
            self.well_formed(),
        ensures
            r matches Some(a) ==> self.as_map().contains_key(url@) && self.as_map()[url@] == a@,
            r is None ==> !self.as_map().contains_key(url@),
    {
        match self.renderings.get(url) {
            Some(a) => Some(a.clone()),
            None => None,
        }
    }

    /// Stores the rendering of `url`, replacing what was held for it.
    pub fn insert(&mut self, url: String, art: String)
        requires
            old(self).well_formed(),
        ensures
            final(self).well_formed(),
            final(self).as_map() == old(self).as_map().insert(url@, art@),
            final(self).fetching() == old(self).fetching(),
    {
        self.renderings.insert(url, art);
        assert(self.as_map() =~= old(self).as_map().insert(url@, art@));
        assert(self.fetching() =~= old(self).fetching());
    }

    /// Asks for the rendering of `url`: gives whether a fetch is due, and
    /// from then on counts `url` as being fetched unless it is rendered.
    pub fn claim_fetch(&mut self, url: &str) -> (r: bool)
        requires
            old(self).well_formed(),
        ensures
            final(self).well_formed(),
            final(self).as_map() == old(self).as_map(),
            r == fetch_due(old(self).as_map(), old(self).fetching(), url@),
            final(self).fetching() == fetching_after(old(self).as_map(), old(self).fetching(), url@),
    {
        if url.is_empty() {
            return false;
        }
        if self.renderings.get(url).is_some() {
            return false;
        }
        let already = match self.in_flight.get(url) {
            Some(b) => *b,
            None => false,
        };
        self.in_flight.insert(String::from_str(url), true);
        assert(self.fetching() =~= old(self).fetching().insert(url@));
        assert(self.as_map() =~= old(self).as_map());
        !already
    }

    /// Asks for the renderings of `urls` in order; gives those whose fetch
    /// is due, each once.
    pub fn claim_fetches(&mut self, urls: &Vec<String>) -> (r: Vec<String>)
        requires
            old(self).well_formed(),
        ensures
            final(self).well_formed(),
            final(self).as_map() == old(self).as_map(),
            texts(r@) == claimed(texts(urls@), old(self).as_map(), old(self).fetching()).0,
            final(self).fetching() == claimed(texts(urls@), old(self).as_map(), old(self).fetching()).1,
    {
        let ghost art0 = self.as_map();
        let ghost f0 = self.fetching();
        let mut due: Vec<String> = Vec::new();
        let mut i: usize = 0;
        while i < urls.len()
            invariant
                self.well_formed(),
                self.as_map() == art0,
                i <= urls@.len(),
                texts(due@) == claimed(texts(urls@.take(i as int)), art0, f0).0,
                self.fetching() == claimed(texts(urls@.take(i as int)), art0, f0).1,
            decreases urls.len() - i,
        {
            let ghost prefix = texts(urls@.take(i as int));
            let ghost next = texts(urls@.take(i + 1));
            assert(next.drop_last() =~= prefix);
            assert(next.last() == urls@[i as int]@);
            let u = &urls[i];
            let fetch = self.claim_fetch(u.as_str());
            if fetch {
                due.push(u.clone());
            }
            assert(texts(due@) =~= claimed(next, art0, f0).0);
            i = i + 1;
        }
        assert(urls@.take(urls@.len() as int) =~= urls@);
        due
    }

    /// A fetch of `url` ended with `art` (empty when it failed): it is
    /// stored, and `url` no longer counts as being fetched.
    pub fn finish_fetch(&mut self, url: String, art: String)
        requires
            old(self).well_formed(),
        ensures
            final(self).well_formed(),
            final(self).as_map() == old(self).as_map().insert(url@, art@),
            final(self).fetching() == old(self).fetching().remove(url@),
    {
        self.in_flight.insert(url.clone(), false);
        self.renderings.insert(url, art);
        assert(self.as_map() =~= old(self).as_map().insert(url@, art@));
        assert(self.fetching() =~= old(self).fetching().remove(url@));
    }

    /// Stores fetched renderings in order.
    pub fn finish_fetches(&mut self, results: Vec<(String, String)>)
        requires
            old(self).well_formed(),
        ensures
            final(self).well_formed(),
            final(self).as_map() == stored(old(self).as_map(), results_view(results@)),
            final(self).fetching() == finished(old(self).fetching(), results_view(results@)),
    {
        let ghost art0 = self.as_map();
        let ghost f0 = self.fetching();
        let ghost all = results_view(results@);
        let mut i: usize = 0;
        while i < results.len()
            invariant
                self.well_formed(),
                i <= results@.len(),
                all == results_view(results@),
                self.as_map() == stored(art0, all.take(i as int)),
                self.fetching() == finished(f0, all.take(i as int)),
            decreases results.len() - i,
        {
            let ghost next = all.take(i + 1);
            assert(next.drop_last() =~= all.take(i as int));
            assert(next.last() == (results@[i as int].0@, results@[i as int].1@));
            let url = results[i].0.clone();
            let art = results[i].1.clone();
            self.finish_fetch(url, art);
            i = i + 1;
        }
        assert(all.take(all.len() as int) =~= all);
    }
}


/// An image is fetched once: right after a fetch of it was asked for, none
/// is due again.
pub proof fn law_each_image_fetched_once(
    art: Map<Seq<char>, Seq<char>>,
    fetching: Set<Seq<char>>,
    url: Seq<char>,
)
    ensures
        !fetch_due(art, fetching_after(art, fetching, url), url),
{
}

/// Once its rendering came in, an image is not fetched again.
pub proof fn law_rendered_image_not_fetched_again(
    art: Map<Seq<char>, Seq<char>>,
    fetching: Set<Seq<char>>,
    url: Seq<char>,
    rendering: Seq<char>,
)
    ensures
        !fetch_due(art.insert(url, rendering), fetching.remove(url), url),
{
}

/// Reading a URL right after storing its rendering gives that rendering;
/// other URLs read as before.
pub proof fn law_art_cache_read_after_write(
    before: ArtCache,
    after: ArtCache,
    url: Seq<char>,
    art: Seq<char>,
    other: Seq<char>,
)
    requires
        after.as_map() == before.as_map().insert(url, art),
    ensures
        after.as_map().contains_key(url),
        after.as_map()[url] == art,
        other != url ==> after.as_map().contains_key(other) == before.as_map().contains_key(other),
        other != url && before.as_map().contains_key(other) ==> after.as_map()[other] == before.as_map()[other],
{
}

} // verus!
