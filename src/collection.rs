//! The catalog: movies keyed by slug, built from a listing of the movies
//! directory.
use crate::movie::{movie_slug, resolved, DirItem, DirItemView, Movie, MovieView};
use vstd::hash_map::StringHashMap;
use vstd::prelude::*;

verus! {

/// The views of a listing's items.
pub open spec fn item_views(items: Seq<DirItem>) -> Seq<DirItemView> {
    items.map_values(|i: DirItem| i@)
}

/// The views of a sequence of movies.
pub open spec fn movie_views(movies: Seq<Movie>) -> Seq<MovieView> {
    movies.map_values(|m: Movie| m@)
}

/// The movies that a listing gives, in listing order: one for each item that
/// is a directory.
pub open spec fn loaded(items: Seq<DirItemView>) -> Seq<MovieView>
    decreases items.len(),
{
    if items.len() == 0 {
        seq![]
    } else {
        let before = loaded(items.drop_last());
        match resolved(items.last()) {
            Some(m) => before.push(m),
            None => before,
        }
    }
}

/// The movies of a listing, or none where the directory could not be listed.
pub open spec fn loaded_listing(listing: Option<Seq<DirItemView>>) -> Seq<MovieView> {
    match listing {
        Some(items) => loaded(items),
        None => seq![],
    }
}

/// The catalog of a sequence of movies: each under its slug, a later movie
/// replacing an earlier one with the same slug.
pub open spec fn catalog_of(movies: Seq<MovieView>) -> Map<Seq<char>, MovieView>
    decreases movies.len(),
{
    if movies.len() == 0 {
        Map::empty()
    } else {
        catalog_of(movies.drop_last()).insert(movie_slug(movies.last()), movies.last())
    }
}

/// The views of a listing, where there is one.
pub open spec fn listing_view(listing: Option<Vec<DirItem>>) -> Option<Seq<DirItemView>> {
    match listing {
        Some(v) => Some(item_views(v@)),
        None => None,
    }
}

proof fn lemma_loaded_step(items: Seq<DirItemView>, i: int)
    requires
        0 <= i < items.len(),
    ensures
        loaded(items.subrange(0, i + 1)) == match resolved(items[i]) {
            Some(m) => loaded(items.subrange(0, i)).push(m),
            None => loaded(items.subrange(0, i)),
        },
{
    assert(items.subrange(0, i + 1).drop_last() =~= items.subrange(0, i));
}

impl Movie {
    /// Loads every movie of a listing of the movies directory, in listing
    /// order, skipping items that are not directories. Where the directory
    /// could not be listed (`None`) there are no movies.
    pub fn load_all(listing: Option<Vec<DirItem>>) -> (r: Vec<Movie>)
        ensures
            movie_views(r@) == loaded_listing(listing_view(listing)),
    {
        let mut out: Vec<Movie> = Vec::new();
        match listing {
            None => {
                assert(movie_views(out@) =~= seq![]);
            },
            Some(items) => {
                let ghost all = item_views(items@);
                assert(movie_views(out@) =~= loaded(all.subrange(0, 0)));
                for item in it: items
                    invariant
                        it.seq() == items@,
                        all == item_views(items@),
                        movie_views(out@) == loaded(all.subrange(0, it.index() as int)),
                {
                    let ghost i = it.index() as int;
                    proof {
                        lemma_loaded_step(all, i);
                    }
                    let ghost before = out@;
                    match Movie::load(item) {
                        Ok(m) => {
                            out.push(m);
                            assert(movie_views(out@) =~= movie_views(before).push(out@.last()@));
                        },
                        Err(_) => {},
                    }
                }
                assert(all.subrange(0, all.len() as int) =~= all);
            },
        }
        out
    }

    /// Loads the movies of a listing into a collection keyed by slug; of two
    /// movies with the same slug the one listed later stays.
    pub fn load_collection(listing: Option<Vec<DirItem>>) -> (r: MovieCollection)
        ensures
            r.wf(),
            r@ == catalog_of(loaded_listing(listing_view(listing))),
    {
        let movies = Movie::load_all(listing);
        let ghost all = movie_views(movies@);
        let mut collection = MovieCollection::new();
        for movie in it: movies
            invariant
                it.seq() == movies@,
                all == movie_views(movies@),
                collection.wf(),
                collection@ == catalog_of(all.subrange(0, it.index() as int)),
        {
            let ghost i = it.index() as int;
            assert(all.subrange(0, i + 1).drop_last() =~= all.subrange(0, i));
            let (key, movie) = movie.key_value_pair();
            collection.insert(key, movie);
        }
        assert(all.subrange(0, all.len() as int) =~= all);
        collection
    }
}

proof fn lemma_catalog_push(movies: Seq<MovieView>, m: MovieView)
    ensures
        catalog_of(movies.push(m)) == catalog_of(movies).insert(movie_slug(m), m),
{
    assert(movies.push(m).drop_last() =~= movies);
}

/// Where movies share a slug, the catalog holds exactly one entry under it: the
/// movie listed last among them.
pub proof fn lemma_collision_last_wins(movies: Seq<MovieView>, j: int)
    requires
        0 <= j < movies.len(),
        forall|k: int| j < k < movies.len() ==> movie_slug(#[trigger] movies[k]) != movie_slug(movies[j]),
    ensures
        catalog_of(movies).contains_key(movie_slug(movies[j])),
        catalog_of(movies)[movie_slug(movies[j])] == movies[j],
    decreases movies.len(),
{
    if j < movies.len() - 1 {
        let rest = movies.drop_last();
        assert(rest[j] == movies[j]);
        assert forall|k: int| j < k < rest.len() implies movie_slug(#[trigger] rest[k]) != movie_slug(rest[j]) by {
            assert(rest[k] == movies[k]);
        }
        lemma_collision_last_wins(rest, j);
        assert(movie_slug(movies[movies.len() - 1]) != movie_slug(movies[j]));
    }
}

/// Every directory of a listing has an entry under its slug in the catalog.
pub proof fn lemma_directory_in_catalog(items: Seq<DirItemView>, i: int)
    requires
        0 <= i < items.len(),
        items[i].is_dir,
    ensures
        catalog_of(loaded(items)).contains_key(movie_slug(resolved(items[i])->0)),
    decreases items.len(),
{
    let rest = items.drop_last();
    let before = loaded(rest);
    if i == items.len() - 1 {
        lemma_catalog_push(before, resolved(items[i])->0);
    } else {
        assert(rest[i] == items[i]);
        lemma_directory_in_catalog(rest, i);
        if let Some(m) = resolved(items.last()) {
            lemma_catalog_push(before, m);
        }
    }
}

/// Movies keyed by slug.
pub struct MovieCollection {
    map: StringHashMap<Movie>,
    keys: Vec<String>,
}

impl View for MovieCollection {
    type V = Map<Seq<char>, MovieView>;

    closed spec fn view(&self) -> Map<Seq<char>, MovieView> {
        self.map@.map_values(|m: Movie| m@)
    }
}

impl MovieCollection {
    /// Well-formed: `keys` lists each key of the map exactly once.
    pub closed spec fn wf(&self) -> bool {
        &&& forall|i: int| 0 <= i < self.keys@.len() ==> self.map@.contains_key(#[trigger] self.keys@[i]@)
        &&& forall|k: Seq<char>| #[trigger] self.map@.contains_key(k) ==> exists|i: int|
            0 <= i < self.keys@.len() && self.keys@[i]@ == k
        &&& forall|i: int, j: int|
            0 <= i < j < self.keys@.len() ==> #[trigger] self.keys@[i]@ != #[trigger] self.keys@[j]@
    }

    /// An empty collection.
    pub fn new() -> (r: MovieCollection)
        ensures
            r.wf(),
            r@ == Map::<Seq<char>, MovieView>::empty(),
    {
        let r = MovieCollection { map: StringHashMap::new(), keys: Vec::new() };
        assert(r@ =~= Map::<Seq<char>, MovieView>::empty());
        r
    }

    /// Puts `movie` under `key`, replacing what was there.
    pub fn insert(&mut self, key: String, movie: Movie)
        requires
            old(self).wf(),
        ensures
            final(self).wf(),
            final(self)@ == old(self)@.insert(key@, movie@),
    {
        let ghost k = key@;
        if !self.map.contains_key(key.as_str()) {
            self.keys.push(key.clone());
            proof {
                let n = self.keys@.len() - 1;
                assert(self.keys@[n]@ == k);
                assert forall|i: int, j: int| 0 <= i < j < self.keys@.len() implies #[trigger] self.keys@[i]@ != #[trigger] self.keys@[j]@ by {
                    if j == n {
                        assert(old(self).map@.contains_key(self.keys@[i]@));
                    } else {
                        assert(old(self).keys@[i]@ != old(self).keys@[j]@);
                    }
                }
            }
        }
        self.map.insert(key, movie);
        proof {
            assert forall|q: Seq<char>| #[trigger] self.map@.contains_key(q) implies exists|i: int|
                0 <= i < self.keys@.len() && self.keys@[i]@ == q by {
                if q == k {
                    if old(self).map@.contains_key(k) {
                        let i = choose|i: int| 0 <= i < old(self).keys@.len() && old(self).keys@[i]@ == k;
                        assert(self.keys@[i]@ == k);
                    } else {
                        assert(self.keys@[self.keys@.len() - 1]@ == k);
                    }
                } else {
                    assert(old(self).map@.contains_key(q));
                    let i = choose|i: int| 0 <= i < old(self).keys@.len() && old(self).keys@[i]@ == q;
                    assert(self.keys@[i]@ == q);
                }
            }
            assert forall|i: int| 0 <= i < self.keys@.len() implies self.map@.contains_key(#[trigger] self.keys@[i]@) by {
                if i < old(self).keys@.len() {
                    assert(old(self).map@.contains_key(old(self).keys@[i]@));
                }
            }
        }
        assert(self@ =~= old(self)@.insert(key@, movie@));
    }

    /// The movie under `slug`, if any.
    pub fn get(&self, slug: &str) -> (r: Option<&Movie>)
        ensures
            match r {
                Some(m) => self@.contains_key(slug@) && m@ == self@[slug@],
                None => !self@.contains_key(slug@),
            },
    {
        self.map.get(slug)
    }

    /// The number of movies.
    pub fn len(&self) -> (r: usize)
        ensures
            r == self@.len(),
    {
        assert(self@.dom() =~= self.map@.dom());
        self.map.len()
    }

    /// Every key, each once.
    pub fn slugs(&self) -> (r: Vec<String>)
        requires
            self.wf(),
        ensures
            forall|k: Seq<char>| self@.contains_key(k) <==> exists|i: int| 0 <= i < r@.len() && #[trigger] r@[i]@ == k,
            forall|i: int, j: int| 0 <= i < j < r@.len() ==> #[trigger] r@[i]@ != #[trigger] r@[j]@,
    {
        let mut r: Vec<String> = Vec::new();
        let mut i: usize = 0;
        while i < self.keys.len()
            invariant
                i <= self.keys@.len(),
                r@.len() == i,
                forall|j: int| 0 <= j < i ==> #[trigger] r@[j]@ == self.keys@[j]@,
            decreases self.keys@.len() - i,
        {
            r.push(self.keys[i].clone());
            i = i + 1;
        }
        proof {
            assert forall|k: Seq<char>| self@.contains_key(k) implies exists|i: int| 0 <= i < r@.len() && #[trigger] r@[i]@ == k by {
                assert(self.map@.contains_key(k));
                let i = choose|i: int| 0 <= i < self.keys@.len() && self.keys@[i]@ == k;
                assert(r@[i]@ == k);
            }
            assert forall|i: int, j: int| 0 <= i < j < r@.len() implies #[trigger] r@[i]@ != #[trigger] r@[j]@ by {
                assert(self.keys@[i]@ != self.keys@[j]@);
            }
        }
        r
    }
}

} // verus!
