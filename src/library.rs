//! The media library: a validated root directory and the movie catalog found
//! beneath it.
use crate::collection::{
    catalog_of, lemma_directory_in_catalog, listing_view, loaded_listing, MovieCollection,
};
use crate::error::LoadError;
use crate::movie::{
    display_title, display_year, movie_slug, resolved, DirItem, DirItemView, Movie, MovieView,
};
use crate::name::{name_title, name_year};
use vstd::prelude::*;
use vstd::string::*;

verus! {

/// What was found at the library root: the resolved path (`None` where it
/// could not be resolved), whether it is a directory, and the listing of the
/// movies directory beneath it (`None` where that could not be listed).
pub struct RootProbe {
    pub path: Option<String>,
    pub is_dir: bool,
    pub movies: Option<Vec<DirItem>>,
}

pub struct RootProbeView {
    pub path: Option<Seq<char>>,
    pub is_dir: bool,
    pub movies: Option<Seq<DirItemView>>,
}

impl View for RootProbe {
    type V = RootProbeView;

    open spec fn view(&self) -> RootProbeView {
        RootProbeView {
            path: match self.path {
                Some(p) => Some(p@),
                None => None,
            },
            is_dir: self.is_dir,
            movies: listing_view(self.movies),
        }
    }
}

/// Media library.
pub struct Library {
    /// Path to the root of the library.
    pub path: String,
    /// Movie collection.
    pub movies: MovieCollection,
}

pub struct LibraryView {
    pub path: Seq<char>,
    pub movies: Map<Seq<char>, MovieView>,
}

impl View for Library {
    type V = LibraryView;

    open spec fn view(&self) -> LibraryView {
        LibraryView { path: self.path@, movies: self.movies@ }
    }
}

/// The outcome of loading a library from what was found at its root.
pub open spec fn library_of(root: RootProbeView) -> Result<LibraryView, LoadError> {
    match root.path {
        None => Err(LoadError::Io),
        Some(p) => if !root.is_dir {
            Err(LoadError::NotADirectory)
        } else {
            Ok(LibraryView { path: p, movies: catalog_of(loaded_listing(root.movies)) })
        },
    }
}

/// Loading the same unmodified tree twice gives equal libraries: the same
/// root, and catalogs with the same keys and the same entries.
pub proof fn lemma_load_idempotent(first: RootProbeView, second: RootProbeView)
    requires
        first == second,
    ensures
        library_of(first) == library_of(second),
        library_of(first) is Ok ==> library_of(first)->Ok_0.movies == library_of(second)->Ok_0.movies,
{
}

/// A root that is not a directory fails the load with `NotADirectory`, and no
/// catalog is built.
pub proof fn lemma_root_not_directory(root: RootProbeView)
    requires
        root.path is Some,
        !root.is_dir,
    ensures
        library_of(root) == Err::<LibraryView, LoadError>(LoadError::NotADirectory),
{
}

/// A movie directory whose metadata file is missing or malformed still has an
/// entry in the catalog, titled and dated from its directory name, and the
/// load does not fail on its account.
pub proof fn lemma_unreadable_metadata_kept(root: RootProbeView, i: int)
    requires
        root.path is Some,
        root.is_dir,
        root.movies is Some,
        0 <= i < root.movies->0.len(),
        root.movies->0[i].is_dir,
        root.movies->0[i].nfo is Err,
    ensures
        library_of(root) is Ok,
        ({
            let item = root.movies->0[i];
            let m = resolved(item)->0;
            &&& m.nfo is None
            &&& display_title(m) == (if name_title(item.basename).len() > 0 {
                name_title(item.basename)
            } else {
                item.basename
            })
            &&& display_year(m) == name_year(item.basename)
            &&& library_of(root)->Ok_0.movies.contains_key(movie_slug(m))
        }),
{
    lemma_directory_in_catalog(root.movies->0, i);
}

impl Library {
    /// Loads a library from what was found at its root. Fails with `Io` where
    /// the root path could not be resolved and with `NotADirectory` where it is
    /// not a directory; a movies directory that is missing or cannot be listed
    /// gives an empty catalog.
    pub fn load(root: RootProbe) -> (r: Result<Library, LoadError>)
        ensures
            match r {
                Ok(lib) => library_of(root@) == Ok::<LibraryView, LoadError>(lib@) && lib.movies.wf(),
                Err(e) => library_of(root@) == Err::<LibraryView, LoadError>(e),
            },
    {
        let path = match root.path {
            Some(p) => p,
            None => return Err(LoadError::Io),
        };
        if !root.is_dir {
            return Err(LoadError::NotADirectory);
        }
        let movies = Movie::load_collection(root.movies);
        Ok(Library { path, movies })
    }
}

/// The message for a path that should be a directory and is not.
pub open spec fn not_a_directory_message(entity: Seq<char>, path: Seq<char>) -> Seq<char> {
    "Cannot load "@ + entity + ": path \""@ + path + "\" is not a directory"@
}

/// Errors with a message naming `entity` and `path` where `path` is not a
/// directory.
pub fn load_dir_or_err(entity: &str, path: &str, is_dir: bool) -> (r: Result<(), String>)
    ensures
        r is Ok <==> is_dir,
        r is Err ==> r->Err_0@ == not_a_directory_message(entity@, path@),
{
    if is_dir {
        return Ok(());
    }
    let mut m = String::from_str("Cannot load ");
    m.append(entity);
    m.append(": path \"");
    m.append(path);
    m.append("\" is not a directory");
    Err(m)
}

} // verus!
