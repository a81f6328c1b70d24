//! Catalog entries: one movie directory, its optional metadata, and the
//! title, year and slug derived from them.
use crate::error::{LoadError, NfoError};
use crate::name::{name_title, name_year, parse_basename};
use crate::slug::{slug, slug_text};
use crate::text::{decimal, push_char, push_decimal};
use vstd::prelude::*;
use vstd::string::*;

verus! {

/// Metadata read from an item's metadata file; every field may be absent.
pub struct MovieNfo {
    pub title: Option<String>,
    pub original_title: Option<String>,
    pub year: Option<u32>,
    pub summary: Option<String>,
}

pub struct NfoView {
    pub title: Option<Seq<char>>,
    pub original_title: Option<Seq<char>>,
    pub year: Option<u32>,
    pub summary: Option<Seq<char>>,
}

pub open spec fn opt_view(s: Option<String>) -> Option<Seq<char>> {
    match s {
        Some(t) => Some(t@),
        None => None,
    }
}

impl View for MovieNfo {
    type V = NfoView;

    open spec fn view(&self) -> NfoView {
        NfoView {
            title: opt_view(self.title),
            original_title: opt_view(self.original_title),
            year: self.year,
            summary: opt_view(self.summary),
        }
    }
}

/// What was found at one child of the movies directory: its path, its
/// final component, whether it is a directory, and the outcome of reading
/// its metadata file.
pub struct DirItem {
    pub path: String,
    pub basename: String,
    pub is_dir: bool,
    pub nfo: Result<MovieNfo, NfoError>,
}

pub struct DirItemView {
    pub path: Seq<char>,
    pub basename: Seq<char>,
    pub is_dir: bool,
    pub nfo: Result<NfoView, NfoError>,
}

impl View for DirItem {
    type V = DirItemView;

    open spec fn view(&self) -> DirItemView {
        DirItemView {
            path: self.path@,
            basename: self.basename@,
            is_dir: self.is_dir,
            nfo: match self.nfo {
                Ok(n) => Ok(n@),
                Err(e) => Err(e),
            },
        }
    }
}

/// One movie of the catalog.
pub struct Movie {
    /// Path of the movie directory.
    pub path: String,
    /// Final component of that path.
    pub basename: String,
    /// Metadata from the directory's metadata file, where it could be read.
    pub nfo: Option<MovieNfo>,
}

pub struct MovieView {
    pub path: Seq<char>,
    pub basename: Seq<char>,
    pub nfo: Option<NfoView>,
}

impl View for Movie {
    type V = MovieView;

    open spec fn view(&self) -> MovieView {
        MovieView {
            path: self.path@,
            basename: self.basename@,
            nfo: match self.nfo {
                Some(n) => Some(n@),
                None => None,
            },
        }
    }
}

/// Any failure to read metadata leaves the movie without metadata.
pub open spec fn metadata_of(read: Result<NfoView, NfoError>) -> Option<NfoView> {
    match read {
        Ok(n) => Some(n),
        Err(_) => None,
    }
}

/// The movie that a directory item gives, if it is a directory.
pub open spec fn resolved(item: DirItemView) -> Option<MovieView> {
    if item.is_dir {
        Some(MovieView { path: item.path, basename: item.basename, nfo: metadata_of(item.nfo) })
    } else {
        None
    }
}

/// The metadata title, where there is one and it is not empty.
pub open spec fn nfo_title(m: MovieView) -> Option<Seq<char>> {
    if m.nfo is Some && m.nfo->0.title is Some && m.nfo->0.title->0.len() > 0 {
        m.nfo->0.title
    } else {
        None
    }
}

/// The display title: the metadata title, else the title in the directory
/// name, else the directory name itself.
pub open spec fn display_title(m: MovieView) -> Seq<char> {
    match nfo_title(m) {
        Some(t) => t,
        None => if name_title(m.basename).len() > 0 {
            name_title(m.basename)
        } else {
            m.basename
        },
    }
}

/// The display year: the metadata year, else the year in the directory name.
pub open spec fn display_year(m: MovieView) -> Option<u32> {
    if m.nfo is Some && m.nfo->0.year is Some {
        m.nfo->0.year
    } else {
        name_year(m.basename)
    }
}

/// The key of a movie in the catalog.
pub open spec fn movie_slug(m: MovieView) -> Seq<char> {
    slug_text(display_title(m), display_year(m))
}

/// `Title (YYYY)`, or the title alone where there is no year.
pub open spec fn display_text(m: MovieView) -> Seq<char> {
    match display_year(m) {
        Some(y) => display_title(m) + seq![' ', '('] + decimal(y as nat) + seq![')'],
        None => display_title(m),
    }
}

/// The slug is a function of the display title and year alone: two movies
/// that agree on both have the same slug, whatever their paths or other
/// metadata.
pub proof fn lemma_slug_from_title_and_year(a: MovieView, b: MovieView)
    requires
        display_title(a) == display_title(b),
        display_year(a) == display_year(b),
    ensures
        movie_slug(a) == movie_slug(b),
        movie_slug(a) == slug_text(display_title(a), display_year(a)),
{
}

/// Collapses any failure to read metadata into "no metadata".
pub fn metadata_from(read: Result<MovieNfo, NfoError>) -> (r: Option<MovieNfo>)
    ensures
        match read {
            Ok(n) => r == Some(n),
            Err(_) => r is None,
        },
{
    match read {
        Ok(n) => Some(n),
        Err(_) => None,
    }
}

impl Movie {
    /// Loads a movie from a directory item. Fails with `NotADirectory` where the
    /// item is not a directory; a missing or unreadable metadata file only
    /// leaves the movie without metadata.
    pub fn load(item: DirItem) -> (r: Result<Movie, LoadError>)
        ensures
            r is Ok <==> item@.is_dir,
            r is Ok ==> resolved(item@) == Some(r->Ok_0@),
            r is Err ==> r->Err_0 == LoadError::NotADirectory,
    {
        if !item.is_dir {
            return Err(LoadError::NotADirectory);
        }
        let nfo = metadata_from(item.nfo);
        Ok(Movie { path: item.path, basename: item.basename, nfo })
    }

    /// The movie directory's final path component.
    pub fn basename(&self) -> (r: String)
        ensures
            r@ == self.basename@,
    {
        self.basename.clone()
    }

    /// The display title; never empty where the directory name is not.
    pub fn title(&self) -> (r: String)
        ensures
            r@ == display_title(self@),
            self.basename@.len() > 0 ==> r@.len() > 0,
    {
        if let Some(n) = &self.nfo {
            if let Some(t) = &n.title {
                if t.as_str().unicode_len() > 0 {
                    return t.clone();
                }
            }
        }
        let (parsed, _) = parse_basename(self.basename.as_str());
        if parsed.as_str().unicode_len() > 0 {
            parsed
        } else {
            self.basename.clone()
        }
    }

    /// The release year.
    pub fn year(&self) -> (r: Option<u32>)
        ensures
            r == display_year(self@),
    {
        if let Some(n) = &self.nfo {
            if let Some(y) = n.year {
                return Some(y);
            }
        }
        let (_, year) = parse_basename(self.basename.as_str());
        year
    }

    /// The catalog key of this movie.
    pub fn slug(&self) -> (r: String)
        ensures
            r@ == movie_slug(self@),
    {
        let title = self.title();
        let year = self.year();
        slug(title.as_str(), year)
    }

    /// The movie with its catalog key.
    pub fn key_value_pair(self) -> (r: (String, Movie))
        ensures
            r.0@ == movie_slug(self@),
            r.1 == self,
    {
        (self.slug(), self)
    }

    /// The title with the year in parentheses after it, where there is one:
    /// `"Old Yeller (1957)"`, `"Independence Day 3"`.
    pub fn display(&self) -> (r: String)
        ensures
            r@ == display_text(self@),
    {
        let mut out = self.title();
        match self.year() {
            Some(y) => {
                push_char(&mut out, ' ');
                push_char(&mut out, '(');
                push_decimal(&mut out, y);
                push_char(&mut out, ')');
                assert(out@ =~= display_text(self@));
            },
            None => {},
        }
        out
    }
}

} // verus!
