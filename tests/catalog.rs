use media_library::collection::MovieCollection;
use media_library::error::{LoadError, NfoError};
use media_library::library::{load_dir_or_err, Library, RootProbe};
use media_library::logger::Logger;
use media_library::movie::{metadata_from, DirItem, Movie, MovieNfo};
use media_library::name::parse_basename;
use media_library::slug::{slug, slug_from_lowercase};
use media_library::text::{push_decimal, trim_str};

fn nfo(title: Option<&str>, year: Option<u32>) -> MovieNfo {
    MovieNfo {
        title: title.map(|t| t.to_string()),
        original_title: None,
        year,
        summary: None,
    }
}

fn dir(name: &str, nfo: Result<MovieNfo, NfoError>) -> DirItem {
    DirItem {
        path: format!("/lib/Movies/{}", name),
        basename: name.to_string(),
        is_dir: true,
        nfo,
    }
}

fn file(name: &str) -> DirItem {
    DirItem {
        path: format!("/lib/Movies/{}", name),
        basename: name.to_string(),
        is_dir: false,
        nfo: Err(NfoError::NotFound),
    }
}

fn movie(name: &str, nfo: Option<MovieNfo>) -> Movie {
    Movie {
        path: format!("/lib/Movies/{}", name),
        basename: name.to_string(),
        nfo,
    }
}

fn root(items: Vec<DirItem>) -> RootProbe {
    RootProbe {
        path: Some("/lib".to_string()),
        is_dir: true,
        movies: Some(items),
    }
}

#[test]
fn parses_title_and_year() {
    let (title, year) = parse_basename("Old Yeller (1957)");
    assert_eq!(title, "Old Yeller");
    assert_eq!(year, Some(1957));
}

#[test]
fn parses_and_trims_title_before_year() {
    let (title, year) = parse_basename("  The Thing \t (0982)");
    assert_eq!(title, "The Thing");
    assert_eq!(year, Some(982));
}

#[test]
fn name_without_year_is_kept_whole() {
    let (title, year) = parse_basename("Independence Day 3");
    assert_eq!(title, "Independence Day 3");
    assert_eq!(year, None);
}

#[test]
fn name_with_short_year_is_kept_whole() {
    assert_eq!(parse_basename("Alien (79)"), ("Alien (79)".to_string(), None));
    assert_eq!(parse_basename("Alien(1979)"), ("Alien(1979)".to_string(), None));
    assert_eq!(parse_basename("Alien (19x9)"), ("Alien (19x9)".to_string(), None));
    assert_eq!(parse_basename(" (1979)"), (" (1979)".to_string(), None));
    assert_eq!(parse_basename(""), ("".to_string(), None));
}

#[test]
fn year_must_end_the_name() {
    assert_eq!(
        parse_basename("Alien (1979) extended"),
        ("Alien (1979) extended".to_string(), None)
    );
    assert_eq!(
        parse_basename("Alien (1979) (2003)"),
        ("Alien (1979)".to_string(), Some(2003))
    );
}

#[test]
fn display_with_year() {
    let m = movie("Old Yeller (1957)", None);
    assert_eq!(m.display(), "Old Yeller (1957)");
}

#[test]
fn display_without_year() {
    let m = movie("Independence Day 3", None);
    assert_eq!(m.display(), "Independence Day 3");
}

#[test]
fn slug_with_year() {
    assert_eq!(slug("Old Yeller", Some(1957)), "old-yeller-1957");
}

#[test]
fn slug_without_year_ends_in_hyphen() {
    assert_eq!(slug("Independence Day 3", None), "independence-day-3-");
}

#[test]
fn slug_collapses_whitespace_runs() {
    assert_eq!(slug("A  Fistful\tof  Dollars", Some(1964)), "a-fistful-of-dollars-1964");
    assert_eq!(slug_from_lowercase("x \u{3000} y", Some(7)), "x-y-7");
    assert_eq!(slug("", None), "-");
}

#[test]
fn slug_lowercases_non_ascii() {
    assert_eq!(slug("ÉTÉ", Some(2000)), "été-2000");
}

#[test]
fn slug_depends_on_title_and_year_only() {
    let a = movie("Old Yeller (1957)", None);
    let b = movie("elsewhere", Some(nfo(Some("Old Yeller"), Some(1957))));
    assert_eq!(a.slug(), b.slug());
    assert_eq!(a.slug(), "old-yeller-1957");
}

#[test]
fn metadata_overrides_directory_name() {
    let m = movie("Old Yeller (1957)", Some(nfo(Some("Yeller"), Some(1958))));
    assert_eq!(m.title(), "Yeller");
    assert_eq!(m.year(), Some(1958));
    assert_eq!(m.display(), "Yeller (1958)");
}

#[test]
fn empty_metadata_title_falls_back() {
    let m = movie("Old Yeller (1957)", Some(nfo(Some(""), None)));
    assert_eq!(m.title(), "Old Yeller");
    assert_eq!(m.year(), Some(1957));
}

#[test]
fn whitespace_title_in_name_falls_back_to_name() {
    let m = movie("   (1957)", None);
    assert_eq!(m.title(), "   (1957)");
    assert_eq!(m.year(), Some(1957));
}

#[test]
fn basename_and_key_value_pair() {
    let m = movie("Heat (1995)", None);
    assert_eq!(m.basename(), "Heat (1995)");
    let (k, v) = m.key_value_pair();
    assert_eq!(k, "heat-1995");
    assert_eq!(v.path, "/lib/Movies/Heat (1995)");
}

#[test]
fn metadata_errors_collapse_to_none() {
    assert!(metadata_from(Err(NfoError::NotFound)).is_none());
    assert!(metadata_from(Err(NfoError::ParseError)).is_none());
    let m = metadata_from(Ok(nfo(Some("X"), None))).unwrap();
    assert_eq!(m.title.as_deref(), Some("X"));
}

#[test]
fn load_rejects_non_directory() {
    assert_eq!(Movie::load(file("notes.txt")).err(), Some(LoadError::NotADirectory));
}

#[test]
fn missing_metadata_uses_directory_name() {
    let m = Movie::load(dir("Old Yeller (1957)", Err(NfoError::NotFound))).ok().unwrap();
    assert!(m.nfo.is_none());
    assert_eq!(m.title(), "Old Yeller");
    assert_eq!(m.year(), Some(1957));
}

#[test]
fn malformed_metadata_is_still_included() {
    let lib = Library::load(root(vec![dir("Heat (1995)", Err(NfoError::ParseError))]))
        .ok()
        .unwrap();
    assert_eq!(lib.movies.len(), 1);
    let m = lib.movies.get("heat-1995").unwrap();
    assert!(m.nfo.is_none());
    assert_eq!(m.display(), "Heat (1995)");
}

#[test]
fn load_all_skips_files_and_keeps_order() {
    let movies = Movie::load_all(Some(vec![
        dir("B (2001)", Err(NfoError::NotFound)),
        file("readme.txt"),
        dir("A", Ok(nfo(Some("Alpha"), Some(1999)))),
    ]));
    assert_eq!(movies.len(), 2);
    assert_eq!(movies[0].basename, "B (2001)");
    assert_eq!(movies[1].title(), "Alpha");
}

#[test]
fn load_all_unlistable_is_empty() {
    assert!(Movie::load_all(None).is_empty());
}

#[test]
fn collection_keys_by_slug() {
    let c = Movie::load_collection(Some(vec![
        dir("Old Yeller (1957)", Err(NfoError::NotFound)),
        dir("Independence Day 3", Err(NfoError::NotFound)),
    ]));
    assert_eq!(c.len(), 2);
    assert_eq!(c.get("old-yeller-1957").unwrap().title(), "Old Yeller");
    assert_eq!(c.get("independence-day-3-").unwrap().year(), None);
    assert!(c.get("old-yeller").is_none());
    let mut slugs = c.slugs();
    slugs.sort();
    assert_eq!(slugs, vec!["independence-day-3-".to_string(), "old-yeller-1957".to_string()]);
}

#[test]
fn colliding_slugs_keep_the_last() {
    let c = Movie::load_collection(Some(vec![
        dir("Heat (1995)", Err(NfoError::NotFound)),
        dir("heat  (1995)", Err(NfoError::NotFound)),
    ]));
    assert_eq!(c.len(), 1);
    assert_eq!(c.get("heat-1995").unwrap().basename, "heat  (1995)");
}

#[test]
fn collection_insert_replaces() {
    let mut c = MovieCollection::new();
    assert_eq!(c.len(), 0);
    c.insert("k".to_string(), movie("one", None));
    c.insert("k".to_string(), movie("two", None));
    assert_eq!(c.len(), 1);
    assert_eq!(c.slugs(), vec!["k".to_string()]);
    assert_eq!(c.get("k").unwrap().basename, "two");
}

#[test]
fn root_that_is_a_file_fails() {
    let r = Library::load(RootProbe {
        path: Some("/lib/file.txt".to_string()),
        is_dir: false,
        movies: None,
    });
    assert_eq!(r.err(), Some(LoadError::NotADirectory));
}

#[test]
fn unresolved_root_fails_with_io() {
    let r = Library::load(RootProbe { path: None, is_dir: false, movies: None });
    assert_eq!(r.err(), Some(LoadError::Io));
}

#[test]
fn missing_movies_directory_gives_empty_catalog() {
    let lib = Library::load(RootProbe {
        path: Some("/lib".to_string()),
        is_dir: true,
        movies: None,
    })
    .ok()
    .unwrap();
    assert_eq!(lib.path, "/lib");
    assert_eq!(lib.movies.len(), 0);
}

#[test]
fn loading_twice_gives_equal_catalogs() {
    let tree = || {
        root(vec![
            dir("Old Yeller (1957)", Ok(nfo(None, None))),
            dir("Heat (1995)", Err(NfoError::ParseError)),
            file("x"),
        ])
    };
    let a = Library::load(tree()).ok().unwrap();
    let b = Library::load(tree()).ok().unwrap();
    let mut ka = a.movies.slugs();
    let mut kb = b.movies.slugs();
    ka.sort();
    kb.sort();
    assert_eq!(ka, kb);
    for k in &ka {
        let ma = a.movies.get(k).unwrap();
        let mb = b.movies.get(k).unwrap();
        assert_eq!(ma.path, mb.path);
        assert_eq!(ma.display(), mb.display());
        assert_eq!(ma.nfo.is_some(), mb.nfo.is_some());
    }
}

#[test]
fn dir_error_message() {
    assert_eq!(load_dir_or_err("movie", "/a", true), Ok(()));
    assert_eq!(
        load_dir_or_err("library", "/a/b", false),
        Err("Cannot load library: path \"/a/b\" is not a directory".to_string())
    );
}

#[test]
fn logger_verbosity() {
    assert!(Logger::new(true).is_verbose());
    assert!(!Logger::new(false).is_verbose());
}

#[test]
fn text_helpers() {
    assert_eq!(trim_str("\u{a0} a b \n"), "a b");
    assert_eq!(trim_str("   "), "");
    let mut s = String::from("n=");
    push_decimal(&mut s, 4_294_967_295);
    assert_eq!(s, "n=4294967295");
    let mut z = String::new();
    push_decimal(&mut z, 0);
    assert_eq!(z, "0");
}
