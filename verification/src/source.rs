//! Film pages of two sites as plain records.

use crate::text::{decimal, u64_to_string, views};
use vstd::prelude::*;

verus! {

/// What a film page tells.
pub struct FilmView {
    pub url: Seq<char>,
    pub name: Seq<char>,
    pub release_time: Seq<char>,
    pub genre: Seq<char>,
    pub language: Seq<char>,
    pub director: Seq<char>,
    pub starring: Seq<char>,
    pub introduction: Seq<char>,
    pub region: Seq<char>,
    pub sources: Seq<Seq<Seq<char>>>,
}

impl FilmView {
    /// The page at `url`, of which nothing else is known yet.
    pub open spec fn at(url: Seq<char>) -> FilmView {
        FilmView {
            url,
            name: Seq::empty(),
            release_time: Seq::empty(),
            genre: Seq::empty(),
            language: Seq::empty(),
            director: Seq::empty(),
            starring: Seq::empty(),
            introduction: Seq::empty(),
            region: Seq::empty(),
            sources: Seq::empty(),
        }
    }
}

/// The views of the sources of a film: for each source the URLs of its episodes.
pub open spec fn source_lists(sources: Seq<Vec<String>>) -> Seq<Seq<Seq<char>>> {
    Seq::new(sources.len(), |i: int| views(sources[i]@))
}

/// What every film page offers.
pub trait FilmInfo {
    /// What the page tells.
    spec fn film(&self) -> FilmView;

    fn name(&self) -> (text: &str)
        ensures
            text@ == self.film().name,
    ;

    fn release_time(&self) -> (text: &str)
        ensures
            text@ == self.film().release_time,
    ;

    fn genre(&self) -> (text: &str)
        ensures
            text@ == self.film().genre,
    ;

    fn language(&self) -> (text: &str)
        ensures
            text@ == self.film().language,
    ;

    fn director(&self) -> (text: &str)
        ensures
            text@ == self.film().director,
    ;

    fn starring(&self) -> (text: &str)
        ensures
            text@ == self.film().starring,
    ;

    fn introduction(&self) -> (text: &str)
        ensures
            text@ == self.film().introduction,
    ;

    fn region(&self) -> (text: &str)
        ensures
            text@ == self.film().region,
    ;

    fn sources(&self) -> (lists: &Vec<Vec<String>>)
        ensures
            source_lists(lists@) == self.film().sources,
    ;
}

/// The URL of the film page `id`: the number between `before` and `after`.
pub open spec fn film_url(before: Seq<char>, id: u64, after: Seq<char>) -> Seq<char> {
    before + decimal(id as nat) + after
}

fn page_url(before: &str, id: u64, after: &str) -> (url: String)
    ensures
        url@ == film_url(before@, id, after@),
{
    let mut url = String::from_str(before);
    let number = u64_to_string(id);
    url.append(number.as_str());
    url.append(after);
    url
}

/// A film page of `v.ijujitv.cc`.
#[derive(Debug)]
pub struct IJUJITV {
    url: String,
    name: String,
    release_time: String,
    genre: String,
    language: String,
    director: String,
    starring: String,
    introduction: String,
    region: String,
    sources: Vec<Vec<String>>,
}

/// A film page of `www.zbkyyy.com`.
#[derive(Debug)]
pub struct ZBKYYY {
    url: String,
    name: String,
    release_time: String,
    genre: String,
    language: String,
    director: String,
    starring: String,
    introduction: String,
    region: String,
    sources: Vec<Vec<String>>,
}

impl Default for IJUJITV {
    fn default() -> (film: Self)
        ensures
            film.film() == FilmView::at(Seq::empty()),
    {
        let film = IJUJITV {
            url: String::new(),
            name: String::new(),
            release_time: String::new(),
            genre: String::new(),
            language: String::new(),
            director: String::new(),
            starring: String::new(),
            introduction: String::new(),
            region: String::new(),
            sources: Vec::new(),
        };
        assert(film.film().sources =~= Seq::empty());
        film
    }
}

impl Default for ZBKYYY {
    fn default() -> (film: Self)
        ensures
            film.film() == FilmView::at(Seq::empty()),
    {
        let film = ZBKYYY {
            url: String::new(),
            name: String::new(),
            release_time: String::new(),
            genre: String::new(),
            language: String::new(),
            director: String::new(),
            starring: String::new(),
            introduction: String::new(),
            region: String::new(),
            sources: Vec::new(),
        };
        assert(film.film().sources =~= Seq::empty());
        film
    }
}

impl IJUJITV {
    /// The film page at `url`, not fetched yet.
    pub fn new(url: &str) -> (film: Self)
        ensures
            film.film() == FilmView::at(url@),
    {
        let mut film = Self::default();
        film.url = String::from_str(url);
        film
    }

    /// The film page with the identifier `id`, not fetched yet.
    pub fn from_id(id: u64) -> (film: Self)
        ensures
            film.film() == FilmView::at(film_url("https://v.ijujitv.cc/detail/"@, id, ".html"@)),
    {
        let url = page_url("https://v.ijujitv.cc/detail/", id, ".html");
        Self::new(url.as_str())
    }

    /// The URL of the page.
    pub fn url(&self) -> (text: &str)
        ensures
            text@ == self.film().url,
    {
        self.url.as_str()
    }
}

impl ZBKYYY {
    /// The film page at `url`, not fetched yet.
    pub fn new(url: &str) -> (film: Self)
        ensures
            film.film() == FilmView::at(url@),
    {
        let mut film = Self::default();
        film.url = String::from_str(url);
        film
    }

    /// The film page with the identifier `id`, not fetched yet.
    pub fn from_id(id: u64) -> (film: Self)
        ensures
            film.film() == FilmView::at(
                film_url("https://www.zbkyyy.com/qyvoddetail/"@, id, ".html"@),
            ),
    {
        let url = page_url("https://www.zbkyyy.com/qyvoddetail/", id, ".html");
        Self::new(url.as_str())
    }

    /// The URL of the page.
    pub fn url(&self) -> (text: &str)
        ensures
            text@ == self.film().url,
    {
        self.url.as_str()
    }
}

impl FilmInfo for IJUJITV {
    closed spec fn film(&self) -> FilmView {
        FilmView {
            url: self.url@,
            name: self.name@,
            release_time: self.release_time@,
            genre: self.genre@,
            language: self.language@,
            director: self.director@,
            starring: self.starring@,
            introduction: self.introduction@,
            region: self.region@,
            sources: source_lists(self.sources@),
        }
    }

    fn name(&self) -> (text: &str) {
        self.name.as_str()
    }

    fn release_time(&self) -> (text: &str) {
        self.release_time.as_str()
    }

    fn genre(&self) -> (text: &str) {
        self.genre.as_str()
    }

    fn language(&self) -> (text: &str) {
        self.language.as_str()
    }

    fn director(&self) -> (text: &str) {
        self.director.as_str()
    }

    fn starring(&self) -> (text: &str) {
        self.starring.as_str()
    }

    fn introduction(&self) -> (text: &str) {
        self.introduction.as_str()
    }

    fn region(&self) -> (text: &str) {
        self.region.as_str()
    }

    fn sources(&self) -> (lists: &Vec<Vec<String>>) {
        &self.sources
    }
}

impl FilmInfo for ZBKYYY {
    closed spec fn film(&self) -> FilmView {
        FilmView {
            url: self.url@,
            name: self.name@,
            release_time: self.release_time@,
            genre: self.genre@,
            language: self.language@,
            director: self.director@,
            starring: self.starring@,
            introduction: self.introduction@,
            region: self.region@,
            sources: source_lists(self.sources@),
        }
    }

    fn name(&self) -> (text: &str) {
        self.name.as_str()
    }

    fn release_time(&self) -> (text: &str) {
        self.release_time.as_str()
    }

    fn genre(&self) -> (text: &str) {
        self.genre.as_str()
    }

    fn language(&self) -> (text: &str) {
        self.language.as_str()
    }

    fn director(&self) -> (text: &str) {
        self.director.as_str()
    }

    fn starring(&self) -> (text: &str) {
        self.starring.as_str()
    }

    fn introduction(&self) -> (text: &str) {
        self.introduction.as_str()
    }

    fn region(&self) -> (text: &str) {
        self.region.as_str()
    }

    fn sources(&self) -> (lists: &Vec<Vec<String>>) {
        &self.sources
    }
}

} // verus!
