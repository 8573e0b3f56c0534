//! What a resolver tells about a catalog: entries, their sources and
//! episodes, and the stream that an episode resolves to.

use crate::text::text_of;
use crate::text::{decimal, join, joined, u64_to_string, views};
use vstd::prelude::*;

verus! {

/// The kind of stream behind a resolved URI.
#[derive(Debug, Clone, Copy, PartialEq, Eq, Structural)]
pub enum URIType {
    M3U8,
    MP4,
    UNKNOWN,
}

/// A resolved stream: where it is and what kind it is.
#[derive(Debug)]
pub struct Uri {
    pub uri: String,
    pub utype: URIType,
}

/// What a [`Uri`] holds.
pub struct UriView {
    pub uri: Seq<char>,
    pub utype: URIType,
}

impl View for Uri {
    type V = UriView;

    open spec fn view(&self) -> UriView {
        UriView { uri: self.uri@, utype: self.utype }
    }
}

impl Default for Uri {
    fn default() -> (u: Self)
        ensures
            u@ == (UriView { uri: Seq::empty(), utype: URIType::UNKNOWN }),
    {
        Uri { uri: String::new(), utype: URIType::UNKNOWN }
    }
}

impl Clone for Uri {
    fn clone(&self) -> (copy: Self)
        ensures
            copy@ == self@,
    {
        Uri { uri: self.uri.clone(), utype: self.utype }
    }
}

/// One episode of a source: its label and the page that plays it.
#[derive(Debug)]
pub struct EpisodeInfo {
    pub name: String,
    pub url: String,
}

/// What an [`EpisodeInfo`] holds.
pub struct EpisodeView {
    pub name: Seq<char>,
    pub url: Seq<char>,
}

impl View for EpisodeInfo {
    type V = EpisodeView;

    open spec fn view(&self) -> EpisodeView {
        EpisodeView { name: self.name@, url: self.url@ }
    }
}

impl Default for EpisodeInfo {
    fn default() -> (e: Self)
        ensures
            e@ == (EpisodeView { name: Seq::empty(), url: Seq::empty() }),
    {
        EpisodeInfo { name: String::new(), url: String::new() }
    }
}

impl Clone for EpisodeInfo {
    fn clone(&self) -> (copy: Self)
        ensures
            copy@ == self@,
    {
        EpisodeInfo { name: self.name.clone(), url: self.url.clone() }
    }
}

/// The views of a list of episodes.
pub open spec fn episode_views(episodes: Seq<EpisodeInfo>) -> Seq<EpisodeView> {
    Seq::new(episodes.len(), |i: int| episodes[i]@)
}

/// The view of an optional list of names.
pub open spec fn names_of(names: Option<Vec<String>>) -> Option<Seq<Seq<char>>> {
    match names {
        Some(list) => Some(views(list@)),
        None => None,
    }
}

/// What a catalog says about one entry.
#[derive(Debug)]
pub struct TeleplayInfo {
    pub title: String,
    pub home_page: String,
    pub id: u64,
    pub release_time: Option<String>,
    pub language: Option<String>,
    pub times: Option<String>,
    pub director: Option<Vec<String>>,
    pub starring: Option<Vec<String>>,
    pub introduction: Option<String>,
    pub genre: Option<String>,
    pub region: Option<String>,
    pub update_time: Option<String>,
    pub score: Option<String>,
    pub plot: Option<String>,
    pub cover: Option<String>,
    pub status: Option<String>,
}

/// What a [`TeleplayInfo`] holds.
pub struct TeleplayView {
    pub title: Seq<char>,
    pub home_page: Seq<char>,
    pub id: u64,
    pub release_time: Option<Seq<char>>,
    pub language: Option<Seq<char>>,
    pub times: Option<Seq<char>>,
    pub director: Option<Seq<Seq<char>>>,
    pub starring: Option<Seq<Seq<char>>>,
    pub introduction: Option<Seq<char>>,
    pub genre: Option<Seq<char>>,
    pub region: Option<Seq<char>>,
    pub update_time: Option<Seq<char>>,
    pub score: Option<Seq<char>>,
    pub plot: Option<Seq<char>>,
    pub cover: Option<Seq<char>>,
    pub status: Option<Seq<char>>,
}

impl View for TeleplayInfo {
    type V = TeleplayView;

    open spec fn view(&self) -> TeleplayView {
        TeleplayView {
            title: self.title@,
            home_page: self.home_page@,
            id: self.id,
            release_time: text_of(self.release_time),
            language: text_of(self.language),
            times: text_of(self.times),
            director: names_of(self.director),
            starring: names_of(self.starring),
            introduction: text_of(self.introduction),
            genre: text_of(self.genre),
            region: text_of(self.region),
            update_time: text_of(self.update_time),
            score: text_of(self.score),
            plot: text_of(self.plot),
            cover: text_of(self.cover),
            status: text_of(self.status),
        }
    }
}

impl TeleplayView {
    /// An entry of which nothing is known.
    pub open spec fn blank() -> TeleplayView {
        TeleplayView {
            title: Seq::empty(),
            home_page: Seq::empty(),
            id: 0,
            release_time: None,
            language: None,
            times: None,
            director: None,
            starring: None,
            introduction: None,
            genre: None,
            region: None,
            update_time: None,
            score: None,
            plot: None,
            cover: None,
            status: None,
        }
    }

    /// The first two lines of the listing: the identifier, then the title
    /// with the status in brackets where one is known.
    pub open spec fn heading(self) -> Seq<char> {
        "|影片ID:"@ + decimal(self.id as nat) + "\n"@ + "|影片名称:"@ + self.title + match self.status {
            Some(status) => "["@ + status + "]\n"@,
            None => "\n"@,
        }
    }

    /// The line of the listing that names directors, year and language, each
    /// part only where it is known.
    pub open spec fn credits(self) -> Seq<char> {
        (match self.director {
            Some(names) => "|导演:"@ + joined(names, ","@) + " "@,
            None => Seq::empty(),
        }) + (match self.times {
            Some(times) => "年代:"@ + times + " "@,
            None => Seq::empty(),
        }) + (match self.language {
            Some(language) => "语言:"@ + language + "\n"@,
            None => Seq::empty(),
        })
    }

    /// The end of the listing: the cast and the introduction, each only
    /// where it is known.
    pub open spec fn story(self) -> Seq<char> {
        (match self.starring {
            Some(names) => "|演员:"@ + joined(names, "/"@) + "\n"@,
            None => Seq::empty(),
        }) + (match self.introduction {
            Some(text) => "|简介:"@ + text,
            None => Seq::empty(),
        })
    }

    /// The listing of the entry as a search shows it.
    pub open spec fn text(self) -> Seq<char> {
        self.heading() + self.credits() + self.story()
    }
}

fn copy_text(value: &Option<String>) -> (copy: Option<String>)
    ensures
        text_of(copy) == text_of(*value),
{
    match value {
        Some(text) => Some(text.clone()),
        None => None,
    }
}

fn copy_names(value: &Option<Vec<String>>) -> (copy: Option<Vec<String>>)
    ensures
        names_of(copy) == names_of(*value),
{
    match value {
        Some(names) => {
            let mut copy: Vec<String> = Vec::new();
            let mut i: usize = 0;
            while i < names.len()
                invariant
                    i <= names.len(),
                    copy.len() == i,
                    forall|k: int| 0 <= k < i ==> (#[trigger] copy@[k])@ == names@[k]@,
                decreases names.len() - i,
            {
                copy.push(names[i].clone());
                i += 1;
            }
            assert(views(copy@) =~= views(names@));
            Some(copy)
        },
        None => None,
    }
}

impl Default for TeleplayInfo {
    fn default() -> (info: Self)
        ensures
            info@ == TeleplayView::blank(),
    {
        TeleplayInfo {
            title: String::new(),
            home_page: String::new(),
            id: 0u64,
            release_time: None,
            language: None,
            times: None,
            director: None,
            starring: None,
            introduction: None,
            genre: None,
            region: None,
            update_time: None,
            score: None,
            plot: None,
            cover: None,
            status: None,
        }
    }
}

impl Clone for TeleplayInfo {
    fn clone(&self) -> (copy: Self)
        ensures
            copy@ == self@,
    {
        TeleplayInfo {
            title: self.title.clone(),
            home_page: self.home_page.clone(),
            id: self.id,
            release_time: copy_text(&self.release_time),
            language: copy_text(&self.language),
            times: copy_text(&self.times),
            director: copy_names(&self.director),
            starring: copy_names(&self.starring),
            introduction: copy_text(&self.introduction),
            genre: copy_text(&self.genre),
            region: copy_text(&self.region),
            update_time: copy_text(&self.update_time),
            score: copy_text(&self.score),
            plot: copy_text(&self.plot),
            cover: copy_text(&self.cover),
            status: copy_text(&self.status),
        }
    }
}

/// Appends `label`, `value` and `end` to `out`.
fn append_part(out: &mut String, label: &str, value: &str, end: &str)
    ensures
        final(out)@ == old(out)@ + (label@ + value@ + end@),
{
    out.append(label);
    out.append(value);
    out.append(end);
    assert(final(out)@ =~= old(out)@ + (label@ + value@ + end@));
}

impl TeleplayInfo {
    fn heading(&self) -> (s: String)
        ensures
            s@ == self@.heading(),
    {
        let mut s = String::from_str("|影片ID:");
        let id = u64_to_string(self.id);
        append_part(&mut s, id.as_str(), "\n", "|影片名称:");
        match &self.status {
            Some(status) => {
                append_part(&mut s, self.title.as_str(), "[", status.as_str());
                s.append("]\n");
                assert(s@ =~= self@.heading());
            },
            None => {
                s.append(self.title.as_str());
                s.append("\n");
                assert(s@ =~= self@.heading());
            },
        }
        s
    }

    fn credits(&self) -> (s: String)
        ensures
            s@ == self@.credits(),
    {
        let mut s = String::new();
        if let Some(names) = &self.director {
            let list = join(names, ",");
            append_part(&mut s, "|导演:", list.as_str(), " ");
        }
        if let Some(times) = &self.times {
            append_part(&mut s, "年代:", times.as_str(), " ");
        }
        if let Some(language) = &self.language {
            append_part(&mut s, "语言:", language.as_str(), "\n");
        }
        assert(s@ =~= self@.credits());
        s
    }

    fn story(&self) -> (s: String)
        ensures
            s@ == self@.story(),
    {
        let mut s = String::new();
        if let Some(names) = &self.starring {
            let list = join(names, "/");
            append_part(&mut s, "|演员:", list.as_str(), "\n");
        }
        if let Some(text) = &self.introduction {
            s.append("|简介:");
            s.append(text.as_str());
        }
        assert(s@ =~= self@.story());
        s
    }

    /// The listing of the entry as a search shows it: identifier and title,
    /// then directors, year, language, cast and introduction as far as they
    /// are known.
    pub fn fmt(&self) -> (s: String)
        ensures
            s@ == self@.text(),
    {
        let mut s = self.heading();
        let credits = self.credits();
        let story = self.story();
        s.append(credits.as_str());
        s.append(story.as_str());
        s
    }
}

/// One source of an entry: its label and its episodes.
#[derive(Debug)]
pub struct TeleplaySrc {
    pub name: Option<String>,
    pub episodes: Vec<EpisodeInfo>,
}

/// What a [`TeleplaySrc`] holds.
pub struct SourceView {
    pub name: Option<Seq<char>>,
    pub episodes: Seq<EpisodeView>,
}

impl View for TeleplaySrc {
    type V = SourceView;

    open spec fn view(&self) -> SourceView {
        SourceView { name: text_of(self.name), episodes: episode_views(self.episodes@) }
    }
}

impl TeleplaySrc {
    /// A source without label and episodes.
    pub fn new() -> (source: Self)
        ensures
            source@ == (SourceView { name: None, episodes: Seq::empty() }),
    {
        let source = TeleplaySrc { name: None, episodes: Vec::new() };
        assert(source@.episodes =~= Seq::empty());
        source
    }

    /// Sets the label of the source.
    pub fn set_name(&mut self, name: &str) -> (source: &mut Self)
        ensures
            source@ == (SourceView { name: Some(name@), ..old(self)@ }),
            *final(self) == *final(source),
    {
        self.name = Some(String::from_str(name));
        self
    }

    /// Adds an episode behind those that the source has.
    pub fn append_episode(&mut self, episode: EpisodeInfo) -> (source: &mut Self)
        ensures
            source@ == (SourceView {
                episodes: old(self)@.episodes.push(episode@),
                ..old(self)@
            }),
            *final(self) == *final(source),
    {
        self.episodes.push(episode);
        assert(self@.episodes =~= old(self)@.episodes.push(episode@));
        self
    }
}

/// Where a catalog lives and how it is searched.
#[derive(Debug)]
pub struct ResourceInfo {
    pub host: String,
    pub name: String,
    pub search_path: String,
    pub search_key: String,
}

/// What a [`ResourceInfo`] holds.
pub struct ResourceView {
    pub host: Seq<char>,
    pub name: Seq<char>,
    pub search_path: Seq<char>,
    pub search_key: Seq<char>,
}

impl View for ResourceInfo {
    type V = ResourceView;

    open spec fn view(&self) -> ResourceView {
        ResourceView {
            host: self.host@,
            name: self.name@,
            search_path: self.search_path@,
            search_key: self.search_key@,
        }
    }
}

impl Default for ResourceInfo {
    fn default() -> (info: Self)
        ensures
            info@ == (ResourceView {
                host: Seq::empty(),
                name: Seq::empty(),
                search_path: Seq::empty(),
                search_key: Seq::empty(),
            }),
    {
        ResourceInfo {
            host: String::new(),
            name: String::new(),
            search_path: String::new(),
            search_key: String::new(),
        }
    }
}

impl Clone for ResourceInfo {
    fn clone(&self) -> (copy: Self)
        ensures
            copy@ == self@,
    {
        ResourceInfo {
            host: self.host.clone(),
            name: self.name.clone(),
            search_path: self.search_path.clone(),
            search_key: self.search_key.clone(),
        }
    }
}

} // verus!
