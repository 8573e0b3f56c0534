//! The resolver pipeline: fetch a page through the response cache, hand it
//! to the parser of the site, and turn what the parser found into absolute
//! references.

use crate::catalog::{
    EpisodeInfo, EpisodeView, ResourceInfo, ResourceView, TeleplayInfo, TeleplaySrc, TeleplayView,
    Uri, UriView,
};
use crate::error::Error;
use crate::locator;
use crate::locator::{url_joined, url_with_pair, url_with_path};
use crate::request::RESOURCE_CACHE_TIME;
use crate::text::text_view;
use std::sync::Arc;
use vstd::prelude::*;

verus! {

/// The HTTP client as the pipeline sees it. `request` fetches the body of a
/// URL; `request_with_cache` does so through the response cache, serving a
/// cached body that is younger than `cache_time` nanoseconds.
pub trait Request {
    fn request(&self, url: &str) -> Result<String, Error>;

    fn request_with_cache(&self, url: &str, cache_time: u128) -> Result<String, Error>;
}

/// Finds the stream in the page of an episode. `html` is the body of the
/// page and `org_url` the URL it was fetched from.
pub trait EpisodeParse {
    fn parse<R: Request>(&self, html: &str, org_url: &str, requestor: &Arc<R>) -> Result<
        Uri,
        Error,
    >;
}

/// Finds the sources and episodes in the page of an entry, and fills in what
/// the page tells about the entry. `html` is the body of the page and
/// `org_url` the URL it was fetched from.
pub trait TeleplayParse {
    fn parse<R: Request>(
        &self,
        html: &str,
        org_url: &str,
        teleplay_info: &mut TeleplayInfo,
        requestor: &Arc<R>,
    ) -> Result<Vec<TeleplaySrc>, Error>;
}

/// Finds the entries in the page of a search. `html` is the body of the page
/// and `org_url` the URL it was fetched from.
pub trait ResourceParse {
    fn parse<R: Request>(&self, html: &str, org_url: &str, requestor: &Arc<R>) -> Result<
        Vec<TeleplayInfo>,
        Error,
    >;
}

/// Knows where a site lives and where the page of an entry is:
/// `generate_resource_info` describes the site, `generate_teleplay_info`
/// says what the site knows of an entry before its page is fetched.
pub trait GenerateInfo {
    fn generate_resource_info(&self) -> ResourceInfo;

    fn generate_teleplay_info(&self, id: u64) -> TeleplayInfo;
}

/// One episode that can be resolved to its stream.
pub trait Episode<R: Request, P: EpisodeParse>: Sized {
    /// What the episode is known by.
    spec fn info(&self) -> EpisodeView;

    /// The stream that the episode was resolved to last.
    spec fn resolved(&self) -> UriView;

    fn new(info: EpisodeInfo, requester: Arc<R>, parser: Arc<P>) -> (episode: Self)
        ensures
            episode.info() == info@,
            episode.resolved() == (UriView { uri: Seq::empty(), utype: crate::catalog::URIType::UNKNOWN }),
    ;

    fn name(&self) -> (name: &str)
        ensures
            name@ == self.info().name,
    ;

    fn url(&self) -> (url: &str)
        ensures
            url@ == self.info().url,
    ;

    fn uri(&self) -> (uri: Uri)
        ensures
            uri@ == self.resolved(),
    ;

    fn request(&mut self) -> (r: Result<Uri, Error>)
        ensures
            final(self).info() == old(self).info(),
            r matches Ok(uri) ==> final(self).resolved() == uri@,
            r is Err ==> final(self).resolved() == old(self).resolved(),
    ;
}

/// An episode that is resolved by fetching its page and parsing it.
pub struct BaseEpisode<R: Request, P: EpisodeParse> {
    info: EpisodeInfo,
    uri: Uri,
    requestor: Arc<R>,
    parser: Arc<P>,
}

impl<R: Request, P: EpisodeParse> Episode<R, P> for BaseEpisode<R, P> {
    closed spec fn info(&self) -> EpisodeView {
        self.info@
    }

    closed spec fn resolved(&self) -> UriView {
        self.uri@
    }

    fn new(info: EpisodeInfo, requestor: Arc<R>, parser: Arc<P>) -> (episode: Self) {
        BaseEpisode { info, uri: Uri::default(), requestor, parser }
    }

    fn name(&self) -> (name: &str) {
        self.info.name.as_str()
    }

    fn url(&self) -> (url: &str) {
        self.info.url.as_str()
    }

    fn uri(&self) -> (uri: Uri) {
        self.uri.clone()
    }

    /// Fetches the page of the episode through the cache and has the parser
    /// find the stream in it. The stream is kept and returned; on an error of
    /// either step the episode stays as it was.
    fn request(&mut self) -> (r: Result<Uri, Error>) {
        let body = match self.requestor.request_with_cache(
            self.info.url.as_str(),
            RESOURCE_CACHE_TIME,
        ) {
            Ok(body) => body,
            Err(e) => {
                return Err(e);
            },
        };
        match self.parser.parse(body.as_str(), self.info.url.as_str(), &self.requestor) {
            Ok(uri) => {
                self.uri = uri;
                Ok(self.uri.clone())
            },
            Err(e) => Err(e),
        }
    }
}

/// `Arc::clone`: another handle to the same value.
#[verifier::external_body]
pub(crate) fn share<T>(handle: &Arc<T>) -> (other: Arc<T>)
    ensures
        other == *handle,
{
    handle.clone()
}

/// An episode with its page made absolute: the path of `home` replaced by
/// the reference that the entry's page gave. `None` where `home` is no URL.
pub open spec fn episode_at(home: Seq<char>, episode: EpisodeView) -> Option<EpisodeView> {
    match url_with_path(home, episode.url) {
        Some(url) => Some(EpisodeView { name: episode.name, url }),
        None => None,
    }
}

/// Whether the page of every episode can be made absolute.
pub open spec fn episodes_resolve(home: Seq<char>, episodes: Seq<EpisodeView>) -> bool {
    forall|i: int| 0 <= i < episodes.len() ==> episode_at(home, #[trigger] episodes[i]) is Some
}

/// The episodes with their pages made absolute.
pub open spec fn episodes_at(home: Seq<char>, episodes: Seq<EpisodeView>) -> Seq<EpisodeView> {
    Seq::new(episodes.len(), |i: int| episode_at(home, episodes[i])->0)
}

/// What the episodes of a list are known by.
pub open spec fn infos_of<R: Request, P: EpisodeParse, E: Episode<R, P>>(episodes: Seq<E>) -> Seq<
    EpisodeView,
> {
    Seq::new(episodes.len(), |i: int| episodes[i].info())
}

/// A source of an entry as the pipeline keeps it: its label and what its
/// episodes are known by.
pub struct SourceListing {
    pub name: Option<Seq<char>>,
    pub episodes: Seq<EpisodeView>,
}

/// What the sources of a list hold.
pub open spec fn listings_of<R: Request, P: EpisodeParse, E: Episode<R, P>>(
    sources: Seq<(Option<String>, Vec<E>)>,
) -> Seq<SourceListing> {
    Seq::new(
        sources.len(),
        |i: int|
            SourceListing {
                name: crate::text::text_of(sources[i].0),
                episodes: infos_of::<R, P, E>(sources[i].1@),
            },
    )
}

/// Whether there is an episode at `episode` in the source at `source`.
pub open spec fn has_episode(listings: Seq<SourceListing>, source: int, episode: int) -> bool {
    0 <= source < listings.len() && 0 <= episode < listings[source].episodes.len()
}

/// Whether the pages of all episodes of all sources can be made absolute.
pub open spec fn sources_resolve(home: Seq<char>, sources: Seq<crate::catalog::SourceView>) -> bool {
    forall|i: int| 0 <= i < sources.len() ==> episodes_resolve(home, (#[trigger] sources[i]).episodes)
}

/// The sources with the pages of their episodes made absolute.
pub open spec fn sources_at(home: Seq<char>, sources: Seq<crate::catalog::SourceView>) -> Seq<
    SourceListing,
> {
    Seq::new(
        sources.len(),
        |i: int|
            SourceListing {
                name: sources[i].name,
                episodes: episodes_at(home, sources[i].episodes),
            },
    )
}

/// Whether the sources `found` were taken over behind those known
/// `before`: the page of every episode of theirs can be made absolute
/// against `home`, and `after` holds the sources known before and, behind
/// them, those found, with the pages of their episodes made absolute.
pub open spec fn took_over(
    home: Seq<char>,
    before: Seq<SourceListing>,
    after: Seq<SourceListing>,
    found: Seq<crate::catalog::SourceView>,
) -> bool {
    sources_resolve(home, found) && after == before + sources_at(home, found)
}

/// The views of a list of sources.
pub open spec fn source_views(sources: Seq<TeleplaySrc>) -> Seq<crate::catalog::SourceView> {
    Seq::new(sources.len(), |i: int| sources[i]@)
}

/// The view of an optional list of names.
pub open spec fn names_view(names: Option<&Vec<String>>) -> Option<Seq<Seq<char>>> {
    match names {
        Some(list) => Some(crate::text::views(list@)),
        None => None,
    }
}

fn as_text(value: &Option<String>) -> (text: Option<&str>)
    ensures
        text_view(text) == crate::text::text_of(*value),
{
    match value {
        Some(t) => Some(t.as_str()),
        None => None,
    }
}

/// An entry of a catalog whose sources and episodes can be looked up.
pub trait Teleplay<R: Request, P: TeleplayParse, EP: EpisodeParse>: Sized {
    type EpisodeType: Episode<R, EP>;

    /// What is known about the entry.
    spec fn entry(&self) -> TeleplayView;

    /// The sources found so far.
    spec fn listings(&self) -> Seq<SourceListing>;

    fn new(info: TeleplayInfo, requester: Arc<R>, parser: Arc<P>, eparser: Arc<EP>) -> (teleplay:
        Self)
        ensures
            teleplay.entry() == info@,
            teleplay.listings() == Seq::<SourceListing>::empty(),
    ;

    fn title(&self) -> (title: &str)
        ensures
            title@ == self.entry().title,
    ;

    fn home_page(&self) -> (page: &str)
        ensures
            page@ == self.entry().home_page,
    ;

    fn id(&self) -> (id: u64)
        ensures
            id == self.entry().id,
    ;

    fn release_time(&self) -> (text: Option<&str>)
        ensures
            text_view(text) == self.entry().release_time,
    ;

    fn language(&self) -> (text: Option<&str>)
        ensures
            text_view(text) == self.entry().language,
    ;

    fn times(&self) -> (text: Option<&str>)
        ensures
            text_view(text) == self.entry().times,
    ;

    fn director(&self) -> (names: Option<&Vec<String>>)
        ensures
            names_view(names) == self.entry().director,
    ;

    fn starring(&self) -> (names: Option<&Vec<String>>)
        ensures
            names_view(names) == self.entry().starring,
    ;

    fn introduction(&self) -> (text: Option<&str>)
        ensures
            text_view(text) == self.entry().introduction,
    ;

    fn genre(&self) -> (text: Option<&str>)
        ensures
            text_view(text) == self.entry().genre,
    ;

    fn region(&self) -> (text: Option<&str>)
        ensures
            text_view(text) == self.entry().region,
    ;

    fn update_time(&self) -> (text: Option<&str>)
        ensures
            text_view(text) == self.entry().update_time,
    ;

    fn score(&self) -> (text: Option<&str>)
        ensures
            text_view(text) == self.entry().score,
    ;

    fn plot(&self) -> (text: Option<&str>)
        ensures
            text_view(text) == self.entry().plot,
    ;

    fn cover(&self) -> (text: Option<&str>)
        ensures
            text_view(text) == self.entry().cover,
    ;

    fn status(&self) -> (text: Option<&str>)
        ensures
            text_view(text) == self.entry().status,
    ;

    fn info(&self) -> (info: &TeleplayInfo)
        ensures
            info@ == self.entry(),
    ;

    fn episodes(&self) -> (sources: &Vec<(Option<String>, Vec<Self::EpisodeType>)>)
        ensures
            listings_of::<R, EP, Self::EpisodeType>(sources@) == self.listings(),
    ;

    fn request(&mut self) -> (r: Result<(), Error>)
        ensures
            r is Err ==> final(self).listings() == old(self).listings(),
            old(self).listings().is_prefix_of(final(self).listings()),
    ;
}

/// An entry that is looked up by fetching its page and parsing it.
pub struct BaseTeleplay<R: Request, P: TeleplayParse, EP: EpisodeParse, E: Episode<R, EP>> {
    info: TeleplayInfo,
    requestor: Arc<R>,
    parser: Arc<P>,
    eparser: Arc<EP>,
    episodes: Vec<(Option<String>, Vec<E>)>,
}

impl<R: Request, P: TeleplayParse, EP: EpisodeParse, E: Episode<R, EP>> BaseTeleplay<R, P, EP, E> {
    /// The episodes of one source with their pages made absolute against
    /// `home`. Fails with `ParseError` where a page cannot be made absolute.
    fn adopt_episodes(&self, home: &str, episodes: Vec<EpisodeInfo>) -> (r: Result<Vec<E>, Error>)
        ensures
            episodes_resolve(home@, crate::catalog::episode_views(episodes@)) ==> (r matches Ok(
                list,
            ) && infos_of::<R, EP, E>(list@) == episodes_at(
                home@,
                crate::catalog::episode_views(episodes@),
            )),
            !episodes_resolve(home@, crate::catalog::episode_views(episodes@)) ==> r matches Err(
                Error::ParseError(_),
            ),
    {
        let ghost given = crate::catalog::episode_views(episodes@);
        let mut list: Vec<E> = Vec::new();
        let mut i: usize = 0;
        while i < episodes.len()
            invariant
                i <= episodes.len(),
                given == crate::catalog::episode_views(episodes@),
                list.len() == i,
                forall|k: int| 0 <= k < i ==> episode_at(home@, #[trigger] given[k]) is Some,
                forall|k: int|
                    0 <= k < i ==> (#[trigger] list@[k]).info() == episode_at(home@, given[k])->0,
            decreases episodes.len() - i,
        {
            assert(given[i as int] == episodes@[i as int]@);
            let url = match locator::with_path(home, episodes[i].url.as_str()) {
                Ok(url) => url,
                Err(_) => {
                    return Err(
                        Error::ParseError(String::from_str("Failed to resolve episode url")),
                    );
                },
            };
            let info = EpisodeInfo { name: episodes[i].name.clone(), url };
            list.push(E::new(info, share(&self.requestor), share(&self.eparser)));
            i += 1;
        }
        assert(infos_of::<R, EP, E>(list@) =~= episodes_at(home@, given));
        Ok(list)
    }

    /// Resolves one episode: the episode at `episode` in the source at
    /// `source`. Fails with `ParseError` where there is no such episode, and
    /// with the error of the episode where it cannot be resolved. What the
    /// sources and episodes are known by stays as it is.
    pub fn request_episode(&mut self, source: usize, episode: usize) -> (r: Result<Uri, Error>)
        ensures
            final(self).entry() == old(self).entry(),
            final(self).listings() == old(self).listings(),
            !has_episode(old(self).listings(), source as int, episode as int) ==> r matches Err(
                Error::ParseError(_),
            ),
    {
        if source >= self.episodes.len() {
            return Err(Error::ParseError(String::from_str("No such episode")));
        }
        if episode >= self.episodes[source].1.len() {
            assert(self.listings()[source as int].episodes.len() == self.episodes@[source as int].1@.len());
            return Err(Error::ParseError(String::from_str("No such episode")));
        }
        let ghost before = self.episodes@;
        let ghost known = listings_of::<R, EP, E>(before);
        let result = self.episodes[source].1[episode].request();
        proof {
            let after = self.episodes@;
            let now = listings_of::<R, EP, E>(after);
            assert(now.len() == known.len());
            assert forall|i: int| 0 <= i < now.len() implies now[i] == known[i] by {
                if i == source as int {
                    let a = infos_of::<R, EP, E>(after[i].1@);
                    let b = infos_of::<R, EP, E>(before[i].1@);
                    assert(a.len() == b.len());
                    assert forall|k: int| 0 <= k < a.len() implies a[k] == b[k] by {}
                    assert(a =~= b);
                }
            }
            assert(now =~= known);
        }
        result
    }

    /// Takes over the sources that the parser found in the page of the
    /// entry: the page of every episode is made absolute against `home`, and
    /// the sources are added behind those already known. Fails with
    /// `ParseError`, and changes nothing, where a page cannot be made
    /// absolute.
    pub fn adopt(&mut self, home: &str, sources: Vec<TeleplaySrc>) -> (r: Result<(), Error>)
        ensures
            final(self).entry() == old(self).entry(),
            sources_resolve(home@, source_views(sources@)) ==> (r is Ok && final(self).listings()
                == old(self).listings() + sources_at(home@, source_views(sources@))),
            !sources_resolve(home@, source_views(sources@)) ==> (r matches Err(
                Error::ParseError(_),
            ) && final(self).listings() == old(self).listings()),
    {
        let ghost given = source_views(sources@);
        let mut found: Vec<(Option<String>, Vec<E>)> = Vec::new();
        let mut i: usize = 0;
        while i < sources.len()
            invariant
                i <= sources.len(),
                given == source_views(sources@),
                *self == *old(self),
                found.len() == i,
                forall|k: int|
                    0 <= k < i ==> episodes_resolve(home@, (#[trigger] given[k]).episodes),
                listings_of::<R, EP, E>(found@) == sources_at(home@, given).subrange(0, i as int),
            decreases sources.len() - i,
        {
            assert(given[i as int] == sources@[i as int]@);
            let name = match &sources[i].name {
                Some(name) => Some(name.clone()),
                None => None,
            };
            let episodes = copy_episodes(&sources[i].episodes);
            let list = match self.adopt_episodes(home, episodes) {
                Ok(list) => list,
                Err(e) => {
                    assert(!episodes_resolve(home@, given[i as int].episodes));
                    return Err(e);
                },
            };
            let ghost before = listings_of::<R, EP, E>(found@);
            found.push((name, list));
            proof {
                let after = listings_of::<R, EP, E>(found@);
                let target = sources_at(home@, given).subrange(0, i + 1);
                assert(after.len() == target.len());
                assert forall|k: int| 0 <= k < after.len() implies after[k] == target[k] by {
                    if k < i {
                        assert(after[k] == before[k]);
                    }
                }
                assert(after =~= target);
            }
            i += 1;
        }
        let ghost known = listings_of::<R, EP, E>(self.episodes@);
        let ghost added = listings_of::<R, EP, E>(found@);
        assert(added =~= sources_at(home@, given));
        self.episodes.append(&mut found);
        assert(listings_of::<R, EP, E>(self.episodes@) =~= known + added);
        Ok(())
    }
}

fn copy_episodes(episodes: &Vec<EpisodeInfo>) -> (copy: Vec<EpisodeInfo>)
    ensures
        crate::catalog::episode_views(copy@) == crate::catalog::episode_views(episodes@),
{
    let mut copy: Vec<EpisodeInfo> = Vec::new();
    let mut i: usize = 0;
    while i < episodes.len()
        invariant
            i <= episodes.len(),
            copy.len() == i,
            forall|k: int| 0 <= k < i ==> (#[trigger] copy@[k])@ == episodes@[k]@,
        decreases episodes.len() - i,
    {
        copy.push(episodes[i].clone());
        i += 1;
    }
    assert(crate::catalog::episode_views(copy@) =~= crate::catalog::episode_views(episodes@));
    copy
}

impl<R: Request, P: TeleplayParse, EP: EpisodeParse, E: Episode<R, EP>> Teleplay<
    R,
    P,
    EP,
> for BaseTeleplay<R, P, EP, E> {
    type EpisodeType = E;

    closed spec fn entry(&self) -> TeleplayView {
        self.info@
    }

    closed spec fn listings(&self) -> Seq<SourceListing> {
        listings_of::<R, EP, E>(self.episodes@)
    }

    fn new(info: TeleplayInfo, requestor: Arc<R>, parser: Arc<P>, eparser: Arc<EP>) -> (teleplay:
        Self) {
        let teleplay = BaseTeleplay { info, requestor, parser, eparser, episodes: Vec::new() };
        assert(teleplay.listings() =~= Seq::<SourceListing>::empty());
        teleplay
    }

    fn title(&self) -> (title: &str) {
        self.info.title.as_str()
    }

    fn home_page(&self) -> (page: &str) {
        self.info.home_page.as_str()
    }

    fn id(&self) -> (id: u64) {
        self.info.id
    }

    fn release_time(&self) -> (text: Option<&str>) {
        as_text(&self.info.release_time)
    }

    fn language(&self) -> (text: Option<&str>) {
        as_text(&self.info.language)
    }

    fn times(&self) -> (text: Option<&str>) {
        as_text(&self.info.times)
    }

    fn introduction(&self) -> (text: Option<&str>) {
        as_text(&self.info.introduction)
    }

    fn genre(&self) -> (text: Option<&str>) {
        as_text(&self.info.genre)
    }

    fn region(&self) -> (text: Option<&str>) {
        as_text(&self.info.region)
    }

    fn update_time(&self) -> (text: Option<&str>) {
        as_text(&self.info.update_time)
    }

    fn score(&self) -> (text: Option<&str>) {
        as_text(&self.info.score)
    }

    fn plot(&self) -> (text: Option<&str>) {
        as_text(&self.info.plot)
    }

    fn cover(&self) -> (text: Option<&str>) {
        as_text(&self.info.cover)
    }

    fn status(&self) -> (text: Option<&str>) {
        as_text(&self.info.status)
    }

    fn director(&self) -> (names: Option<&Vec<String>>) {
        self.info.director.as_ref()
    }

    fn starring(&self) -> (names: Option<&Vec<String>>) {
        self.info.starring.as_ref()
    }

    fn info(&self) -> (info: &TeleplayInfo) {
        &self.info
    }

    fn episodes(&self) -> (sources: &Vec<(Option<String>, Vec<E>)>) {
        &self.episodes
    }

    /// Fetches the page of the entry through the cache, has the parser fill
    /// in what the page tells and find the sources, and takes the sources
    /// over with the pages of their episodes made absolute against the page
    /// of the entry as it was before parsing. On success the sources that
    /// were found stand behind those known before, in the order in which
    /// they were found, and the page of every episode could be made absolute.
    fn request(&mut self) -> (r: Result<(), Error>)
        ensures
            r is Ok ==> exists|found: Seq<crate::catalog::SourceView>|
                took_over(
                    old(self).entry().home_page,
                    old(self).listings(),
                    final(self).listings(),
                    found,
                ),
    {
        let body = match self.requestor.request_with_cache(
            self.info.home_page.as_str(),
            RESOURCE_CACHE_TIME,
        ) {
            Ok(body) => body,
            Err(e) => {
                return Err(e);
            },
        };
        let home = self.info.home_page.clone();
        let sources = match self.parser.parse(
            body.as_str(),
            home.as_str(),
            &mut self.info,
            &self.requestor,
        ) {
            Ok(sources) => sources,
            Err(e) => {
                return Err(e);
            },
        };
        let ghost found = source_views(sources@);
        let r = self.adopt(home.as_str(), sources);
        proof {
            if r is Ok {
                assert(took_over(
                    old(self).entry().home_page,
                    old(self).listings(),
                    self.listings(),
                    found,
                ));
            }
        }
        r
    }
}

/// The page of a search for `keyword` on a site: the search path resolved
/// against the host, with the keyword appended to the query under the
/// site's search key. `None` where the host is no URL.
pub open spec fn search_page(site: ResourceView, keyword: Seq<char>) -> Option<Seq<char>> {
    match url_joined(site.host, site.search_path) {
        Some(page) => url_with_pair(page, site.search_key, keyword),
        None => None,
    }
}

/// An entry with its page made absolute: the path of `host` replaced by the
/// reference that the search page gave. `None` where `host` is no URL.
pub open spec fn entry_at(host: Seq<char>, entry: TeleplayView) -> Option<TeleplayView> {
    match url_with_path(host, entry.home_page) {
        Some(page) => Some(TeleplayView { home_page: page, ..entry }),
        None => None,
    }
}

/// Whether the page of every entry can be made absolute.
pub open spec fn entries_resolve(host: Seq<char>, entries: Seq<TeleplayView>) -> bool {
    forall|i: int| 0 <= i < entries.len() ==> entry_at(host, #[trigger] entries[i]) is Some
}

/// The entries with their pages made absolute.
pub open spec fn entries_at(host: Seq<char>, entries: Seq<TeleplayView>) -> Seq<TeleplayView> {
    Seq::new(entries.len(), |i: int| entry_at(host, entries[i])->0)
}

/// The views of a list of entries.
pub open spec fn entry_views(entries: Seq<TeleplayInfo>) -> Seq<TeleplayView> {
    Seq::new(entries.len(), |i: int| entries[i]@)
}

/// What the entries of a list are known by.
pub open spec fn entries_of<R: Request, P: TeleplayParse, EP: EpisodeParse, W: Teleplay<R, P, EP>>(
    teleplays: Seq<W>,
) -> Seq<TeleplayView> {
    Seq::new(teleplays.len(), |i: int| teleplays[i].entry())
}

/// A catalog that can be searched.
pub trait Resource<R: Request, P: ResourceParse, WP: TeleplayParse, EP: EpisodeParse>: Sized {
    type TeleplayType: Teleplay<R, WP, EP>;

    /// Where the catalog lives and how it is searched.
    spec fn site(&self) -> ResourceView;

    /// The entries found so far.
    spec fn entries(&self) -> Seq<TeleplayView>;

    fn new(
        info: ResourceInfo,
        requestor: Arc<R>,
        parser: Arc<P>,
        wparser: Arc<WP>,
        eparser: Arc<EP>,
    ) -> (resource: Self)
        ensures
            resource.site() == info@,
            resource.entries() == Seq::<TeleplayView>::empty(),
    ;

    fn host(&self) -> (host: &str)
        ensures
            host@ == self.site().host,
    ;

    fn name(&self) -> (name: &str)
        ensures
            name@ == self.site().name,
    ;

    fn teleplays(&self) -> (teleplays: &Vec<Self::TeleplayType>)
        ensures
            entries_of::<R, WP, EP, Self::TeleplayType>(teleplays@) == self.entries(),
    ;

    fn search(&mut self, keyword: &str) -> (r: Result<(), Error>)
        ensures
            final(self).site() == old(self).site(),
            r is Err ==> final(self).entries() == old(self).entries(),
            old(self).entries().is_prefix_of(final(self).entries()),
            search_page(old(self).site(), keyword@) is None ==> r matches Err(Error::ParseError(_)),
    ;
}

/// A catalog that is searched by fetching its search page and parsing it.
pub struct BaseResource<
    R: Request,
    P: ResourceParse,
    WP: TeleplayParse,
    EP: EpisodeParse,
    W: Teleplay<R, WP, EP>,
> {
    info: ResourceInfo,
    teleplays: Vec<W>,
    requestor: Arc<R>,
    parser: Arc<P>,
    wparser: Arc<WP>,
    eparser: Arc<EP>,
}

impl<
    R: Request,
    P: ResourceParse,
    WP: TeleplayParse,
    EP: EpisodeParse,
    W: Teleplay<R, WP, EP>,
> BaseResource<R, P, WP, EP, W> {
    /// The page of a search for `keyword`. Fails with `ParseError` where the
    /// host of the site is no URL.
    pub fn search_url(&self, keyword: &str) -> (r: Result<String, Error>)
        ensures
            match search_page(self.site(), keyword@) {
                Some(page) => r matches Ok(url) && url@ == page,
                None => r matches Err(Error::ParseError(_)),
            },
    {
        let page = match locator::join(self.info.host.as_str(), self.info.search_path.as_str()) {
            Ok(page) => page,
            Err(_) => {
                return Err(Error::ParseError(String::from_str("Failed to resolve search url")));
            },
        };
        match locator::with_pair(page.as_str(), self.info.search_key.as_str(), keyword) {
            Ok(url) => Ok(url),
            Err(_) => Err(Error::ParseError(String::from_str("Failed to resolve search url"))),
        }
    }

    /// Takes over the entries that the parser found in a search page: the
    /// page of every entry is made absolute against the host of the site,
    /// and the entries are added behind those already known. Fails with
    /// `ParseError`, and changes nothing, where a page cannot be made
    /// absolute.
    pub fn adopt(&mut self, entries: Vec<TeleplayInfo>) -> (r: Result<(), Error>)
        ensures
            final(self).site() == old(self).site(),
            entries_resolve(old(self).site().host, entry_views(entries@)) ==> (r is Ok
                && final(self).entries() == old(self).entries() + entries_at(
                old(self).site().host,
                entry_views(entries@),
            )),
            !entries_resolve(old(self).site().host, entry_views(entries@)) ==> (r matches Err(
                Error::ParseError(_),
            ) && final(self).entries() == old(self).entries()),
    {
        let ghost given = entry_views(entries@);
        let ghost host = self.info.host@;
        let mut found: Vec<W> = Vec::new();
        let mut i: usize = 0;
        while i < entries.len()
            invariant
                i <= entries.len(),
                given == entry_views(entries@),
                host == self.info.host@,
                *self == *old(self),
                found.len() == i,
                forall|k: int| 0 <= k < i ==> entry_at(host, #[trigger] given[k]) is Some,
                forall|k: int|
                    0 <= k < i ==> (#[trigger] found@[k]).entry() == entry_at(host, given[k])->0,
            decreases entries.len() - i,
        {
            assert(given[i as int] == entries@[i as int]@);
            let page = match locator::with_path(
                self.info.host.as_str(),
                entries[i].home_page.as_str(),
            ) {
                Ok(page) => page,
                Err(_) => {
                    return Err(
                        Error::ParseError(String::from_str("Failed to resolve home page")),
                    );
                },
            };
            let mut info = entries[i].clone();
            info.home_page = page;
            found.push(
                W::new(info, share(&self.requestor), share(&self.wparser), share(&self.eparser)),
            );
            i += 1;
        }
        let ghost known = entries_of::<R, WP, EP, W>(self.teleplays@);
        let ghost added = entries_of::<R, WP, EP, W>(found@);
        assert(added =~= entries_at(host, given));
        self.teleplays.append(&mut found);
        assert(entries_of::<R, WP, EP, W>(self.teleplays@) =~= known + added);
        Ok(())
    }
}

impl<
    R: Request,
    P: ResourceParse,
    WP: TeleplayParse,
    EP: EpisodeParse,
    W: Teleplay<R, WP, EP>,
> Resource<R, P, WP, EP> for BaseResource<R, P, WP, EP, W> {
    type TeleplayType = W;

    closed spec fn site(&self) -> ResourceView {
        self.info@
    }

    closed spec fn entries(&self) -> Seq<TeleplayView> {
        entries_of::<R, WP, EP, W>(self.teleplays@)
    }

    fn new(
        info: ResourceInfo,
        requestor: Arc<R>,
        parser: Arc<P>,
        wparser: Arc<WP>,
        eparser: Arc<EP>,
    ) -> (resource: Self) {
        let resource = BaseResource {
            info,
            teleplays: Vec::new(),
            requestor,
            parser,
            wparser,
            eparser,
        };
        assert(resource.entries() =~= Seq::<TeleplayView>::empty());
        resource
    }

    fn host(&self) -> (host: &str) {
        self.info.host.as_str()
    }

    fn name(&self) -> (name: &str) {
        self.info.name.as_str()
    }

    fn teleplays(&self) -> (teleplays: &Vec<W>) {
        &self.teleplays
    }

    /// Fetches the search page for `keyword` through the cache, has the
    /// parser find the entries in it, and takes them over with their pages
    /// made absolute against the host of the site.
    fn search(&mut self, keyword: &str) -> (r: Result<(), Error>) {
        let url = match self.search_url(keyword) {
            Ok(url) => url,
            Err(e) => {
                return Err(e);
            },
        };
        let body = match self.requestor.request_with_cache(url.as_str(), RESOURCE_CACHE_TIME) {
            Ok(body) => body,
            Err(e) => {
                return Err(e);
            },
        };
        let entries = match self.parser.parse(body.as_str(), url.as_str(), &self.requestor) {
            Ok(entries) => entries,
            Err(e) => {
                return Err(e);
            },
        };
        self.adopt(entries)
    }
}

/// The catalog of the site that `parser` knows, searched through `requestor`.
pub fn create_resource<R: Request, P: GenerateInfo + ResourceParse + TeleplayParse + EpisodeParse>(
    requestor: Arc<R>,
    parser: Arc<P>,
) -> (resource: BaseResource<R, P, P, P, BaseTeleplay<R, P, P, BaseEpisode<R, P>>>)
    ensures
        resource.entries() == Seq::<TeleplayView>::empty(),
{
    let info = parser.generate_resource_info();
    BaseResource::new(info, requestor, share(&parser), share(&parser), share(&parser))
}

/// The entry `id` of the site that `parser` knows, looked up through `requestor`.
pub fn create_teleplay<R: Request, P: GenerateInfo + TeleplayParse + EpisodeParse>(
    requestor: Arc<R>,
    parser: Arc<P>,
    id: u64,
) -> (teleplay: BaseTeleplay<R, P, P, BaseEpisode<R, P>>)
    ensures
        teleplay.listings() == Seq::<SourceListing>::empty(),
{
    let info = parser.generate_teleplay_info(id);
    BaseTeleplay::new(info, requestor, share(&parser), share(&parser))
}

} // verus!
