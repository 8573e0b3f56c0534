//! The site `https://v.ijujitv.cc`.

use crate::catalog::{ResourceInfo, ResourceView, TeleplayInfo, TeleplayView};
use crate::parser::{entry, entry_of, entry_path, site};
use crate::resolver::GenerateInfo;
use std::sync::Arc;
use vstd::prelude::*;

verus! {

/// Knows the site and where its pages are.
#[derive(Debug)]
pub struct IJUJITVParser {
    info: ResourceInfo,
}

impl IJUJITVParser {
    /// The description of the site.
    pub open spec fn site() -> ResourceView {
        ResourceView {
            name: "剧集TV"@,
            host: "https://v.ijujitv.cc"@,
            search_path: "search/-------------.html"@,
            search_key: "wd"@,
        }
    }

    /// What the parser holds.
    pub closed spec fn info(&self) -> ResourceView {
        self.info@
    }

    /// What the site knows of entry `id` before its page is fetched.
    pub open spec fn entry_spec(&self, id: u64) -> TeleplayView {
        entry_of(self.info().host, entry_path("detail/"@, id, ".html"@), 0)
    }
}

impl Default for IJUJITVParser {
    fn default() -> (parser: Self)
        ensures
            parser.info() == Self::site(),
    {
        IJUJITVParser { info: site("剧集TV", "https://v.ijujitv.cc", "search/-------------.html", "wd") }
    }
}

impl IJUJITVParser {
    /// The parser of the site, ready to be shared.
    pub fn new() -> (parser: Arc<Self>)
        ensures
            parser.info() == Self::site(),
    {
        Arc::new(Self::default())
    }

    /// The description of the site.
    pub fn resource_info(&self) -> (info: ResourceInfo)
        ensures
            info@ == self.info(),
    {
        self.info.clone()
    }

    /// What the site knows of entry `id` before its page is fetched: the
    /// page is `detail/`, the identifier and `.html` under the host.
    /// The identifier is not recorded: the page of the entry tells it.
    pub fn teleplay_info(&self, id: u64) -> (info: TeleplayInfo)
        ensures
            info@ == self.entry_spec(id),
    {
        entry(self.info.host.as_str(), "detail/", id, ".html", 0)
    }
}

impl GenerateInfo for IJUJITVParser {
    /// The description of the site, as the parser holds it.
    fn generate_resource_info(&self) -> (info: ResourceInfo)
        ensures
            info@ == self.info(),
    {
        self.resource_info()
    }

    /// What the site knows of entry `id` before its page is fetched.
    fn generate_teleplay_info(&self, id: u64) -> (info: TeleplayInfo)
        ensures
            info@ == self.entry_spec(id),
    {
        self.teleplay_info(id)
    }
}

} // verus!
