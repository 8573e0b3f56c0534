//! The site `https://tv.xmb.app/index.php`.

use crate::catalog::{ResourceInfo, ResourceView, TeleplayInfo, TeleplayView};
use crate::parser::{entry, entry_of, entry_path, site};
use crate::resolver::GenerateInfo;
use std::sync::Arc;
use vstd::prelude::*;

verus! {

/// Knows the site and where its pages are.
#[derive(Debug)]
pub struct XMBParser {
    info: ResourceInfo,
}

impl XMBParser {
    /// The description of the site.
    pub open spec fn site() -> ResourceView {
        ResourceView {
            name: "小目标"@,
            host: "https://tv.xmb.app/index.php"@,
            search_path: "index.php/vod/search.html"@,
            search_key: "wd"@,
        }
    }

    /// What the parser holds.
    pub closed spec fn info(&self) -> ResourceView {
        self.info@
    }

    /// What the site knows of entry `id` before its page is fetched.
    pub open spec fn entry_spec(&self, id: u64) -> TeleplayView {
        entry_of(self.info().host, entry_path("/index.php/vod/detail/id/"@, id, ".html"@), id)
    }
}

impl Default for XMBParser {
    fn default() -> (parser: Self)
        ensures
            parser.info() == Self::site(),
    {
        XMBParser { info: site("小目标", "https://tv.xmb.app/index.php", "index.php/vod/search.html", "wd") }
    }
}

impl XMBParser {
    /// The parser of the site, ready to be shared.
    pub fn new() -> (parser: Arc<Self>)
        ensures
            parser.info() == Self::site(),
    {
        Arc::new(Self::default())
    }

    /// The description of the site.
    pub fn resource_info(&self) -> (info: ResourceInfo)
        ensures
            info@ == self.info(),
    {
        self.info.clone()
    }

    /// What the site knows of entry `id` before its page is fetched: the
    /// page is `/index.php/vod/detail/id/`, the identifier and `.html` under the host.
    /// The site records the identifier with the entry.
    pub fn teleplay_info(&self, id: u64) -> (info: TeleplayInfo)
        ensures
            info@ == self.entry_spec(id),
    {
        entry(self.info.host.as_str(), "/index.php/vod/detail/id/", id, ".html", id)
    }
}

impl GenerateInfo for XMBParser {
    /// The description of the site, as the parser holds it.
    fn generate_resource_info(&self) -> (info: ResourceInfo)
        ensures
            info@ == self.info(),
    {
        self.resource_info()
    }

    /// What the site knows of entry `id` before its page is fetched.
    fn generate_teleplay_info(&self, id: u64) -> (info: TeleplayInfo)
        ensures
            info@ == self.entry_spec(id),
    {
        self.teleplay_info(id)
    }
}

} // verus!
