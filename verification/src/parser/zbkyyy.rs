//! The site `https://www.zbkyyy.com`.

use crate::catalog::{ResourceInfo, ResourceView, TeleplayInfo, TeleplayView};
use crate::parser::{entry, entry_of, entry_path, site};
use crate::resolver::GenerateInfo;
use std::sync::Arc;
use vstd::prelude::*;

verus! {

/// Knows the site and where its pages are.
#[derive(Debug)]
pub struct ZBKYYYParser {
    info: ResourceInfo,
}

impl ZBKYYYParser {
    /// The description of the site.
    pub open spec fn site() -> ResourceView {
        ResourceView {
            name: "真不卡影院"@,
            host: "https://www.zbkyyy.com"@,
            search_path: "qyvodsearch/-------------.html"@,
            search_key: "wd"@,
        }
    }

    /// What the parser holds.
    pub closed spec fn info(&self) -> ResourceView {
        self.info@
    }

    /// What the site knows of entry `id` before its page is fetched.
    pub open spec fn entry_spec(&self, id: u64) -> TeleplayView {
        entry_of(self.info().host, entry_path("qyvoddetail/"@, id, ".html"@), 0)
    }
}

impl Default for ZBKYYYParser {
    fn default() -> (parser: Self)
        ensures
            parser.info() == Self::site(),
    {
        ZBKYYYParser { info: site("真不卡影院", "https://www.zbkyyy.com", "qyvodsearch/-------------.html", "wd") }
    }
}

impl ZBKYYYParser {
    /// The parser of the site, ready to be shared.
    pub fn new() -> (parser: Arc<Self>)
        ensures
            parser.info() == Self::site(),
    {
        Arc::new(Self::default())
    }

    /// The description of the site.
    pub fn resource_info(&self) -> (info: ResourceInfo)
        ensures
            info@ == self.info(),
    {
        self.info.clone()
    }

    /// What the site knows of entry `id` before its page is fetched: the
    /// page is `qyvoddetail/`, the identifier and `.html` under the host.
    /// The identifier is not recorded: the page of the entry tells it.
    pub fn teleplay_info(&self, id: u64) -> (info: TeleplayInfo)
        ensures
            info@ == self.entry_spec(id),
    {
        entry(self.info.host.as_str(), "qyvoddetail/", id, ".html", 0)
    }
}

impl GenerateInfo for ZBKYYYParser {
    /// The description of the site, as the parser holds it.
    fn generate_resource_info(&self) -> (info: ResourceInfo)
        ensures
            info@ == self.info(),
    {
        self.resource_info()
    }

    /// What the site knows of entry `id` before its page is fetched.
    fn generate_teleplay_info(&self, id: u64) -> (info: TeleplayInfo)
        ensures
            info@ == self.entry_spec(id),
    {
        self.teleplay_info(id)
    }
}

} // verus!
