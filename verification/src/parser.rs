//! The sites that can be resolved: where each lives, how it is searched and
//! where the page of an entry is, together with the text rules that their
//! pages share.

pub mod ijujitv;
pub mod jugougou;
pub mod xmb;
pub mod zbkyyy;

pub use ijujitv::IJUJITVParser;
pub use jugougou::JUGOUGOUParser;
pub use xmb::XMBParser;
pub use zbkyyy::ZBKYYYParser;

use crate::catalog::{
    ResourceInfo, ResourceView, TeleplayInfo, TeleplayView, URIType, Uri, UriView,
};
use crate::error::Error;
use crate::locator;
use crate::locator::url_with_path;
use crate::text::{
    decimal, joined, parse_u64, parsed_u64, pieces, split, stripped, trim,
    trim_matches, trimmed, u64_to_string, views,
};
use vstd::prelude::*;

verus! {

/// The path of the page of entry `id`: the number between `before` and `after`.
pub open spec fn entry_path(before: Seq<char>, id: u64, after: Seq<char>) -> Seq<char> {
    before + decimal(id as nat) + after
}

/// What a site knows of entry `id` before its page is fetched: the page,
/// which is the host with its path replaced by `path`, and the identifier
/// where the site records it. Where the host is no URL the page stays empty.
pub open spec fn entry_of(host: Seq<char>, path: Seq<char>, id: u64) -> TeleplayView {
    TeleplayView {
        id,
        home_page: match url_with_path(host, path) {
            Some(page) => page,
            None => Seq::empty(),
        },
        ..TeleplayView::blank()
    }
}

/// The description of a site.
pub fn site(name: &str, host: &str, search_path: &str, search_key: &str) -> (info: ResourceInfo)
    ensures
        info@ == (ResourceView {
            host: host@,
            name: name@,
            search_path: search_path@,
            search_key: search_key@,
        }),
{
    ResourceInfo {
        name: String::from_str(name),
        host: String::from_str(host),
        search_path: String::from_str(search_path),
        search_key: String::from_str(search_key),
    }
}

/// What a site at `host` knows of entry `id` before its page is fetched,
/// the path of the page being the number between `before` and `after`.
pub fn entry(host: &str, before: &str, id: u64, after: &str, recorded: u64) -> (info: TeleplayInfo)
    ensures
        info@ == entry_of(host@, entry_path(before@, id, after@), recorded),
{
    let mut path = String::from_str(before);
    let number = u64_to_string(id);
    path.append(number.as_str());
    path.append(after);
    let mut info = TeleplayInfo::default();
    info.id = recorded;
    match locator::with_path(host, path.as_str()) {
        Ok(page) => {
            info.home_page = page;
        },
        Err(_) => {},
    }
    info
}

/// The identifier in the reference to the page of an entry: the number
/// that the last piece of the path begins with, up to its first dot.
pub open spec fn page_id(page: Seq<char>) -> Option<u64> {
    parsed_u64(pieces(pieces(page, '/').last(), '.')[0])
}

/// Reads the identifier from the reference to the page of an entry; `None`
/// where the file name does not begin with a number.
pub fn teleplay_id(home_page: &str) -> (id: Option<u64>)
    ensures
        id == page_id(home_page@),
{
    let path = split(home_page, '/');
    let name = split(path[path.len() - 1].as_str(), '.');
    assert(views(path@).last() == path@[path.len() - 1]@);
    assert(views(name@)[0] == name@[0]@);
    parse_u64(name[0].as_str())
}

/// The message in the script of a player page: what follows the last `=`,
/// without the white space around it.
pub open spec fn message_of(script: Seq<char>) -> Seq<char> {
    trimmed(pieces(script, '=').last())
}

/// The message in the script of a player page whose message may itself
/// hold `=`: what follows the first `=`, every further `=` left out,
/// without the white space around it.
pub open spec fn message_behind(script: Seq<char>) -> Seq<char> {
    trimmed(joined(pieces(script, '=').skip(1), Seq::empty()))
}

/// Finds the message in the script of a player page: what follows the last `=`.
pub fn stream_message(script: &str) -> (message: String)
    ensures
        message@ == message_of(script@),
{
    let parts = split(script, '=');
    assert(views(parts@).last() == parts@[parts.len() - 1]@);
    String::from_str(trim(parts[parts.len() - 1].as_str()))
}

/// Finds the message in the script of a player page: what follows the
/// first `=`, every further `=` left out.
pub fn stream_message_behind(script: &str) -> (message: String)
    ensures
        message@ == message_behind(script@),
{
    let parts = split(script, '=');
    let mut text = String::new();
    let mut i: usize = 1;
    let ghost rest = views(parts@).skip(1);
    assert(rest.subrange(0, 0) =~= Seq::<Seq<char>>::empty());
    while i < parts.len()
        invariant
            1 <= i <= parts.len(),
            rest == views(parts@).skip(1),
            text@ == joined(rest.subrange(0, i - 1), Seq::empty()),
        decreases parts.len() - i,
    {
        let ghost before = rest.subrange(0, i - 1);
        let ghost after = rest.subrange(0, i as int);
        assert(after.drop_last() =~= before);
        assert(after.last() == parts@[i as int]@);
        text.append(parts[i].as_str());
        assert(text@ =~= joined(after, Seq::empty()));
        i += 1;
    }
    assert(rest.subrange(0, parts.len() - 1) =~= rest);
    String::from_str(trim(text.as_str()))
}

/// What the JSON text `message` holds under `key`: the text of a string
/// member of that name, or nothing where the message is no object, has no
/// such member or holds something other than a string there. The outer
/// `None` stands for text that is no JSON.
pub uninterp spec fn json_text(message: Seq<char>, key: Seq<char>) -> Option<Option<Seq<char>>>;

/// `serde_json::from_str` to a `Value`, then the member `key` of the value
/// through its index operator, then `Value::as_str` on the member. The
/// result is a function of the two texts alone. An error of the first step
/// is returned as the text that it displays as; nothing is said of that text.
#[verifier::external_body]
pub(crate) fn json_member(message: &str, key: &str) -> (r: Result<Option<String>, String>)
    ensures
        r is Ok <==> json_text(message@, key@) is Some,
        r matches Ok(member) ==> json_text(message@, key@) == Some(crate::text::text_of(member)),
{
    match serde_json::from_str::<serde_json::Value>(message) {
        Ok(value) => Ok(value[key].as_str().map(String::from)),
        Err(e) => Err(e.to_string()),
    }
}

/// The stream that the message of a player page names: a segmented stream
/// at the text of its member `url`, quotation marks around it set aside.
pub open spec fn stream_of(message: Seq<char>) -> Option<UriView> {
    match json_text(message, "url"@) {
        Some(Some(url)) => Some(UriView { uri: stripped(url, '"'), utype: URIType::M3U8 }),
        _ => None,
    }
}

/// Reads the stream from the message of a player page. Fails with
/// `SerdeJsonError` where the message is no JSON, and with `ParseError`
/// where it has no text under `url`.
pub fn stream_uri(message: &str) -> (r: Result<Uri, Error>)
    ensures
        match json_text(message@, "url"@) {
            Some(Some(url)) => r matches Ok(uri) && Some(uri@) == stream_of(message@),
            Some(None) => r matches Err(Error::ParseError(_)),
            None => r matches Err(Error::SerdeJsonError(_)),
        },
{
    match json_member(message, "url") {
        Ok(Some(url)) => Ok(
            Uri { uri: String::from_str(trim_matches(url.as_str(), '"')), utype: URIType::M3U8 },
        ),
        Ok(None) => Err(
            Error::ParseError(String::from_str("Faild to find url string from json msg")),
        ),
        Err(e) => Err(Error::SerdeJsonError(e)),
    }
}

/// The pieces that are not empty, each without the white space around it.
pub open spec fn named(parts: Seq<Seq<char>>) -> Seq<Seq<char>>
    decreases parts.len(),
{
    if parts.len() == 0 {
        Seq::empty()
    } else if parts.last().len() == 0 {
        named(parts.drop_last())
    } else {
        named(parts.drop_last()).push(trimmed(parts.last()))
    }
}

/// The names in a list that `sep` separates: empty pieces are passed over,
/// and white space around a name is removed.
pub fn names(text: &str, sep: char) -> (list: Vec<String>)
    ensures
        views(list@) == named(pieces(text@, sep)),
{
    let parts = split(text, sep);
    let mut list: Vec<String> = Vec::new();
    let mut i: usize = 0;
    assert(views(parts@).subrange(0, 0) =~= Seq::<Seq<char>>::empty());
    while i < parts.len()
        invariant
            i <= parts.len(),
            views(list@) == named(views(parts@).subrange(0, i as int)),
        decreases parts.len() - i,
    {
        let ghost before = views(parts@).subrange(0, i as int);
        let ghost after = views(parts@).subrange(0, i + 1);
        let ghost listed = views(list@);
        assert(after.drop_last() =~= before);
        assert(after.last() == parts@[i as int]@);
        if parts[i].as_str().unicode_len() > 0 {
            list.push(String::from_str(trim(parts[i].as_str())));
            assert(views(list@) =~= listed.push(trimmed(after.last())));
        }
        i += 1;
    }
    assert(views(parts@).subrange(0, parts.len() as int) =~= views(parts@));
    list
}

/// The cast that a line of the form `label:names` gives. The names stand
/// behind the last colon; they are separated by commas or, where no comma
/// separates two of them, by blanks. No cast where the line has no colon or
/// names nobody.
pub open spec fn cast_of(line: Seq<char>) -> Option<Seq<Seq<char>>> {
    if pieces(line, ':').len() < 2 {
        None
    } else {
        let listed = named(pieces(trimmed(pieces(line, ':').last()), ','));
        if listed.len() > 1 {
            Some(listed)
        } else if listed.len() == 1 {
            Some(named(pieces(trimmed(listed[0]), ' ')))
        } else {
            None
        }
    }
}

/// Reads the cast from a line of the form `label:names`.
pub fn cast(line: &str) -> (list: Option<Vec<String>>)
    ensures
        crate::catalog::names_of(list) == cast_of(line@),
{
    let parts = split(line, ':');
    if parts.len() < 2 {
        return None;
    }
    assert(views(parts@).last() == parts@[parts.len() - 1]@);
    let listed = names(trim(parts[parts.len() - 1].as_str()), ',');
    if listed.len() > 1 {
        Some(listed)
    } else if listed.len() == 1 {
        assert(views(listed@)[0] == listed@[0]@);
        Some(names(trim(listed[0].as_str()), ' '))
    } else {
        None
    }
}

} // verus!
