//! HLS playlists as plain values, and the reading of them from bytes.

use crate::error::DownloadError;
use crate::hexcode::{decode_hex, hex_bytes, is_hex_text};
use crate::text::text_of;
use vstd::prelude::*;

verus! {

/// The `METHOD` attribute of an `EXT-X-KEY` tag.
#[derive(Debug)]
pub enum KeyMethod {
    /// `NONE`: segments are not encrypted.
    Clear,
    AES128,
    SampleAES,
    Other(String),
}

/// What a [`KeyMethod`] holds.
pub enum KeyMethodView {
    Clear,
    AES128,
    SampleAES,
    Other(Seq<char>),
}

impl View for KeyMethod {
    type V = KeyMethodView;

    open spec fn view(&self) -> KeyMethodView {
        match self {
            KeyMethod::Clear => KeyMethodView::Clear,
            KeyMethod::AES128 => KeyMethodView::AES128,
            KeyMethod::SampleAES => KeyMethodView::SampleAES,
            KeyMethod::Other(name) => KeyMethodView::Other(name@),
        }
    }
}

/// The `EXT-X-KEY` tag in force for a segment.
#[derive(Debug)]
pub struct Key {
    pub method: KeyMethod,
    pub uri: Option<String>,
    pub iv: Option<String>,
}

/// What a [`Key`] holds.
pub struct KeyView {
    pub method: KeyMethodView,
    pub uri: Option<Seq<char>>,
    pub iv: Option<Seq<char>>,
}

impl View for Key {
    type V = KeyView;

    open spec fn view(&self) -> KeyView {
        KeyView { method: self.method@, uri: text_of(self.uri), iv: text_of(self.iv) }
    }
}

/// The view of an optional key tag.
pub open spec fn key_of_tag(tag: Option<&Key>) -> Option<KeyView> {
    match tag {
        Some(key) => Some(key@),
        None => None,
    }
}

/// A tag that the reader of playlists did not make sense of: its name
/// without the leading `#EXT-`, and what follows the colon.
#[derive(Debug)]
pub struct ExtTag {
    pub tag: String,
    pub rest: Option<String>,
}

/// What an [`ExtTag`] holds.
pub struct ExtTagView {
    pub tag: Seq<char>,
    pub rest: Option<Seq<char>>,
}

impl View for ExtTag {
    type V = ExtTagView;

    open spec fn view(&self) -> ExtTagView {
        ExtTagView { tag: self.tag@, rest: text_of(self.rest) }
    }
}

/// The views of a list of tags.
pub open spec fn tag_views(tags: Seq<ExtTag>) -> Seq<ExtTagView> {
    Seq::new(tags.len(), |i: int| tags[i]@)
}

/// One segment of a media playlist, as the playlist writes it: its URI, the
/// key tag that stands before it since the segment before, if any, and the
/// tags that stand there and were not made sense of.
#[derive(Debug)]
pub struct MediaSegment {
    pub uri: String,
    pub key: Option<Key>,
    pub unknown_tags: Vec<ExtTag>,
}

/// What a [`MediaSegment`] holds.
pub struct MediaSegmentView {
    pub uri: Seq<char>,
    pub key: Option<KeyView>,
    pub unknown_tags: Seq<ExtTagView>,
}

impl View for MediaSegment {
    type V = MediaSegmentView;

    open spec fn view(&self) -> MediaSegmentView {
        MediaSegmentView {
            uri: self.uri@,
            key: match self.key {
                Some(key) => Some(key@),
                None => None,
            },
            unknown_tags: tag_views(self.unknown_tags@),
        }
    }
}

impl MediaSegmentView {
    /// Whether a key tag stands before the segment that was not made sense
    /// of, as one that switches encryption off without naming a vector.
    pub open spec fn clears_key(self) -> bool {
        exists|k: int| 0 <= k < self.unknown_tags.len() && (#[trigger] self.unknown_tags[k]).tag
            == "X-KEY"@
    }
}

impl MediaSegment {
    /// Whether a key tag stands before the segment that was not made sense of.
    pub fn clears_key(&self) -> (r: bool)
        ensures
            r == self@.clears_key(),
    {
        let mut k: usize = 0;
        while k < self.unknown_tags.len()
            invariant
                k <= self.unknown_tags.len(),
                forall|j: int| 0 <= j < k ==> (#[trigger] self@.unknown_tags[j]).tag != "X-KEY"@,
            decreases self.unknown_tags.len() - k,
        {
            assert(self@.unknown_tags[k as int] == self.unknown_tags@[k as int]@);
            if self.unknown_tags[k].tag.as_str().eq("X-KEY") {
                return true;
            }
            k += 1;
        }
        false
    }
}

/// A media playlist: its segments in the order of declaration.
#[derive(Debug)]
pub struct MediaPlaylist {
    pub segments: Vec<MediaSegment>,
}

impl View for MediaPlaylist {
    type V = Seq<MediaSegmentView>;

    open spec fn view(&self) -> Seq<MediaSegmentView> {
        Seq::new(self.segments@.len(), |i: int| self.segments@[i]@)
    }
}

/// A master playlist: the URIs of its variants in the order of declaration.
#[derive(Debug)]
pub struct MasterPlaylist {
    pub variants: Vec<String>,
}

impl View for MasterPlaylist {
    type V = Seq<Seq<char>>;

    open spec fn view(&self) -> Seq<Seq<char>> {
        Seq::new(self.variants@.len(), |i: int| self.variants@[i]@)
    }
}

/// A playlist of either kind.
#[derive(Debug)]
pub enum Playlist {
    MasterPlaylist(MasterPlaylist),
    MediaPlaylist(MediaPlaylist),
}

/// What a [`Playlist`] holds.
pub enum PlaylistView {
    MasterPlaylist(Seq<Seq<char>>),
    MediaPlaylist(Seq<MediaSegmentView>),
}

impl View for Playlist {
    type V = PlaylistView;

    open spec fn view(&self) -> PlaylistView {
        match self {
            Playlist::MasterPlaylist(list) => PlaylistView::MasterPlaylist(list@),
            Playlist::MediaPlaylist(list) => PlaylistView::MediaPlaylist(list@),
        }
    }
}

/// The kind of a playlist, with the variants of a master playlist.
#[derive(Debug)]
pub enum Outline {
    Master(Vec<String>),
    Media,
}

/// What an [`Outline`] holds.
pub enum OutlineView {
    Master(Seq<Seq<char>>),
    Media,
}

impl View for Outline {
    type V = OutlineView;

    open spec fn view(&self) -> OutlineView {
        match self {
            Outline::Master(variants) => OutlineView::Master(
                Seq::new(variants@.len(), |i: int| variants@[i]@),
            ),
            Outline::Media => OutlineView::Media,
        }
    }
}

/// What the bytes of a manifest say when read as a media playlist: its
/// segments, each with the key tag that stands before it since the segment
/// before, if any, and the tags there that were not made sense of; `None`
/// where the bytes are no playlist.
pub uninterp spec fn m3u8_media(body: Seq<u8>) -> Option<Seq<MediaSegmentView>>;

/// What kind of playlist the bytes of a manifest are: a master playlist with
/// its variants, or a media playlist; `None` where the bytes are no playlist.
pub uninterp spec fn m3u8_outline(body: Seq<u8>) -> Option<OutlineView>;

/// What the bytes of a manifest say: a master playlist with its variants, or a
/// media playlist with its segments; `None` where the bytes are no playlist.
pub open spec fn m3u8_playlist(body: Seq<u8>) -> Option<PlaylistView> {
    match m3u8_outline(body) {
        Some(OutlineView::Master(variants)) => Some(PlaylistView::MasterPlaylist(variants)),
        Some(OutlineView::Media) => match m3u8_media(body) {
            Some(entries) => Some(PlaylistView::MediaPlaylist(entries)),
            None => None,
        },
        None => None,
    }
}

/// `m3u8_rs::parse_media_playlist`, the segments of its result moved into
/// plain values: of each segment the URI, the key tag and the unknown tags,
/// of a key tag the method, the URI and the vector. A parse error gives
/// `None`. The result is a function of the bytes alone.
#[verifier::external_body]
pub(crate) fn read_media(body: &[u8]) -> (r: Option<MediaPlaylist>)
    ensures
        r is Some <==> m3u8_media(body@) is Some,
        r matches Some(list) ==> m3u8_media(body@) == Some(list@),
{
    let list = m3u8_rs::parse_media_playlist(body).ok()?.1;
    Some(MediaPlaylist { segments: list.segments.into_iter().map(|s| MediaSegment {
        uri: s.uri,
        key: s.key.map(|k| Key {
            method: match k.method {
                m3u8_rs::KeyMethod::None => KeyMethod::Clear,
                m3u8_rs::KeyMethod::AES128 => KeyMethod::AES128,
                m3u8_rs::KeyMethod::SampleAES => KeyMethod::SampleAES,
                m3u8_rs::KeyMethod::Other(name) => KeyMethod::Other(name),
            }, uri: k.uri, iv: k.iv }),
        unknown_tags: s.unknown_tags.into_iter().map(|t| ExtTag { tag: t.tag, rest: t.rest }).collect(),
    }).collect() })
}

/// `m3u8_rs::parse_playlist`, of whose result the kind is kept: of a master
/// playlist the URIs of its variants, of a media playlist only that it is
/// one. A parse error gives `None`. The result is a function of the bytes
/// alone.
#[verifier::external_body]
pub(crate) fn read_outline(body: &[u8]) -> (r: Option<Outline>)
    ensures
        r is Some <==> m3u8_outline(body@) is Some,
        r matches Some(outline) ==> m3u8_outline(body@) == Some(outline@),
{
    Some(match m3u8_rs::parse_playlist(body).ok()?.1 {
        m3u8_rs::Playlist::MasterPlaylist(list) => Outline::Master(
            list.variants.into_iter().map(|v| v.uri).collect(),
        ),
        m3u8_rs::Playlist::MediaPlaylist(_) => Outline::Media,
    })
}

/// Reads a manifest of either kind: its kind first, then the segments of a
/// media playlist. Fails with `URI` where the bytes are no playlist.
pub fn parse_playlist(body: &[u8]) -> (r: Result<Playlist, DownloadError>)
    ensures
        r is Ok <==> m3u8_playlist(body@) is Some,
        r matches Ok(list) ==> m3u8_playlist(body@) == Some(list@),
        r matches Err(e) ==> e is URI,
{
    match read_outline(body) {
        Some(Outline::Master(variants)) => Ok(
            Playlist::MasterPlaylist(MasterPlaylist { variants }),
        ),
        Some(Outline::Media) => match read_media(body) {
            Some(list) => Ok(Playlist::MediaPlaylist(list)),
            None => Err(DownloadError::URI),
        },
        None => Err(DownloadError::URI),
    }
}

/// Reads a manifest that is expected to be a media playlist, as the variant
/// of a master playlist is. Fails with `URI` where the bytes are no playlist.
pub fn parse_media_playlist(body: &[u8]) -> (r: Result<MediaPlaylist, DownloadError>)
    ensures
        r is Ok <==> m3u8_media(body@) is Some,
        r matches Ok(list) ==> m3u8_media(body@) == Some(list@),
        r matches Err(e) ==> e is URI,
{
    match read_media(body) {
        Some(list) => Ok(list),
        None => Err(DownloadError::URI),
    }
}

/// Whether the two characters `0x` stand at position `i` of `s`.
pub open spec fn marks_hex(s: Seq<char>, i: int) -> bool {
    0 <= i && i + 1 < s.len() && s[i] == '0' && s[i + 1] == 'x'
}

/// Whether `i` is the last position of `s` at which `0x` stands.
pub open spec fn last_mark(s: Seq<char>, i: int) -> bool {
    marks_hex(s, i) && forall|j: int| marks_hex(s, j) ==> j <= i
}

/// What follows the last `0x` in `s`; all of `s` where it holds none.
pub open spec fn after_hex_mark(s: Seq<char>) -> Seq<char> {
    if exists|i: int| marks_hex(s, i) {
        s.skip((choose|i: int| last_mark(s, i)) + 2)
    } else {
        s
    }
}

/// The initialisation vector that an `IV` attribute denotes: the 16 bytes
/// that its 32 hexadecimal digits spell, a leading `0x` set aside. A tag
/// without the attribute means 16 zero bytes. `None` where the digits are
/// malformed or are not 32.
pub open spec fn iv_bytes(iv: Option<Seq<char>>) -> Option<Seq<u8>> {
    match iv {
        None => Some(Seq::new(16, |i: int| 0u8)),
        Some(text) => if is_hex_text(after_hex_mark(text)) && after_hex_mark(text).len() == 32 {
            Some(hex_bytes(after_hex_mark(text)))
        } else {
            None
        },
    }
}

/// What follows the last `0x` in `text`; all of `text` where it holds none.
pub fn strip_hex_mark(text: &str) -> (digits: &str)
    ensures
        digits@ == after_hex_mark(text@),
{
    let len = text.unicode_len();
    let mut k: usize = len;
    while k >= 2
        invariant
            k <= len,
            len == text@.len(),
            forall|j: int| marks_hex(text@, j) ==> j + 2 <= k,
        decreases k,
    {
        if text.get_char(k - 2) == '0' && text.get_char(k - 1) == 'x' {
            proof {
                let i = k - 2;
                assert(marks_hex(text@, i));
                assert(last_mark(text@, i));
                let c = choose|c: int| last_mark(text@, c);
                assert(last_mark(text@, c));
                assert(c == i);
                assert(text@.subrange(k as int, len as int) =~= text@.skip(c + 2));
            }
            return text.substring_char(k, len);
        }
        k -= 1;
    }
    assert(text@.subrange(0, len as int) =~= text@);
    text.substring_char(0, len)
}

/// Reads the initialisation vector from the `IV` attribute of a key tag:
/// 16 bytes, or nothing.
pub fn key_iv(iv: &Option<String>) -> (r: Option<Vec<u8>>)
    ensures
        r is Some <==> iv_bytes(text_of(*iv)) is Some,
        r matches Some(bytes) ==> iv_bytes(text_of(*iv)) == Some(bytes@) && bytes@.len() == 16,
{
    match iv {
        None => {
            let mut zeros: Vec<u8> = Vec::new();
            while zeros.len() < 16
                invariant
                    zeros.len() <= 16,
                    forall|i: int| 0 <= i < zeros.len() ==> zeros[i] == 0u8,
                decreases 16 - zeros.len(),
            {
                zeros.push(0u8);
            }
            assert(zeros@ =~= Seq::new(16, |i: int| 0u8));
            Some(zeros)
        },
        Some(text) => match decode_hex(strip_hex_mark(text.as_str())) {
            Some(bytes) => if bytes.len() == 16 {
                Some(bytes)
            } else {
                None
            },
            None => None,
        },
    }
}

} // verus!
