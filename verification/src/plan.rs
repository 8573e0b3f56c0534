//! From a media playlist to the list of segments to download, as a function
//! of plain values: which source, file and key each segment gets, where
//! planning stops, and which keys it asks for.

use crate::cipher::AesKeyView;
use crate::digest::sha256_hex;
use crate::locator::url_joined;
use crate::playlist::{iv_bytes, KeyMethodView, KeyView, MediaSegmentView};
use crate::segment::{SegmentState, SegmentView};
use crate::text::joined_path;
use vstd::prelude::*;

verus! {

/// What is wrong with a playlist entry.
pub enum PlanFault {
    /// A reference cannot be resolved against the base URL.
    URIParse,
    /// A key tag asks for AES-128 without a usable vector or without a URI.
    URI,
}

/// Why planning cannot go past an entry.
pub enum PlanStop {
    /// The entry is faulty.
    Fault(PlanFault),
    /// The entry needs the key at `uri`, which the key cache does not hold.
    NeedKey { uri: Seq<char>, iv: Seq<u8> },
}

/// The key tag in force for entry `i`: the tag that stands before the
/// entry itself or, failing that, the one in force for the entry before it.
/// A tag holds for every entry behind it until another tag takes its place.
/// A key tag that was not made sense of ends the force of the tag before it
/// and puts none in its place.
pub open spec fn key_in_force(entries: Seq<MediaSegmentView>, i: int) -> Option<KeyView>
    decreases i + 1,
{
    if i < 0 || i >= entries.len() {
        None
    } else if entries[i].key is Some {
        entries[i].key
    } else if entries[i].clears_key() {
        None
    } else {
        key_in_force(entries, i - 1)
    }
}

/// The key that a key tag asks for: the absolute URI of the key and the
/// vector that goes with it. Only the method AES-128 asks for a key; every
/// other method leaves the segment as it is.
pub open spec fn wanted_key(tag: Option<KeyView>, base: Seq<char>) -> Result<
    Option<(Seq<char>, Seq<u8>)>,
    PlanFault,
> {
    match tag {
        Some(tag) => match tag.method {
            KeyMethodView::AES128 => match iv_bytes(tag.iv) {
                None => Err(PlanFault::URI),
                Some(iv) => match tag.uri {
                    None => Err(PlanFault::URI),
                    Some(reference) => match url_joined(base, reference) {
                        None => Err(PlanFault::URIParse),
                        Some(uri) => Ok(Some((uri, iv))),
                    },
                },
            },
            _ => Ok(None),
        },
        None => Ok(None),
    }
}

/// Whether a key is asked for that the cache does not hold.
pub open spec fn missing_key(
    want: Option<(Seq<char>, Seq<u8>)>,
    keys: Map<Seq<char>, AesKeyView>,
) -> bool {
    match want {
        Some(pair) => !keys.contains_key(pair.0),
        None => false,
    }
}

/// The segment that the reference `uri` becomes under the key tag `tag`,
/// given the keys fetched so far: its source is the reference resolved
/// against `base`, its file is named by the digest of the source and lies in
/// `dir`, and its key is the cached key of the URI that the tag asks for.
pub open spec fn planned_segment(
    uri: Seq<char>,
    tag: Option<KeyView>,
    base: Seq<char>,
    dir: Seq<char>,
    keys: Map<Seq<char>, AesKeyView>,
) -> Result<SegmentView, PlanStop> {
    match wanted_key(tag, base) {
        Err(fault) => Err(PlanStop::Fault(fault)),
        Ok(want) => if missing_key(want, keys) {
            Err(PlanStop::NeedKey { uri: want.unwrap().0, iv: want.unwrap().1 })
        } else {
            match url_joined(base, uri) {
                None => Err(PlanStop::Fault(PlanFault::URIParse)),
                Some(source) => Ok(
                    SegmentView {
                        uri: source,
                        save_file: joined_path(dir, sha256_hex(source)),
                        try_count: 0,
                        state: SegmentState::New,
                        key: match want {
                            Some(pair) => Some(keys[pair.0]),
                            None => None,
                        },
                    },
                ),
            }
        },
    }
}

/// The segment that entry `i` of a playlist becomes, under the key tag in
/// force for it.
pub open spec fn planned_at(
    entries: Seq<MediaSegmentView>,
    i: int,
    base: Seq<char>,
    dir: Seq<char>,
    keys: Map<Seq<char>, AesKeyView>,
) -> Result<SegmentView, PlanStop> {
    planned_segment(entries[i].uri, key_in_force(entries, i), base, dir, keys)
}

/// The first entry at or after `from` that cannot be planned; the number of
/// entries where all of them can.
pub open spec fn stop_index(
    entries: Seq<MediaSegmentView>,
    from: int,
    base: Seq<char>,
    dir: Seq<char>,
    keys: Map<Seq<char>, AesKeyView>,
) -> int
    decreases entries.len() - from,
{
    if from >= entries.len() {
        from
    } else if planned_at(entries, from, base, dir, keys) is Err {
        from
    } else {
        stop_index(entries, from + 1, base, dir, keys)
    }
}

/// The segments that the entries from `from` up to `to` become.
pub open spec fn planned_range(
    entries: Seq<MediaSegmentView>,
    from: int,
    to: int,
    base: Seq<char>,
    dir: Seq<char>,
    keys: Map<Seq<char>, AesKeyView>,
) -> Seq<SegmentView> {
    Seq::new(
        (to - from) as nat,
        |k: int| planned_at(entries, from + k, base, dir, keys)->Ok_0,
    )
}

/// The key URIs that planning asks for, in order, when it starts at entry
/// `from` with the keys in `keys` and every request is answered by the next
/// of `bodies`. Planning ends at a faulty entry, at the end of the playlist,
/// at a body that has not the 16 bytes of a key, or when the bodies run out.
pub open spec fn key_requests(
    entries: Seq<MediaSegmentView>,
    from: int,
    base: Seq<char>,
    dir: Seq<char>,
    keys: Map<Seq<char>, AesKeyView>,
    bodies: Seq<Seq<u8>>,
) -> Seq<Seq<char>>
    decreases bodies.len(),
{
    let stop = stop_index(entries, from, base, dir, keys);
    if bodies.len() > 0 && 0 <= stop < entries.len() {
        match planned_at(entries, stop, base, dir, keys) {
            Err(PlanStop::NeedKey { uri, iv }) => if bodies[0].len() == 16 {
                seq![uri] + key_requests(
                    entries,
                    stop,
                    base,
                    dir,
                    keys.insert(uri, AesKeyView { key: bodies[0], iv }),
                    bodies.skip(1),
                )
            } else {
                seq![uri]
            },
            _ => Seq::empty(),
        }
    } else {
        Seq::empty()
    }
}

/// Planning stops at `to` where every entry from `from` up to `to` can be
/// planned and the entry at `to`, if there is one, cannot.
pub proof fn lemma_stop_index(
    entries: Seq<MediaSegmentView>,
    from: int,
    to: int,
    base: Seq<char>,
    dir: Seq<char>,
    keys: Map<Seq<char>, AesKeyView>,
)
    requires
        0 <= from <= to <= entries.len(),
        forall|k: int| from <= k < to ==> (#[trigger] planned_at(entries, k, base, dir, keys)) is Ok,
        to < entries.len() ==> planned_at(entries, to, base, dir, keys) is Err,
    ensures
        stop_index(entries, from, base, dir, keys) == to,
    decreases to - from,
{
    if from < to {
        assert(planned_at(entries, from, base, dir, keys) is Ok);
        lemma_stop_index(entries, from + 1, to, base, dir, keys);
    }
}

/// Key deduplication: in one run of planning no key URI is asked for twice,
/// and none is asked for that the cache held at the start, however many
/// segments refer to it.
pub proof fn lemma_key_requested_once(
    entries: Seq<MediaSegmentView>,
    from: int,
    base: Seq<char>,
    dir: Seq<char>,
    keys: Map<Seq<char>, AesKeyView>,
    bodies: Seq<Seq<u8>>,
)
    ensures
        key_requests(entries, from, base, dir, keys, bodies).no_duplicates(),
        forall|k: int|
            0 <= k < key_requests(entries, from, base, dir, keys, bodies).len()
                ==> !keys.contains_key(
                #[trigger] key_requests(entries, from, base, dir, keys, bodies)[k],
            ),
    decreases bodies.len(),
{
    let all = key_requests(entries, from, base, dir, keys, bodies);
    let stop = stop_index(entries, from, base, dir, keys);
    if bodies.len() > 0 && 0 <= stop < entries.len() {
        match planned_at(entries, stop, base, dir, keys) {
            Err(PlanStop::NeedKey { uri, iv }) => if bodies[0].len() != 16 {
                assert(all =~= seq![uri]);
                assert(!keys.contains_key(uri));
            } else {
                let more = keys.insert(uri, AesKeyView { key: bodies[0], iv });
                let rest = key_requests(entries, stop, base, dir, more, bodies.skip(1));
                lemma_key_requested_once(entries, stop, base, dir, more, bodies.skip(1));
                assert(all =~= seq![uri] + rest);
                assert(!keys.contains_key(uri));
                assert forall|k: int| 0 <= k < all.len() implies !keys.contains_key(
                    #[trigger] all[k],
                ) by {
                    if k > 0 {
                        assert(all[k] == rest[k - 1]);
                        assert(!more.contains_key(rest[k - 1]));
                    }
                }
                assert forall|a: int, b: int| 0 <= a < all.len() && 0 <= b < all.len() && a != b
                    implies all[a] != all[b] by {
                    if a > 0 {
                        assert(all[a] == rest[a - 1]);
                        assert(!more.contains_key(rest[a - 1]));
                    }
                    if b > 0 {
                        assert(all[b] == rest[b - 1]);
                        assert(!more.contains_key(rest[b - 1]));
                    }
                }
            },
            _ => {},
        }
    }
}

} // verus!
