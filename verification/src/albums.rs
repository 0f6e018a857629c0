//! Synthetic albums for a service without an albums endpoint: tracks are
//! grouped by album id and the first track of each group stands for the
//! album's title, artist and cover.

use crate::radio::{is_remote, is_remote_spec};
use crate::text::push_str;
use vstd::prelude::*;
use vstd::string::*;

verus! {

/// What a track contributes to its album.
#[derive(Clone, Debug)]
pub struct AlbumTrack {
    pub album_id: String,
    pub album: String,
    pub artist: String,
    pub cover: Option<String>,
}

/// An album made up from its first track.
#[derive(Clone, Debug)]
pub struct SyntheticAlbum {
    pub id: String,
    pub title: String,
    pub artist: String,
    /// The cover in the form the artwork resolver decodes: a raw URL behind
    /// `directurl:`, an embedded tag behind `ytmusic:_:`.
    pub cover_path: Option<String>,
}

pub struct AlbumView {
    pub id: Seq<char>,
    pub title: Seq<char>,
    pub artist: Seq<char>,
    pub cover_path: Option<Seq<char>>,
}

impl View for SyntheticAlbum {
    type V = AlbumView;

    open spec fn view(&self) -> AlbumView {
        AlbumView {
            id: self.id@,
            title: self.title@,
            artist: self.artist@,
            cover_path: match self.cover_path {
                Some(c) => Some(c@),
                None => None,
            },
        }
    }
}

pub open spec fn album_views(s: Seq<SyntheticAlbum>) -> Seq<AlbumView> {
    s.map_values(|a: SyntheticAlbum| a@)
}

/// The cover path of a track's cover.
pub open spec fn cover_path_of(cover: Seq<char>) -> Seq<char> {
    if is_remote_spec(cover) {
        "directurl:"@ + cover
    } else {
        "ytmusic:_:"@ + cover
    }
}

/// The album a track stands for.
pub open spec fn album_of(t: AlbumTrack) -> AlbumView {
    AlbumView {
        id: t.album_id@,
        title: if t.album@.len() == 0 {
            "Singles"@
        } else {
            t.album@
        },
        artist: t.artist@,
        cover_path: match t.cover {
            Some(c) => Some(cover_path_of(c@)),
            None => None,
        },
    }
}

/// Whether track `i` opens its group: it has an album id and no earlier
/// track has the same one.
pub open spec fn opens_group(tracks: Seq<AlbumTrack>, i: int) -> bool {
    tracks[i].album_id@.len() > 0 && forall|j: int| 0 <= j < i ==> #[trigger] tracks[j].album_id@ != tracks[i].album_id@
}

/// The albums of `tracks`, one per album id, in the order the ids first
/// appear.
pub open spec fn albums_of(tracks: Seq<AlbumTrack>) -> Seq<AlbumView>
    decreases tracks.len(),
{
    if tracks.len() == 0 {
        Seq::<AlbumView>::empty()
    } else {
        let before = albums_of(tracks.drop_last());
        if opens_group(tracks, tracks.len() - 1) {
            before.push(album_of(tracks.last()))
        } else {
            before
        }
    }
}

proof fn lemma_opens_group_prefix(tracks: Seq<AlbumTrack>, i: int)
    requires
        0 <= i < tracks.len(),
    ensures
        opens_group(tracks, i) == opens_group(tracks.take(i + 1), i),
{
    let p = tracks.take(i + 1);
    assert(p[i] == tracks[i]);
    if opens_group(tracks, i) {
        assert forall|j: int| 0 <= j < i implies #[trigger] p[j].album_id@ != p[i].album_id@ by {
            assert(p[j] == tracks[j]);
        }
    }
    if opens_group(p, i) {
        assert forall|j: int| 0 <= j < i implies #[trigger] tracks[j].album_id@ != tracks[i].album_id@ by {
            assert(p[j] == tracks[j]);
            assert(p[j].album_id@ != p[i].album_id@);
        }
    }
}

proof fn lemma_albums_of(tracks: Seq<AlbumTrack>)
    ensures
        forall|k: int| 0 <= k < albums_of(tracks).len() ==> exists|j: int|
            0 <= j < tracks.len() && #[trigger] albums_of(tracks)[k].id == tracks[j].album_id@,
        forall|a: int, b: int|
            0 <= a < b < albums_of(tracks).len() ==> #[trigger] albums_of(tracks)[a].id != #[trigger] albums_of(tracks)[b].id,
        forall|j: int|
            0 <= j < tracks.len() && tracks[j].album_id@.len() > 0 ==> exists|k: int|
                0 <= k < albums_of(tracks).len() && #[trigger] albums_of(tracks)[k].id == #[trigger] tracks[j].album_id@,
    decreases tracks.len(),
{
    if tracks.len() > 0 {
        let prev = tracks.drop_last();
        let last = tracks.len() - 1;
        lemma_albums_of(prev);
        let before = albums_of(prev);
        let r = albums_of(tracks);
        assert forall|j: int| 0 <= j < prev.len() implies #[trigger] prev[j] == tracks[j] by {}
        if opens_group(tracks, last) {
            assert(r == before.push(album_of(tracks[last])));
            assert forall|k: int| 0 <= k < r.len() implies exists|j: int|
                0 <= j < tracks.len() && #[trigger] r[k].id == tracks[j].album_id@ by {
                if k < before.len() {
                    let j = choose|j: int| 0 <= j < prev.len() && before[k].id == prev[j].album_id@;
                    assert(r[k].id == tracks[j].album_id@);
                } else {
                    assert(r[k].id == tracks[last].album_id@);
                }
            }
            assert forall|a: int, b: int| 0 <= a < b < r.len() implies #[trigger] r[a].id != #[trigger] r[b].id by {
                if b == before.len() {
                    let j = choose|j: int| 0 <= j < prev.len() && before[a].id == prev[j].album_id@;
                    assert(tracks[j].album_id@ != tracks[last].album_id@);
                } else {
                    assert(r[a] == before[a] && r[b] == before[b]);
                }
            }
            assert forall|j: int| 0 <= j < tracks.len() && tracks[j].album_id@.len() > 0 implies exists|k: int|
                0 <= k < r.len() && #[trigger] r[k].id == #[trigger] tracks[j].album_id@ by {
                if j < last {
                    let k = choose|k: int| 0 <= k < before.len() && before[k].id == prev[j].album_id@;
                    assert(r[k] == before[k]);
                } else {
                    assert(r[before.len() as int].id == tracks[last].album_id@);
                }
            }
        } else {
            assert(r == before);
            assert forall|k: int| 0 <= k < r.len() implies exists|j: int|
                0 <= j < tracks.len() && #[trigger] r[k].id == tracks[j].album_id@ by {
                let j = choose|j: int| 0 <= j < prev.len() && before[k].id == prev[j].album_id@;
                assert(r[k].id == tracks[j].album_id@);
            }
            assert forall|j: int| 0 <= j < tracks.len() && tracks[j].album_id@.len() > 0 implies exists|k: int|
                0 <= k < r.len() && #[trigger] r[k].id == #[trigger] tracks[j].album_id@ by {
                if j < last {
                    let k = choose|k: int| 0 <= k < before.len() && before[k].id == prev[j].album_id@;
                } else {
                    let i = choose|i: int| 0 <= i < last && #[trigger] tracks[i].album_id@ == tracks[last].album_id@;
                    let k = choose|k: int| 0 <= k < before.len() && before[k].id == prev[i].album_id@;
                    assert(r[k].id == tracks[j].album_id@);
                }
            }
        }
    }
}

/// The synthetic albums have distinct ids, and every track with an album id
/// has its album among them.
pub proof fn law_one_album_per_id(tracks: Seq<AlbumTrack>)
    ensures
        forall|a: int, b: int|
            0 <= a < b < albums_of(tracks).len() ==> #[trigger] albums_of(tracks)[a].id != #[trigger] albums_of(tracks)[b].id,
        forall|j: int|
            0 <= j < tracks.len() && tracks[j].album_id@.len() > 0 ==> exists|k: int|
                0 <= k < albums_of(tracks).len() && #[trigger] albums_of(tracks)[k].id == #[trigger] tracks[j].album_id@,
{
    lemma_albums_of(tracks);
}

fn cover_path(cover: &str) -> (res: String)
    ensures
        res@ == cover_path_of(cover@),
{
    let mut out = if is_remote(cover) {
        "directurl:".to_string()
    } else {
        "ytmusic:_:".to_string()
    };
    push_str(&mut out, cover);
    out
}

fn make_album(t: &AlbumTrack) -> (res: SyntheticAlbum)
    ensures
        res@ == album_of(*t),
{
    let title = if t.album.unicode_len() == 0 {
        "Singles".to_string()
    } else {
        t.album.clone()
    };
    let cover_path = match &t.cover {
        Some(c) => Some(cover_path(c.as_str())),
        None => None,
    };
    SyntheticAlbum { id: t.album_id.clone(), title, artist: t.artist.clone(), cover_path }
}

/// One album per album id, in the order the ids first appear; tracks
/// without an album id are left out.
pub fn synthesize_albums(tracks: &Vec<AlbumTrack>) -> (res: Vec<SyntheticAlbum>)
    ensures
        album_views(res@) == albums_of(tracks@),
{
    let n = tracks.len();
    let mut out: Vec<SyntheticAlbum> = Vec::new();
    let mut i: usize = 0;
    while i < n
        invariant
            n == tracks@.len(),
            i <= n,
            album_views(out@) == albums_of(tracks@.take(i as int)),
        decreases n - i,
    {
        let t = &tracks[i];
        let mut seen = t.album_id.unicode_len() == 0;
        let mut j: usize = 0;
        while j < i && !seen
            invariant
                n == tracks@.len(),
                i < n,
                j <= i,
                t == tracks@[i as int],
                seen == (t.album_id@.len() == 0 || exists|k: int| 0 <= k < j && #[trigger] tracks@[k].album_id@ == t.album_id@),
            decreases i - j,
        {
            if crate::text::str_equals(tracks[j].album_id.as_str(), t.album_id.as_str()) {
                seen = true;
            }
            j = j + 1;
        }
        proof {
            let p = tracks@.take(i + 1);
            assert(p.drop_last() =~= tracks@.take(i as int));
            assert(p.last() == tracks@[i as int]);
            lemma_opens_group_prefix(tracks@, i as int);
            assert(seen == !opens_group(tracks@, i as int));
        }
        if !seen {
            let ghost before = out@;
            out.push(make_album(t));
            proof {
                assert(album_views(out@) =~= album_views(before).push(album_of(tracks@[i as int])));
            }
        }
        i = i + 1;
    }
    proof {
        assert(tracks@.take(n as int) =~= tracks@);
    }
    out
}

} // verus!
