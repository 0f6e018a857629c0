//! A reference Kopuz plugin that serves a folder of audio files: the index
//! of the folder, the protocol methods it answers, and the routing of its
//! byte server.

use crate::radio::{lemma_name_le_total, lemma_name_le_trans, name_le, name_less_or_equal};
use crate::text::{contains, contains_seq, has_prefix, is_whitespace, is_ws, lead_count, lemma_lead_count_unique, lowercase, push_str, starts_with, str_equals, to_lowercase, ws, decimal, lemma_decimal_digits, lemma_decimal_injective, eq_ignore_ascii_case, equals_ignore_ascii_case, push_char, push_decimal};
use vstd::prelude::*;
use vstd::string::*;

verus! {

/// The protocol this plugin speaks; must equal the host's.
pub const PROTOCOL_VERSION: u32 = 1;

/// What the folder scan hands over for one directory entry: its path, its
/// extension and file stem where they are valid text, and its size.
#[derive(Clone, Debug)]
pub struct Entry {
    pub path: String,
    pub extension: Option<String>,
    pub stem: Option<String>,
    pub size: u64,
}

/// One indexed file.
#[derive(Clone, Debug)]
pub struct Item {
    pub id: String,
    pub title: String,
    pub path: String,
    pub size: u64,
}

pub struct ItemView {
    pub id: Seq<char>,
    pub title: Seq<char>,
    pub path: Seq<char>,
    pub size: u64,
}

impl View for Item {
    type V = ItemView;

    open spec fn view(&self) -> ItemView {
        ItemView { id: self.id@, title: self.title@, path: self.path@, size: self.size }
    }
}

pub open spec fn item_views(items: Seq<Item>) -> Seq<ItemView> {
    items.map_values(|item: Item| item@)
}

/// Whether an extension is one the indexer picks up (`mp3`, `flac`, `ogg`,
/// `opus`, `m4a`, `wav`, in any ASCII case).
pub open spec fn is_audio_extension(ext: Seq<char>) -> bool {
    ||| eq_ignore_ascii_case(ext, "mp3"@)
    ||| eq_ignore_ascii_case(ext, "flac"@)
    ||| eq_ignore_ascii_case(ext, "ogg"@)
    ||| eq_ignore_ascii_case(ext, "opus"@)
    ||| eq_ignore_ascii_case(ext, "m4a"@)
    ||| eq_ignore_ascii_case(ext, "wav"@)
}

/// Whether an extension is one the indexer picks up.
pub fn audio_extension(ext: &str) -> (res: bool)
    ensures
        res == is_audio_extension(ext@),
{
    equals_ignore_ascii_case(ext, "mp3") || equals_ignore_ascii_case(ext, "flac")
        || equals_ignore_ascii_case(ext, "ogg") || equals_ignore_ascii_case(ext, "opus")
        || equals_ignore_ascii_case(ext, "m4a") || equals_ignore_ascii_case(ext, "wav")
}

/// Whether a directory entry becomes an item: an audio extension and a
/// file stem.
pub open spec fn qualifies(e: Entry) -> bool {
    &&& e.extension matches Some(ext) && is_audio_extension(ext@)
    &&& e.stem is Some
}

/// The id of the `n`-th file found: `f` and `n` in decimal, so it holds no
/// `:` or `/`, which would collide with the host's ref parsing.
pub open spec fn item_id(n: nat) -> Seq<char> {
    seq!['f'] + decimal(n)
}

/// The items the scan finds, in the order it finds them.
pub open spec fn collected(entries: Seq<Entry>) -> Seq<ItemView>
    decreases entries.len(),
{
    if entries.len() == 0 {
        Seq::<ItemView>::empty()
    } else {
        let found = collected(entries.drop_last());
        let e = entries.last();
        if qualifies(e) {
            found.push(
                ItemView {
                    id: item_id(found.len()),
                    title: e.stem.unwrap()@,
                    path: e.path@,
                    size: e.size,
                },
            )
        } else {
            found
        }
    }
}

/// How many leading items of `s` have a title at most `title`.
pub open spec fn title_le_count(s: Seq<ItemView>, title: Seq<char>) -> nat
    decreases s.len(),
{
    if s.len() > 0 && name_le(s[0].title, title) {
        1 + title_le_count(s.drop_first(), title)
    } else {
        0
    }
}

/// `x` inserted into `s` after every leading item whose title is at most
/// its own.
pub open spec fn insert_by_title(s: Seq<ItemView>, x: ItemView) -> Seq<ItemView> {
    s.insert(title_le_count(s, x.title) as int, x)
}

/// `s` stably sorted by title.
pub open spec fn sort_by_title(s: Seq<ItemView>) -> Seq<ItemView>
    decreases s.len(),
{
    if s.len() == 0 {
        s
    } else {
        insert_by_title(sort_by_title(s.drop_last()), s.last())
    }
}

pub open spec fn titles_sorted(s: Seq<ItemView>) -> bool {
    forall|i: int, j: int| 0 <= i < j < s.len() ==> name_le(#[trigger] s[i].title, #[trigger] s[j].title)
}

proof fn lemma_title_le_count_unique(s: Seq<ItemView>, title: Seq<char>, k: nat)
    requires
        k <= s.len(),
        forall|i: int| 0 <= i < k ==> name_le(#[trigger] s[i].title, title),
        k < s.len() ==> !name_le(s[k as int].title, title),
    ensures
        title_le_count(s, title) == k,
    decreases s.len(),
{
    if s.len() > 0 && name_le(s[0].title, title) {
        assert(k > 0);
        assert forall|i: int| 0 <= i < k - 1 implies name_le(#[trigger] s.drop_first()[i].title, title) by {
            assert(s.drop_first()[i] == s[i + 1]);
        }
        if k - 1 < s.len() - 1 {
            assert(s.drop_first()[k - 1] == s[k as int]);
        }
        lemma_title_le_count_unique(s.drop_first(), title, (k - 1) as nat);
    } else {
        if k > 0 {
            assert(name_le(s[0].title, title));
        }
    }
}

proof fn lemma_title_le_count(s: Seq<ItemView>, title: Seq<char>)
    ensures
        title_le_count(s, title) <= s.len(),
        forall|i: int| 0 <= i < title_le_count(s, title) ==> name_le(#[trigger] s[i].title, title),
        title_le_count(s, title) < s.len() ==> !name_le(s[title_le_count(s, title) as int].title, title),
    decreases s.len(),
{
    if s.len() > 0 && name_le(s[0].title, title) {
        lemma_title_le_count(s.drop_first(), title);
        assert forall|i: int| 0 <= i < title_le_count(s, title) implies name_le(#[trigger] s[i].title, title) by {
            if i > 0 {
                assert(s[i] == s.drop_first()[i - 1]);
            }
        }
    }
}

/// A stable sort by title orders the items by title and keeps every one of
/// them.
pub proof fn lemma_sort_by_title(s: Seq<ItemView>)
    ensures
        titles_sorted(sort_by_title(s)),
        sort_by_title(s).to_multiset() == s.to_multiset(),
        sort_by_title(s).len() == s.len(),
    decreases s.len(),
{
    broadcast use vstd::seq_lib::group_to_multiset_ensures;

    if s.len() > 0 {
        let before = sort_by_title(s.drop_last());
        let x = s.last();
        lemma_sort_by_title(s.drop_last());
        lemma_title_le_count(before, x.title);
        let pos = title_le_count(before, x.title) as int;
        let after = before.insert(pos, x);
        assert(sort_by_title(s) == after);
        vstd::seq_lib::to_multiset_insert(before, pos, x);
        assert(s == s.drop_last().push(x));
        vstd::seq_lib::to_multiset_build(s.drop_last(), x);
        assert forall|a: int, b: int| 0 <= a < b < after.len() implies name_le(
            #[trigger] after[a].title,
            #[trigger] after[b].title,
        ) by {
            if b < pos {
                assert(after[a] == before[a]);
                assert(after[b] == before[b]);
            } else if a < pos && b == pos {
                assert(after[a] == before[a]);
            } else if a < pos && b > pos {
                assert(after[a] == before[a]);
                assert(after[b] == before[b - 1]);
            } else if a == pos {
                assert(after[b] == before[b - 1]);
                assert(!name_le(before[pos].title, x.title));
                lemma_name_le_total(before[pos].title, x.title);
                if b - 1 > pos {
                    lemma_name_le_trans(x.title, before[pos].title, before[b - 1].title);
                }
            } else {
                assert(after[a] == before[a - 1]);
                assert(after[b] == before[b - 1]);
            }
        }
    }
}

pub open spec fn ids_distinct(s: Seq<ItemView>) -> bool {
    forall|i: int, j: int| 0 <= i < j < s.len() ==> #[trigger] s[i].id != #[trigger] s[j].id
}

pub open spec fn ids_numbered(s: Seq<ItemView>) -> bool {
    forall|k: int| 0 <= k < s.len() ==> exists|m: nat| m < s.len() && #[trigger] s[k].id == item_id(m)
}

proof fn lemma_item_id_injective(a: nat, b: nat)
    requires
        item_id(a) == item_id(b),
    ensures
        a == b,
{
    assert(item_id(a).subrange(1, item_id(a).len() as int) =~= decimal(a));
    assert(item_id(b).subrange(1, item_id(b).len() as int) =~= decimal(b));
    lemma_decimal_injective(a, b);
}

proof fn lemma_sorted_ids(entries: Seq<Entry>)
    ensures
        sort_by_title(collected(entries)).len() == collected(entries).len(),
        ids_numbered(sort_by_title(collected(entries))),
        ids_distinct(sort_by_title(collected(entries))),
    decreases entries.len(),
{
    if entries.len() > 0 {
        let c = collected(entries.drop_last());
        let rp = sort_by_title(c);
        lemma_sorted_ids(entries.drop_last());
        if qualifies(entries.last()) {
            let x = ItemView {
                id: item_id(c.len()),
                title: entries.last().stem.unwrap()@,
                path: entries.last().path@,
                size: entries.last().size,
            };
            assert(collected(entries) == c.push(x));
            assert(c.push(x).drop_last() =~= c);
            let pos = title_le_count(rp, x.title) as int;
            lemma_title_le_count(rp, x.title);
            let r = rp.insert(pos, x);
            assert(sort_by_title(collected(entries)) == r);
            assert forall|k: int| 0 <= k < r.len() implies exists|m: nat| m < r.len() && #[trigger] r[k].id
                == item_id(m) by {
                if k < pos {
                    assert(r[k] == rp[k]);
                    let m = choose|m: nat| m < rp.len() && rp[k].id == item_id(m);
                    assert(r[k].id == item_id(m));
                } else if k == pos {
                    assert(r[k].id == item_id(c.len()));
                } else {
                    assert(r[k] == rp[k - 1]);
                    let m = choose|m: nat| m < rp.len() && rp[k - 1].id == item_id(m);
                    assert(r[k].id == item_id(m));
                }
            }
            assert forall|k: int| 0 <= k < rp.len() implies #[trigger] rp[k].id != x.id by {
                let m = choose|m: nat| m < rp.len() && rp[k].id == item_id(m);
                if rp[k].id == x.id {
                    lemma_item_id_injective(m, c.len());
                }
            }
            assert forall|i: int, j: int| 0 <= i < j < r.len() implies #[trigger] r[i].id != #[trigger] r[j].id by {
                if j < pos {
                    assert(r[i] == rp[i] && r[j] == rp[j]);
                } else if j == pos {
                    assert(r[i] == rp[i]);
                } else if i < pos {
                    assert(r[i] == rp[i] && r[j] == rp[j - 1]);
                } else if i == pos {
                    assert(r[j] == rp[j - 1]);
                } else {
                    assert(r[i] == rp[i - 1] && r[j] == rp[j - 1]);
                }
            }
        } else {
            assert(collected(entries) == c);
        }
    }
}

/// The ids of an index are distinct, and each is `f` followed by decimal
/// digits, so none holds `:` or `/`.
pub proof fn law_index_ids_are_distinct(entries: Seq<Entry>)
    ensures
        ids_distinct(sort_by_title(collected(entries))),
        forall|k: int, i: int|
            0 <= k < sort_by_title(collected(entries)).len() && 0 <= i < sort_by_title(collected(entries))[k].id.len()
                ==> #[trigger] sort_by_title(collected(entries))[k].id[i] != ':'
                && sort_by_title(collected(entries))[k].id[i] != '/',
{
    lemma_sorted_ids(entries);
    let r = sort_by_title(collected(entries));
    assert forall|k: int, i: int| 0 <= k < r.len() && 0 <= i < r[k].id.len() implies #[trigger] r[k].id[i] != ':'
        && r[k].id[i] != '/' by {
        let m = choose|m: nat| m < r.len() && r[k].id == item_id(m);
        lemma_decimal_digits(m);
        if i > 0 {
            assert(r[k].id[i] == decimal(m)[i - 1]);
        }
    }
}

/// The indexed folder.
pub struct Library {
    items: Vec<Item>,
}

impl View for Library {
    type V = Seq<ItemView>;

    closed spec fn view(&self) -> Seq<ItemView> {
        item_views(self.items@)
    }
}

impl Library {
    /// An empty library, for a folder that cannot be read.
    pub fn empty() -> (res: Library)
        ensures
            res@ == Seq::<ItemView>::empty(),
    {
        let res = Library { items: Vec::new() };
        assert(res@ =~= Seq::<ItemView>::empty());
        res
    }

    /// Indexes a folder's entries: every audio file with a file stem, under
    /// the id of its place in the scan, then stably sorted by title.
    pub fn index(entries: &Vec<Entry>) -> (res: Library)
        ensures
            res@ == sort_by_title(collected(entries@)),
    {
        let n = entries.len();
        let mut items: Vec<Item> = Vec::new();
        let mut count: usize = 0;
        let mut i: usize = 0;
        while i < n
            invariant
                n == entries@.len(),
                i <= n,
                count == collected(entries@.take(i as int)).len(),
                count <= i,
                items@.len() == count,
                item_views(items@) == sort_by_title(collected(entries@.take(i as int))),
            decreases n - i,
        {
            let e = &entries[i];
            let ghost prev = collected(entries@.take(i as int));
            proof {
                assert(entries@.take(i + 1).drop_last() =~= entries@.take(i as int));
                assert(entries@.take(i + 1).last() == entries@[i as int]);
                lemma_sort_by_title(prev);
            }
            let audio = match &e.extension {
                Some(ext) => audio_extension(ext.as_str()),
                None => false,
            };
            if audio {
                if let Some(stem) = &e.stem {
                    let mut id = String::new();
                    push_char(&mut id, 'f');
                    push_decimal(&mut id, count as u64);
                    assert(id@ =~= item_id(count as nat));
                    let item = Item { id, title: stem.clone(), path: e.path.clone(), size: e.size };
                    let len = items.len();
                    let mut pos: usize = 0;
                    while pos < len && name_less_or_equal(items[pos].title.as_str(), item.title.as_str())
                        invariant
                            len == items@.len(),
                            pos <= len,
                            forall|k: int| 0 <= k < pos ==> name_le(#[trigger] items@[k].title@, item.title@),
                        decreases len - pos,
                    {
                        pos = pos + 1;
                    }
                    let ghost before = item_views(items@);
                    proof {
                        assert forall|k: int| 0 <= k < pos implies name_le(#[trigger] before[k].title, item.title@) by {
                            assert(before[k] == items@[k]@);
                        }
                        if pos < len {
                            assert(before[pos as int] == items@[pos as int]@);
                        }
                        lemma_title_le_count_unique(before, item.title@, pos as nat);
                    }
                    items.insert(pos, item);
                    proof {
                        assert(item_views(items@) =~= before.insert(pos as int, item@));
                        let x = items@[pos as int]@;
                        assert(collected(entries@.take(i + 1)) == prev.push(x));
                        assert(prev.push(x).drop_last() =~= prev);
                        assert(sort_by_title(prev.push(x)) == insert_by_title(sort_by_title(prev), x));
                    }
                    count = count + 1;
                }
            }
            proof {
                if !qualifies(entries@[i as int]) {
                    assert(collected(entries@.take(i + 1)) == prev);
                }
            }
            i = i + 1;
        }
        proof {
            assert(entries@.take(n as int) =~= entries@);
        }
        Library { items }
    }

    /// The items, ordered by title.
    pub fn items(&self) -> (res: &Vec<Item>)
        ensures
            item_views(res@) == self@,
    {
        &self.items
    }

    /// The item with the given id, if any (the first, were there several).
    pub fn get(&self, id: &str) -> (res: Option<&Item>)
        ensures
            match res {
                Some(item) => exists|i: int|
                    0 <= i < self@.len() && item@ == self@[i] && self@[i].id == id@ && forall|j: int|
                        0 <= j < i ==> self@[j].id != id@,
                None => forall|i: int| 0 <= i < self@.len() ==> self@[i].id != id@,
            },
    {
        let n = self.items.len();
        let mut i: usize = 0;
        while i < n
            invariant
                n == self.items@.len(),
                i <= n,
                forall|j: int| 0 <= j < i ==> self.items@[j].id@ != id@,
            decreases n - i,
        {
            if crate::text::str_equals(self.items[i].id.as_str(), id) {
                assert(self@[i as int] == self.items@[i as int]@);
                return Some(&self.items[i]);
            }
            i = i + 1;
        }
        None
    }
}


/// How a protocol method failed: the `kind` of the JSON-RPC error.
#[derive(Clone, Copy, Debug, PartialEq, Eq, Structural)]
pub enum ErrorKind {
    InvalidInput,
    Unsupported,
}

impl ErrorKind {
    /// The kind as the protocol names it.
    pub fn name(self) -> (res: &'static str)
        ensures
            self == ErrorKind::InvalidInput ==> res@ == "invalid_input"@,
            self == ErrorKind::Unsupported ==> res@ == "unsupported"@,
    {
        match self {
            ErrorKind::InvalidInput => "invalid_input",
            ErrorKind::Unsupported => "unsupported",
        }
    }
}

/// A failed protocol method: its kind and a message for people.
#[derive(Debug)]
pub struct CallError {
    pub kind: ErrorKind,
    pub message: String,
}

/// The parameters the methods read: `query` for `search`, `item_id` for
/// `resolve_stream`, each when the request carries it as a string.
#[derive(Clone, Debug)]
pub struct Params {
    pub query: Option<String>,
    pub item_id: Option<String>,
}

/// What a protocol method answers, before it is written as JSON.
#[derive(Debug)]
pub enum Reply<'a> {
    /// `initialize`: the protocol version, and where and with which token
    /// the bytes are served.
    Initialize { protocol: u32, base_url: String, token: String },
    /// `ping`: a null result.
    Null,
    /// `validate`: the credentials are valid (there are none).
    Valid,
    /// `auth_begin`, `auth_submit`: nothing to sign in to.
    Done,
    /// `fetch_library`: every item, in one album for the folder.
    Library { tracks: Vec<&'a Item> },
    /// `fetch_favorites`: no favorites.
    NoFavorites,
    /// `search`: the items whose title holds the query, ignoring case.
    Search { tracks: Vec<&'a Item> },
    /// `resolve_stream`: where the bytes of an item are served.
    Stream { url: String, content_length: u64 },
}

pub open spec fn ref_views(s: Seq<&Item>) -> Seq<ItemView> {
    s.map_values(|item: &Item| item@)
}

/// Whether an item's title holds the (lowercased) query, ignoring case.
pub open spec fn title_matches(query: Seq<char>) -> spec_fn(ItemView) -> bool {
    |item: ItemView| contains_seq(lowercase(item.title), query)
}

/// Where the bytes of item `id` are served.
pub open spec fn stream_url(base_url: Seq<char>, token: Seq<char>, id: Seq<char>) -> Seq<char> {
    base_url + "/a/"@ + token + "/"@ + id
}

/// The methods the plugin answers.
pub open spec fn known_method(m: Seq<char>) -> bool {
    ||| m == "initialize"@
    ||| m == "ping"@
    ||| m == "validate"@
    ||| m == "auth_begin"@
    ||| m == "auth_submit"@
    ||| m == "fetch_library"@
    ||| m == "fetch_favorites"@
    ||| m == "search"@
    ||| m == "resolve_stream"@
}

/// The first item of `items` with id `id`, if any.
pub open spec fn first_with_id(items: Seq<ItemView>, id: Seq<char>) -> Option<int> {
    if exists|i: int| 0 <= i < items.len() && items[i].id == id {
        Some(choose|i: int| 0 <= i < items.len() && items[i].id == id && forall|j: int| 0 <= j < i ==> items[j].id != id)
    } else {
        None
    }
}

proof fn lemma_methods_distinct()
    ensures
        "initialize"@ != "ping"@,
        "initialize"@ != "validate"@,
        "initialize"@ != "auth_begin"@,
        "initialize"@ != "auth_submit"@,
        "initialize"@ != "fetch_library"@,
        "initialize"@ != "fetch_favorites"@,
        "initialize"@ != "search"@,
        "initialize"@ != "resolve_stream"@,
        "ping"@ != "validate"@,
        "ping"@ != "auth_begin"@,
        "ping"@ != "auth_submit"@,
        "ping"@ != "fetch_library"@,
        "ping"@ != "fetch_favorites"@,
        "ping"@ != "search"@,
        "ping"@ != "resolve_stream"@,
        "validate"@ != "auth_begin"@,
        "validate"@ != "auth_submit"@,
        "validate"@ != "fetch_library"@,
        "validate"@ != "fetch_favorites"@,
        "validate"@ != "search"@,
        "validate"@ != "resolve_stream"@,
        "auth_begin"@ != "auth_submit"@,
        "auth_begin"@ != "fetch_library"@,
        "auth_begin"@ != "fetch_favorites"@,
        "auth_begin"@ != "search"@,
        "auth_begin"@ != "resolve_stream"@,
        "auth_submit"@ != "fetch_library"@,
        "auth_submit"@ != "fetch_favorites"@,
        "auth_submit"@ != "search"@,
        "auth_submit"@ != "resolve_stream"@,
        "fetch_library"@ != "fetch_favorites"@,
        "fetch_library"@ != "search"@,
        "fetch_library"@ != "resolve_stream"@,
        "fetch_favorites"@ != "search"@,
        "fetch_favorites"@ != "resolve_stream"@,
        "search"@ != "resolve_stream"@,
{
    reveal_strlit("initialize");
    reveal_strlit("ping");
    reveal_strlit("validate");
    reveal_strlit("auth_begin");
    reveal_strlit("auth_submit");
    reveal_strlit("fetch_library");
    reveal_strlit("fetch_favorites");
    reveal_strlit("search");
    reveal_strlit("resolve_stream");
    assert("initialize"@.len() != "ping"@.len());
    assert("initialize"@.len() != "validate"@.len());
    assert("initialize"@[0] != "auth_begin"@[0]);
    assert("initialize"@.len() != "auth_submit"@.len());
    assert("initialize"@.len() != "fetch_library"@.len());
    assert("initialize"@.len() != "fetch_favorites"@.len());
    assert("initialize"@.len() != "search"@.len());
    assert("initialize"@.len() != "resolve_stream"@.len());
    assert("ping"@.len() != "validate"@.len());
    assert("ping"@.len() != "auth_begin"@.len());
    assert("ping"@.len() != "auth_submit"@.len());
    assert("ping"@.len() != "fetch_library"@.len());
    assert("ping"@.len() != "fetch_favorites"@.len());
    assert("ping"@.len() != "search"@.len());
    assert("ping"@.len() != "resolve_stream"@.len());
    assert("validate"@.len() != "auth_begin"@.len());
    assert("validate"@.len() != "auth_submit"@.len());
    assert("validate"@.len() != "fetch_library"@.len());
    assert("validate"@.len() != "fetch_favorites"@.len());
    assert("validate"@.len() != "search"@.len());
    assert("validate"@.len() != "resolve_stream"@.len());
    assert("auth_begin"@.len() != "auth_submit"@.len());
    assert("auth_begin"@.len() != "fetch_library"@.len());
    assert("auth_begin"@.len() != "fetch_favorites"@.len());
    assert("auth_begin"@.len() != "search"@.len());
    assert("auth_begin"@.len() != "resolve_stream"@.len());
    assert("auth_submit"@.len() != "fetch_library"@.len());
    assert("auth_submit"@.len() != "fetch_favorites"@.len());
    assert("auth_submit"@.len() != "search"@.len());
    assert("auth_submit"@.len() != "resolve_stream"@.len());
    assert("fetch_library"@.len() != "fetch_favorites"@.len());
    assert("fetch_library"@.len() != "search"@.len());
    assert("fetch_library"@.len() != "resolve_stream"@.len());
    assert("fetch_favorites"@.len() != "search"@.len());
    assert("fetch_favorites"@.len() != "resolve_stream"@.len());
    assert("search"@.len() != "resolve_stream"@.len());
}

/// The plugin: the indexed folder and the address and token of its byte
/// server.
pub struct Plugin {
    pub library: Library,
    pub base_url: String,
    pub token: String,
}

pub open spec fn not_ws() -> spec_fn(char) -> bool {
    |c: char| !is_ws(c)
}

pub open spec fn not_char(ch: char) -> spec_fn(char) -> bool {
    |c: char| c != ch
}

/// The second whitespace-separated word of `s`, or nothing: what
/// `s.split_whitespace().nth(1).unwrap_or_default()` gives.
pub open spec fn second_word(s: Seq<char>) -> Seq<char> {
    let s1 = s.skip(lead_count(s, ws()) as int);
    let s2 = s1.skip(lead_count(s1, not_ws()) as int);
    let s3 = s2.skip(lead_count(s2, ws()) as int);
    s3.take(lead_count(s3, not_ws()) as int)
}

/// The item id a request target `/a/<token>/<id>` names, when its token is
/// the server's.
pub open spec fn routed_id(target: Seq<char>, token: Seq<char>) -> Option<Seq<char>> {
    if has_prefix(target, "/a/"@) {
        let rest = target.skip(3);
        let k = lead_count(rest, not_char('/'));
        if k < rest.len() && rest.take(k as int) == token {
            Some(rest.skip(k as int + 1))
        } else {
            None
        }
    } else {
        None
    }
}

/// Index of the first character at or after `start` that `ws` does not
/// describe: a whitespace character when `ws` is false, a non-whitespace
/// one when it is true.
fn scan_ws(s: &str, n: usize, start: usize, ws_run: bool) -> (end: usize)
    requires
        n == s@.len(),
        start <= n,
    ensures
        start <= end <= n,
        end - start == lead_count(s@.skip(start as int), if ws_run { ws() } else { not_ws() }),
{
    let mut end = start;
    while end < n && is_whitespace(s.get_char(end)) == ws_run
        invariant
            n == s@.len(),
            start <= end <= n,
            forall|i: int| start <= i < end ==> is_ws(#[trigger] s@[i]) == ws_run,
        decreases n - end,
    {
        end = end + 1;
    }
    proof {
        let t = s@.skip(start as int);
        let p = if ws_run { ws() } else { not_ws() };
        assert forall|i: int| 0 <= i < end - start implies p(#[trigger] t[i]) by {
            assert(t[i] == s@[start + i]);
        }
        if end < n {
            assert(t[end - start] == s@[end as int]);
        }
        lemma_lead_count_unique(t, p, (end - start) as nat);
    }
    end
}

fn scan_to(s: &str, n: usize, start: usize, ch: char) -> (end: usize)
    requires
        n == s@.len(),
        start <= n,
    ensures
        start <= end <= n,
        end - start == lead_count(s@.skip(start as int), not_char(ch)),
{
    let mut end = start;
    while end < n && s.get_char(end) != ch
        invariant
            n == s@.len(),
            start <= end <= n,
            forall|i: int| start <= i < end ==> #[trigger] s@[i] != ch,
        decreases n - end,
    {
        end = end + 1;
    }
    proof {
        let t = s@.skip(start as int);
        assert forall|i: int| 0 <= i < end - start implies (not_char(ch))(#[trigger] t[i]) by {
            assert(t[i] == s@[start + i]);
        }
        if end < n {
            assert(t[end - start] == s@[end as int]);
        }
        lemma_lead_count_unique(t, not_char(ch), (end - start) as nat);
    }
    end
}

/// The second whitespace-separated word of a request line.
pub fn request_target(line: &str) -> (res: &str)
    ensures
        res@ == second_word(line@),
{
    let n = line.unicode_len();
    let a = scan_ws(line, n, 0, true);
    let b = scan_ws(line, n, a, false);
    let c = scan_ws(line, n, b, true);
    let d = scan_ws(line, n, c, false);
    proof {
        let s = line@;
        assert(s.skip(0) =~= s);
        let s1 = s.skip(lead_count(s, ws()) as int);
        assert(s1 =~= s.skip(a as int));
        let s2 = s1.skip(lead_count(s1, not_ws()) as int);
        assert(s2 =~= s.skip(b as int));
        let s3 = s2.skip(lead_count(s2, ws()) as int);
        assert(s3 =~= s.skip(c as int));
        assert(s3.take(lead_count(s3, not_ws()) as int) =~= s.subrange(c as int, d as int));
    }
    line.substring_char(c, d)
}

impl Plugin {
    pub fn new(library: Library, base_url: String, token: String) -> (res: Plugin)
        ensures
            res.library@ == library@,
            res.base_url@ == base_url@,
            res.token@ == token@,
    {
        Plugin { library, base_url, token }
    }

    /// The item a request line for the byte server asks for: the target
    /// `/a/<token>/<id>` with this server's token and a known id. Anything
    /// else is answered 404, a wrong token no differently from a missing
    /// item.
    pub fn route(&self, line: &str) -> (res: Option<&Item>)
        ensures
            match routed_id(second_word(line@), self.token@) {
                None => res is None,
                Some(id) => match first_with_id(self.library@, id) {
                    None => res is None,
                    Some(i) => res matches Some(item) && item@ == self.library@[i],
                },
            },
    {
        let target = request_target(line);
        let n = target.unicode_len();
        if !starts_with(target, "/a/") {
            return None;
        }
        proof {
            reveal_strlit("/a/");
        }
        let k = scan_to(target, n, 3, '/');
        if k == n {
            return None;
        }
        let token = target.substring_char(3, k);
        proof {
            assert(token@ =~= target@.skip(3).take(k - 3));
        }
        if !str_equals(token, self.token.as_str()) {
            return None;
        }
        let id = target.substring_char(k + 1, n);
        proof {
            assert(id@ =~= target@.skip(3).skip(k - 3 + 1));
        }
        let res = self.library.get(id);
        proof {
            let lib = self.library@;
            match res {
                Some(item) => {
                    let i = choose|i: int|
                        0 <= i < lib.len() && item@ == lib[i] && lib[i].id == id@ && forall|j: int|
                            0 <= j < i ==> lib[j].id != id@;
                    assert(exists|i: int| 0 <= i < lib.len() && lib[i].id == id@);
                    let c = first_with_id(lib, id@)->0;
                    // Both are the first index holding the id.
                    assert(c == i) by {
                        if c < i {
                        } else if c > i {
                        }
                    }
                },
                None => {},
            }
        }
        res
    }

    /// Answers one protocol method. A method the plugin does not implement
    /// is an `Unsupported` error rather than an empty success.
    pub fn call(&self, method: &str, params: &Params) -> (res: Result<Reply, CallError>)
        ensures
            method@ == "initialize"@ ==> (res matches Ok(Reply::Initialize { protocol, base_url, token })
                && protocol == PROTOCOL_VERSION && base_url@ == self.base_url@ && token@ == self.token@),
            method@ == "ping"@ ==> (res matches Ok(Reply::Null)),
            method@ == "validate"@ ==> (res matches Ok(Reply::Valid)),
            method@ == "auth_begin"@ || method@ == "auth_submit"@ ==> (res matches Ok(Reply::Done)),
            method@ == "fetch_library"@ ==> (res matches Ok(Reply::Library { tracks })
                && ref_views(tracks@) == self.library@),
            method@ == "fetch_favorites"@ ==> (res matches Ok(Reply::NoFavorites)),
            method@ == "search"@ ==> (res matches Ok(Reply::Search { tracks }) && ref_views(tracks@)
                == self.library@.filter(
                title_matches(
                    lowercase(
                        match params.query {
                            Some(q) => q@,
                            None => Seq::<char>::empty(),
                        },
                    ),
                ),
            )),
            method@ == "resolve_stream"@ ==> match params.item_id {
                None => (res matches Err(e) && e.kind == ErrorKind::InvalidInput && e.message@
                    == "item_id is required"@),
                Some(id) => match first_with_id(self.library@, id@) {
                    None => (res matches Err(e) && e.kind == ErrorKind::InvalidInput && e.message@
                        == "no item "@ + id@),
                    Some(i) => (res matches Ok(Reply::Stream { url, content_length }) && url@ == stream_url(
                        self.base_url@,
                        self.token@,
                        self.library@[i].id,
                    ) && content_length == self.library@[i].size),
                },
            },
            !known_method(method@) ==> (res matches Err(e) && e.kind == ErrorKind::Unsupported
                && e.message@ == "the example plugin does not implement "@ + method@),
    {
        proof {
            lemma_methods_distinct();
        }
        if str_equals(method, "initialize") {
            Ok(Reply::Initialize { protocol: PROTOCOL_VERSION, base_url: self.base_url.clone(), token: self.token.clone() })
        } else if str_equals(method, "ping") {
            Ok(Reply::Null)
        } else if str_equals(method, "validate") {
            Ok(Reply::Valid)
        } else if str_equals(method, "auth_begin") || str_equals(method, "auth_submit") {
            Ok(Reply::Done)
        } else if str_equals(method, "fetch_library") {
            let items = self.library.items();
            let n = items.len();
            let mut tracks: Vec<&Item> = Vec::new();
            let mut i: usize = 0;
            while i < n
                invariant
                    n == items@.len(),
                    item_views(items@) == self.library@,
                    i <= n,
                    ref_views(tracks@) == self.library@.take(i as int),
                decreases n - i,
            {
                let ghost before = tracks@;
                tracks.push(&items[i]);
                proof {
                    assert(self.library@[i as int] == items@[i as int]@);
                    assert(ref_views(tracks@) =~= ref_views(before).push(items@[i as int]@));
                    assert(ref_views(tracks@) =~= self.library@.take(i + 1));
                }
                i = i + 1;
            }
            proof {
                assert(self.library@.take(n as int) =~= self.library@);
            }
            Ok(Reply::Library { tracks })
        } else if str_equals(method, "fetch_favorites") {
            Ok(Reply::NoFavorites)
        } else if str_equals(method, "search") {
            let query = match &params.query {
                Some(q) => to_lowercase(q.as_str()),
                None => {
                    proof {
                        reveal_strlit("");
                        assert(""@ =~= Seq::<char>::empty());
                    }
                    to_lowercase("")
                },
            };
            Ok(Reply::Search { tracks: self.search(query.as_str()) })
        } else if str_equals(method, "resolve_stream") {
            match &params.item_id {
                None => Err(CallError { kind: ErrorKind::InvalidInput, message: "item_id is required".to_string() }),
                Some(id) => match self.library.get(id.as_str()) {
                    None => {
                        let mut message = "no item ".to_string();
                        push_str(&mut message, id.as_str());
                        Err(CallError { kind: ErrorKind::InvalidInput, message })
                    },
                    Some(item) => {
                        let mut url = self.base_url.clone();
                        push_str(&mut url, "/a/");
                        push_str(&mut url, self.token.as_str());
                        push_str(&mut url, "/");
                        push_str(&mut url, item.id.as_str());
                        Ok(Reply::Stream { url, content_length: item.size })
                    },
                },
            }
        } else {
            let mut message = "the example plugin does not implement ".to_string();
            push_str(&mut message, method);
            Err(CallError { kind: ErrorKind::Unsupported, message })
        }
    }

    /// The items a (lowercased) query finds, in library order.
    fn search(&self, query: &str) -> (res: Vec<&Item>)
        ensures
            ref_views(res@) == self.library@.filter(title_matches(query@)),
    {
        let items = self.library.items();
        let n = items.len();
        let mut out: Vec<&Item> = Vec::new();
        let mut i: usize = 0;
        while i < n
            invariant
                n == items@.len(),
                item_views(items@) == self.library@,
                i <= n,
                ref_views(out@) == self.library@.take(i as int).filter(title_matches(query@)),
            decreases n - i,
        {
            let item = &items[i];
            let title = to_lowercase(item.title.as_str());
            let found = contains(title.as_str(), query);
            let ghost lib = self.library@;
            let ghost p = title_matches(query@);
            proof {
                assert(lib[i as int] == items@[i as int]@);
                assert(lib.take(i + 1).drop_last() =~= lib.take(i as int));
                assert(lib.take(i + 1).last() == item@);
                assert(p(item@) == found);
                reveal(Seq::filter);
            }
            if found {
                let ghost before = out@;
                out.push(item);
                proof {
                    assert(ref_views(out@) =~= ref_views(before).push(item@));
                    assert(lib.take(i + 1).filter(p) == lib.take(i as int).filter(p).push(item@));
                }
            } else {
                proof {
                    assert(lib.take(i + 1).filter(p) == lib.take(i as int).filter(p));
                }
            }
            i = i + 1;
        }
        proof {
            assert(self.library@.take(n as int) =~= self.library@);
        }
        out
    }
}

} // verus!
