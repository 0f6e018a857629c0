//! Internet radio: the station registry, where a registry's manifests are
//! found, and how the station list is filtered.

use crate::text::{str_equals, contains, contains_seq, has_prefix, lowercase, starts_with, to_lowercase, trim, trimmed};
use vstd::prelude::*;
use vstd::string::*;

verus! {

/// One stream a station offers.
#[derive(Clone, Debug, PartialEq, Eq)]
pub struct StreamDef {
    pub id: String,
    pub name: String,
    pub url: String,
}

/// A station's manifest.
#[derive(Clone, Debug, PartialEq, Eq)]
pub struct StationManifest {
    pub schema_version: String,
    pub id: String,
    pub name: String,
    pub description: String,
    pub streams: Vec<StreamDef>,
}

/// A registry's index: its name and where each station's manifest lives.
#[derive(Clone, Debug, PartialEq, Eq)]
pub struct RegistryIndex {
    pub registry_name: String,
    pub description: String,
    pub stations: Vec<RegistryStationRef>,
}

#[derive(Clone, Debug, PartialEq, Eq)]
pub struct RegistryStationRef {
    pub id: String,
    pub manifest_url: String,
}

impl StreamDef {
    /// A copy of this stream entry.
    pub fn duplicate(&self) -> (res: Self)
        ensures
            res == *self,
    {
        StreamDef { id: self.id.clone(), name: self.name.clone(), url: self.url.clone() }
    }
}

/// Two manifests with the same fields.
pub open spec fn same_manifest(a: StationManifest, b: StationManifest) -> bool {
    &&& a.schema_version == b.schema_version
    &&& a.id == b.id
    &&& a.name == b.name
    &&& a.description == b.description
    &&& a.streams@ == b.streams@
}

impl StationManifest {
    /// A copy of this manifest.
    pub fn duplicate(&self) -> (res: Self)
        ensures
            same_manifest(res, *self),
    {
        let mut streams: Vec<StreamDef> = Vec::new();
        let n = self.streams.len();
        let mut i: usize = 0;
        while i < n
            invariant
                n == self.streams@.len(),
                i <= n,
                streams@ == self.streams@.take(i as int),
            decreases n - i,
        {
            streams.push(self.streams[i].duplicate());
            i = i + 1;
            proof {
                assert(streams@ =~= self.streams@.take(i as int));
            }
        }
        proof {
            assert(streams@ =~= self.streams@);
        }
        StationManifest {
            schema_version: self.schema_version.clone(),
            id: self.id.clone(),
            name: self.name.clone(),
            description: self.description.clone(),
            streams,
        }
    }
}

/// The stream provider of one station.
#[derive(Clone, Debug, PartialEq, Eq)]
pub struct DynamicProvider {
    pub manifest: StationManifest,
}

impl DynamicProvider {
    pub fn new(manifest: StationManifest) -> (res: Self)
        ensures
            res.manifest == manifest,
    {
        DynamicProvider { manifest }
    }
}

/// The imported stations, at most one per id.
#[derive(Debug)]
pub struct StationRegistry {
    stations: Vec<StationManifest>,
}

/// Lexicographic order of names by character, which is how `String`
/// compares.
pub open spec fn name_le(a: Seq<char>, b: Seq<char>) -> bool
    decreases a.len(),
{
    if a.len() == 0 {
        true
    } else if b.len() == 0 {
        false
    } else if a[0] != b[0] {
        a[0] < b[0]
    } else {
        name_le(a.drop_first(), b.drop_first())
    }
}

pub proof fn lemma_name_le_total(a: Seq<char>, b: Seq<char>)
    ensures
        name_le(a, b) || name_le(b, a),
    decreases a.len(),
{
    if a.len() > 0 && b.len() > 0 && a[0] == b[0] {
        lemma_name_le_total(a.drop_first(), b.drop_first());
    }
}

pub proof fn lemma_name_le_trans(a: Seq<char>, b: Seq<char>, c: Seq<char>)
    requires
        name_le(a, b),
        name_le(b, c),
    ensures
        name_le(a, c),
    decreases a.len(),
{
    if a.len() > 0 && b.len() > 0 && c.len() > 0 && a[0] == b[0] && b[0] == c[0] {
        lemma_name_le_trans(a.drop_first(), b.drop_first(), c.drop_first());
    }
}

/// Compares two names as `String`'s ordering does.
pub fn name_less_or_equal(a: &str, b: &str) -> (res: bool)
    ensures
        res == name_le(a@, b@),
{
    let n = a.unicode_len();
    let m = b.unicode_len();
    let mut i: usize = 0;
    proof {
        assert(a@.skip(0) =~= a@);
        assert(b@.skip(0) =~= b@);
    }
    while i < n && i < m && a.get_char(i) == b.get_char(i)
        invariant
            n == a@.len(),
            m == b@.len(),
            i <= n,
            i <= m,
            name_le(a@, b@) == name_le(a@.skip(i as int), b@.skip(i as int)),
        decreases n - i,
    {
        proof {
            assert(a@.skip(i as int).drop_first() =~= a@.skip(i + 1));
            assert(b@.skip(i as int).drop_first() =~= b@.skip(i + 1));
        }
        i = i + 1;
    }
    if i == n {
        true
    } else if i == m {
        false
    } else {
        a.get_char(i) < b.get_char(i)
    }
}

pub open spec fn ids_unique(s: Seq<StationManifest>) -> bool {
    forall|i: int, j: int| 0 <= i < j < s.len() ==> s[i].id@ != s[j].id@
}

pub open spec fn sorted_by_name(s: Seq<StationManifest>) -> bool {
    forall|i: int, j: int| 0 <= i < j < s.len() ==> name_le(s[i].name@, s[j].name@)
}

pub open spec fn derefs(s: Seq<&StationManifest>) -> Seq<StationManifest> {
    s.map_values(|r: &StationManifest| *r)
}

impl StationRegistry {
    /// The stations, in the order they were first imported.
    pub closed spec fn stations(&self) -> Seq<StationManifest> {
        self.stations@
    }

    #[verifier::type_invariant]
    closed spec fn wf(&self) -> bool {
        ids_unique(self.stations@)
    }

    pub fn new() -> (res: Self)
        ensures
            res.stations() == Seq::<StationManifest>::empty(),
    {
        StationRegistry { stations: Vec::new() }
    }

    /// Adds a station, replacing the one with the same id.
    pub fn insert(&mut self, manifest: StationManifest)
        ensures
            ids_unique(final(self).stations()),
            match old(self).find_spec(manifest.id@) {
                Some(i) => final(self).stations() == old(self).stations().update(i, manifest),
                None => final(self).stations() == old(self).stations().push(manifest),
            },
    {
        proof {
            use_type_invariant(&*self);
        }
        match self.find(manifest.id.as_str()) {
            Some(i) => {
                let mut stations: Vec<StationManifest> = Vec::new();
                std::mem::swap(&mut stations, &mut self.stations);
                let ghost before = stations@;
                stations.set(i, manifest);
                proof {
                    assert forall|a: int, b: int| 0 <= a < b < stations@.len() implies stations@[a].id@
                        != stations@[b].id@ by {
                        if a == i as int {
                            assert(before[b].id@ != before[i as int].id@);
                        } else if b == i as int {
                            assert(before[a].id@ != before[i as int].id@);
                        }
                    }
                }
                self.stations = stations;
            },
            None => {
                let mut stations: Vec<StationManifest> = Vec::new();
                std::mem::swap(&mut stations, &mut self.stations);
                let ghost before = stations@;
                stations.push(manifest);
                proof {
                    assert forall|a: int, b: int| 0 <= a < b < stations@.len() implies stations@[a].id@
                        != stations@[b].id@ by {
                        if b == before.len() {
                            assert(stations@[a] == before[a]);
                            assert(old(self).stations()[a] == before[a]);
                        }
                    }
                }
                self.stations = stations;
            },
        }
    }

    /// The index of the station with this id.
    pub open spec fn find_spec(&self, id: Seq<char>) -> Option<int> {
        if exists|i: int| 0 <= i < self.stations().len() && #[trigger] self.stations()[i].id@ == id {
            Some(choose|i: int| 0 <= i < self.stations().len() && #[trigger] self.stations()[i].id@ == id)
        } else {
            None
        }
    }

    fn find(&self, id: &str) -> (res: Option<usize>)
        ensures
            match res {
                Some(i) => self.find_spec(id@) == Some(i as int) && i < self.stations@.len(),
                None => self.find_spec(id@) is None,
            },
    {
        proof {
            use_type_invariant(self);
        }
        let n = self.stations.len();
        let mut i: usize = 0;
        while i < n
            invariant
                n == self.stations@.len(),
                i <= n,
                forall|j: int| 0 <= j < i ==> self.stations@[j].id@ != id@,
                ids_unique(self.stations@),
            decreases n - i,
        {
            if str_equals(self.stations[i].id.as_str(), id) {
                proof {
                    assert(self.stations()[i as int].id@ == id@);
                    let k = choose|k: int| 0 <= k < self.stations().len() && #[trigger] self.stations()[k].id@ == id@;
                    if k != i as int {
                        assert(ids_unique(self.stations@));
                    }
                }
                return Some(i);
            }
            i = i + 1;
        }
        None
    }

    /// The station with this id.
    pub fn get(&self, id: &str) -> (res: Option<&StationManifest>)
        ensures
            match self.find_spec(id@) {
                Some(i) => res == Some(&self.stations()[i]),
                None => res is None,
            },
            ids_unique(self.stations()),
            res is None <==> forall|i: int| 0 <= i < self.stations().len() ==> #[trigger] self.stations()[i].id@ != id@,
            res matches Some(m) ==> m.id@ == id@ && self.stations().contains(*m),
    {
        proof {
            use_type_invariant(self);
        }
        match self.find(id) {
            Some(i) => Some(&self.stations[i]),
            None => None,
        }
    }

    /// A provider for the station with this id.
    pub fn create_provider(&self, station_id: &str) -> (res: Option<DynamicProvider>)
        ensures
            match self.find_spec(station_id@) {
                Some(i) => res matches Some(p) && same_manifest(p.manifest, self.stations()[i]),
                None => res is None,
            },
            res is None <==> forall|i: int| 0 <= i < self.stations().len() ==> #[trigger] self.stations()[i].id@ != station_id@,
            res matches Some(p) ==> p.manifest.id@ == station_id@ && exists|i: int| 0 <= i < self.stations().len() && same_manifest(p.manifest, #[trigger] self.stations()[i]),
    {
        match self.get(station_id) {
            Some(m) => Some(DynamicProvider::new(m.duplicate())),
            None => None,
        }
    }

    /// Every station, ordered by name.
    pub fn all_stations(&self) -> (res: Vec<&StationManifest>)
        ensures
            derefs(res@).to_multiset() == self.stations().to_multiset(),
            sorted_by_name(derefs(res@)),
    {
        broadcast use vstd::seq_lib::group_to_multiset_ensures;

        let n = self.stations.len();
        let mut out: Vec<&StationManifest> = Vec::new();
        let mut i: usize = 0;
        while i < n
            invariant
                n == self.stations@.len(),
                i <= n,
                derefs(out@).to_multiset() == self.stations@.take(i as int).to_multiset(),
                sorted_by_name(derefs(out@)),
            decreases n - i,
        {
            let item = &self.stations[i];
            let mut pos: usize = 0;
            let len = out.len();
            while pos < len && name_less_or_equal(out[pos].name.as_str(), item.name.as_str())
                invariant
                    len == out@.len(),
                    pos <= len,
                    forall|k: int| 0 <= k < pos ==> name_le(#[trigger] derefs(out@)[k].name@, item.name@),
                decreases len - pos,
            {
                pos = pos + 1;
            }
            let ghost before = derefs(out@);
            out.insert(pos, item);
            proof {
                assert(derefs(out@) =~= before.insert(pos as int, *item));
                assert(self.stations@.take(i + 1) =~= self.stations@.take(i as int).push(*item));
                vstd::seq_lib::to_multiset_insert(before, pos as int, *item);
                vstd::seq_lib::to_multiset_build(self.stations@.take(i as int), *item);
                assert forall|a: int, b: int| 0 <= a < b < derefs(out@).len() implies name_le(
                    derefs(out@)[a].name@,
                    derefs(out@)[b].name@,
                ) by {
                    let d = derefs(out@);
                    if b < pos {
                    } else if a < pos && b == pos {
                    } else if a < pos && b > pos {
                        assert(d[a] == before[a]);
                        assert(d[b] == before[b - 1]);
                    } else if a == pos {
                        assert(d[b] == before[b - 1]);
                        assert(!name_le(before[pos as int].name@, item.name@));
                        lemma_name_le_total(before[pos as int].name@, item.name@);
                        if b - 1 > pos {
                            lemma_name_le_trans(item.name@, before[pos as int].name@, before[b - 1].name@);
                        }
                    } else {
                        assert(d[a] == before[a - 1]);
                        assert(d[b] == before[b - 1]);
                    }
                }
            }
            i = i + 1;
        }
        proof {
            assert(self.stations@.take(n as int) =~= self.stations@);
        }
        out
    }
}

/// After a station is inserted, looking its id up finds exactly that
/// station, and every other id finds what it found before.
pub proof fn law_inserted_station_is_found(before: StationRegistry, manifest: StationManifest, after: StationRegistry, other: Seq<char>)
    requires
        ids_unique(before.stations()),
        ids_unique(after.stations()),
        match before.find_spec(manifest.id@) {
            Some(i) => after.stations() == before.stations().update(i, manifest),
            None => after.stations() == before.stations().push(manifest),
        },
        other != manifest.id@,
    ensures
        after.find_spec(manifest.id@) matches Some(i) && after.stations()[i] == manifest,
        (after.find_spec(other) is None) == (before.find_spec(other) is None),
        after.find_spec(other) matches Some(i) ==> after.stations()[i] == before.stations()[before.find_spec(other)->0],
{
    let s0 = before.stations();
    let s1 = after.stations();
    let id = manifest.id@;
    match before.find_spec(id) {
        Some(i) => {
            assert(s1[i].id@ == id);
        },
        None => {
            assert(s1[s0.len() as int].id@ == id);
        },
    }
    if before.find_spec(other) is Some {
        let j = before.find_spec(other)->0;
        assert(s0[j].id@ == other);
        assert(s1[j].id@ == other);
    }
    if after.find_spec(other) is Some {
        let k = after.find_spec(other)->0;
        assert(s1[k].id@ == other);
        assert(s0[k].id@ == other);
        let j = before.find_spec(other)->0;
        assert(s0[j].id@ == other);
        assert(j == k);
    }
}

/// Whether a location is fetched over HTTP(S) rather than read from disk.
pub open spec fn is_remote_spec(s: Seq<char>) -> bool {
    has_prefix(s, "http://"@) || has_prefix(s, "https://"@)
}

pub fn is_remote(s: &str) -> (res: bool)
    ensures
        res == is_remote_spec(s@),
{
    starts_with(s, "http://") || starts_with(s, "https://")
}

/// Index of the last `/` in `s`, if any.
pub open spec fn last_slash(s: Seq<char>) -> Option<int>
    decreases s.len(),
{
    if s.len() == 0 {
        None
    } else if s.last() == '/' {
        Some(s.len() - 1)
    } else {
        last_slash(s.drop_last())
    }
}

/// The base URL relative manifest paths resolve against: the index URL
/// without its file name.
pub open spec fn base_url_spec(url: Seq<char>) -> Seq<char> {
    match last_slash(url) {
        Some(i) => url.take(i),
        None => url,
    }
}

pub fn base_url(url: &str) -> (res: &str)
    ensures
        res@ == base_url_spec(url@),
{
    let n = url.unicode_len();
    let mut end: usize = n;
    proof {
        assert(url@.take(n as int) =~= url@);
    }
    while end > 0 && url.get_char(end - 1) != '/'
        invariant
            n == url@.len(),
            end <= n,
            last_slash(url@) == last_slash(url@.take(end as int)),
        decreases end,
    {
        proof {
            assert(url@.take(end as int).drop_last() =~= url@.take(end - 1));
        }
        end = end - 1;
    }
    if end == 0 {
        proof {
            assert(url@.take(0).len() == 0);
        }
        url
    } else {
        proof {
            assert(url@.take(end as int).last() == '/');
        }
        url.substring_char(0, end - 1)
    }
}

/// `s` without any number of leading `./`, as `trim_start_matches("./")`.
pub open spec fn without_dot_slash(s: Seq<char>) -> Seq<char>
    decreases s.len(),
{
    if s.len() >= 2 && s[0] == '.' && s[1] == '/' {
        without_dot_slash(s.skip(2))
    } else {
        s
    }
}

pub fn strip_dot_slash(s: &str) -> (res: &str)
    ensures
        res@ == without_dot_slash(s@),
{
    let n = s.unicode_len();
    let mut start: usize = 0;
    proof {
        assert(s@.skip(0) =~= s@);
    }
    while n - start >= 2 && s.get_char(start) == '.' && s.get_char(start + 1) == '/'
        invariant
            n == s@.len(),
            start <= n,
            without_dot_slash(s@) == without_dot_slash(s@.skip(start as int)),
        decreases n - start,
    {
        proof {
            assert(s@.skip(start as int).skip(2) =~= s@.skip(start + 2));
        }
        start = start + 2;
    }
    proof {
        assert(s@.skip(start as int) =~= s@.subrange(start as int, n as int));
    }
    s.substring_char(start, n)
}

/// Where a station's manifest is read from.
#[derive(Clone, Debug, PartialEq, Eq)]
pub enum ManifestLocation {
    /// Fetched over HTTP(S) from this URL.
    Remote(String),
    /// Read from `relative` under the directory `dir`.
    Local { dir: String, relative: String },
}

/// Resolves a manifest reference against the index's base: an absolute URL
/// is used as is, a relative one under a remote base becomes
/// `base/relative`, and under a local base it is a path below that directory.
pub fn manifest_location(base: &str, manifest_url: &str) -> (res: ManifestLocation)
    ensures
        is_remote_spec(manifest_url@) ==> (res matches ManifestLocation::Remote(u) && u@ == manifest_url@),
        !is_remote_spec(manifest_url@) && is_remote_spec(base@) ==> (res matches ManifestLocation::Remote(
            u,
        ) && u@ == base@ + "/"@ + without_dot_slash(manifest_url@)),
        !is_remote_spec(manifest_url@) && !is_remote_spec(base@) ==> (res matches ManifestLocation::Local {
            dir,
            relative,
        } && dir@ == base@ && relative@ == without_dot_slash(manifest_url@)),
{
    if is_remote(manifest_url) {
        ManifestLocation::Remote(String::from_str(manifest_url))
    } else if is_remote(base) {
        let mut u = String::from_str(base);
        u.append("/");
        u.append(strip_dot_slash(manifest_url));
        ManifestLocation::Remote(u)
    } else {
        ManifestLocation::Local {
            dir: String::from_str(base),
            relative: String::from_str(strip_dot_slash(manifest_url)),
        }
    }
}

/// Why a registry URL typed into the settings is refused.
#[derive(Clone, Copy, Debug, PartialEq, Eq, Structural)]
pub enum RegistryUrlError {
    Empty,
    AlreadyAdded,
}

/// Checks a registry URL before it is imported: it is trimmed, must not be
/// blank and must not be configured already.
pub fn check_registry_url(input: &str, existing: &Vec<String>) -> (res: Result<String, RegistryUrlError>)
    ensures
        trimmed(input@).len() == 0 ==> res == Err::<String, RegistryUrlError>(RegistryUrlError::Empty),
        trimmed(input@).len() > 0 && (exists|i: int| 0 <= i < existing@.len() && #[trigger] existing@[i]@
            == trimmed(input@)) ==> res == Err::<String, RegistryUrlError>(RegistryUrlError::AlreadyAdded),
        trimmed(input@).len() > 0 && !(exists|i: int| 0 <= i < existing@.len() && #[trigger] existing@[i]@
            == trimmed(input@)) ==> (res matches Ok(u) && u@ == trimmed(input@)),
{
    let url = trim(input);
    if url.unicode_len() == 0 {
        return Err(RegistryUrlError::Empty);
    }
    let n = existing.len();
    let mut i: usize = 0;
    while i < n
        invariant
            n == existing@.len(),
            i <= n,
            url@ == trimmed(input@),
            url@.len() > 0,
            forall|j: int| 0 <= j < i ==> existing@[j]@ != url@,
        decreases n - i,
    {
        if str_equals(existing[i].as_str(), url) {
            return Err(RegistryUrlError::AlreadyAdded);
        }
        i = i + 1;
    }
    Ok(String::from_str(url))
}

/// A registry the configuration lists.
#[derive(Clone, Debug, PartialEq, Eq)]
pub struct RegistryEntry {
    pub url: String,
    pub enabled: bool,
    pub is_default: bool,
}

/// Records a registry whose import succeeded: an enabled, non-default entry
/// is appended unless one with the same URL exists by now.
pub fn record_registry(entries: &mut Vec<RegistryEntry>, url: String)
    ensures
        (exists|i: int| 0 <= i < old(entries)@.len() && #[trigger] old(entries)@[i].url@ == url@)
            ==> final(entries)@ == old(entries)@,
        !(exists|i: int| 0 <= i < old(entries)@.len() && #[trigger] old(entries)@[i].url@ == url@)
            ==> final(entries)@ == old(entries)@.push(RegistryEntry { url, enabled: true, is_default: false }),
{
    let n = entries.len();
    let mut i: usize = 0;
    while i < n
        invariant
            n == entries@.len(),
            entries@ == old(entries)@,
            i <= n,
            forall|j: int| 0 <= j < i ==> entries@[j].url@ != url@,
        decreases n - i,
    {
        if str_equals(entries[i].url.as_str(), url.as_str()) {
            return;
        }
        i = i + 1;
    }
    entries.push(RegistryEntry { url, enabled: true, is_default: false });
}

/// The stream a click plays when the row does not name one: the first.
pub fn first_stream(streams: &Vec<StreamDef>) -> (res: &str)
    ensures
        streams@.len() > 0 ==> res@ == streams@[0].id@,
        streams@.len() == 0 ==> res@ == Seq::<char>::empty(),
{
    if streams.len() > 0 {
        streams[0].id.as_str()
    } else {
        proof {
            reveal_strlit("");
        }
        ""
    }
}

/// Whether a station matches a search: an empty query matches everything,
/// else the query must occur in the lowercased (translated) name,
/// description, one of the stream names or one of the tags.
pub open spec fn station_matches(
    name: Seq<char>,
    description: Seq<char>,
    stream_names: Seq<String>,
    tags: Seq<String>,
    query: Seq<char>,
) -> bool {
    query.len() == 0 || contains_seq(lowercase(name), query) || contains_seq(lowercase(description), query)
        || (exists|i: int| 0 <= i < stream_names.len() && contains_seq(lowercase(#[trigger] stream_names[i]@), query))
        || (exists|i: int| 0 <= i < tags.len() && contains_seq(lowercase(#[trigger] tags[i]@), query))
}

/// A station matches a (lowercased) query exactly when the query is empty
/// or occurs in the lowercased name, the lowercased description, the
/// lowercased name of one of its streams, or one of its lowercased tags.
pub proof fn law_station_matches_lowercased_fields(
    name: Seq<char>,
    description: Seq<char>,
    stream_names: Seq<String>,
    tags: Seq<String>,
    query: Seq<char>,
)
    ensures
        query.len() == 0 ==> station_matches(name, description, stream_names, tags, query),
        contains_seq(lowercase(name), query) ==> station_matches(name, description, stream_names, tags, query),
        contains_seq(lowercase(description), query) ==> station_matches(name, description, stream_names, tags, query),
        forall|i: int|
            0 <= i < stream_names.len() && contains_seq(lowercase(#[trigger] stream_names[i]@), query)
                ==> station_matches(name, description, stream_names, tags, query),
        forall|i: int|
            0 <= i < tags.len() && contains_seq(lowercase(#[trigger] tags[i]@), query) ==> station_matches(
                name,
                description,
                stream_names,
                tags,
                query,
            ),
        station_matches(name, description, stream_names, tags, query) ==> query.len() == 0 || contains_seq(
            lowercase(name),
            query,
        ) || contains_seq(lowercase(description), query) || (exists|i: int|
            0 <= i < stream_names.len() && contains_seq(lowercase(#[trigger] stream_names[i]@), query)) || (exists|i: int|
            0 <= i < tags.len() && contains_seq(lowercase(#[trigger] tags[i]@), query)),
{
}

fn any_contains(items: &Vec<String>, query: &str) -> (res: bool)
    ensures
        res == exists|i: int| 0 <= i < items@.len() && contains_seq(lowercase(#[trigger] items@[i]@), query@),
{
    let n = items.len();
    let mut i: usize = 0;
    while i < n
        invariant
            n == items@.len(),
            i <= n,
            forall|j: int| 0 <= j < i ==> !contains_seq(lowercase(#[trigger] items@[j]@), query@),
        decreases n - i,
    {
        let lowered = to_lowercase(items[i].as_str());
        if contains(lowered.as_str(), query) {
            return true;
        }
        i = i + 1;
    }
    false
}

/// The filter of the radio page's search box.
pub fn matches_query(
    name: &str,
    description: &str,
    stream_names: &Vec<String>,
    tags: &Vec<String>,
    query: &str,
) -> (res: bool)
    ensures
        res == station_matches(name@, description@, stream_names@, tags@, query@),
        query@.len() == 0 ==> res,
        contains_seq(lowercase(name@), query@) ==> res,
        contains_seq(lowercase(description@), query@) ==> res,
        forall|i: int| 0 <= i < stream_names@.len() && contains_seq(lowercase(#[trigger] stream_names@[i]@), query@) ==> res,
        forall|i: int| 0 <= i < tags@.len() && contains_seq(lowercase(#[trigger] tags@[i]@), query@) ==> res,
        res ==> query@.len() == 0 || contains_seq(lowercase(name@), query@) || contains_seq(lowercase(description@), query@)
            || (exists|i: int| 0 <= i < stream_names@.len() && contains_seq(lowercase(#[trigger] stream_names@[i]@), query@))
            || (exists|i: int| 0 <= i < tags@.len() && contains_seq(lowercase(#[trigger] tags@[i]@), query@)),
{
    if query.unicode_len() == 0 {
        return true;
    }
    let lowered_name = to_lowercase(name);
    if contains(lowered_name.as_str(), query) {
        return true;
    }
    let lowered_description = to_lowercase(description);
    if contains(lowered_description.as_str(), query) {
        return true;
    }
    any_contains(stream_names, query) || any_contains(tags, query)
}

} // verus!
