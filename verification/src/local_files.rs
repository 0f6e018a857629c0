//! Filesystem policy for destructive local-library actions: a local track
//! is removed only when its canonical path lies inside one of the active
//! library's canonical roots, and its rows go only once the file is known
//! to be gone.

use crate::text::{has_prefix, str_equals, starts_with};
use vstd::prelude::*;
use vstd::string::*;

verus! {

/// Where the active library comes from.
#[derive(Clone, Debug)]
pub enum Source {
    /// The music directories of the configuration.
    Local,
    /// A saved local library, by id.
    LocalLibrary(String),
    /// A media server, by id.
    Server(String),
}

impl Source {
    /// Whether the source is on this machine.
    pub fn is_local(&self) -> (res: bool)
        ensures
            res == !(self is Server),
    {
        match self {
            Source::Server(_) => false,
            _ => true,
        }
    }
}

/// A saved local library: its id and its directories.
#[derive(Clone, Debug)]
pub struct SavedLocalSource {
    pub id: String,
    pub directories: Vec<String>,
}

/// The part of the configuration that says where local libraries live.
#[derive(Clone, Debug)]
pub struct LibraryConfig {
    pub music_directory: Vec<String>,
    pub local_sources: Vec<SavedLocalSource>,
}

pub open spec fn texts(s: Seq<String>) -> Seq<Seq<char>> {
    s.map_values(|t: String| t@)
}

/// The first saved library with the given id, if any.
pub open spec fn saved_with_id(saved: Seq<SavedLocalSource>, id: Seq<char>) -> Option<int> {
    if exists|i: int| 0 <= i < saved.len() && saved[i].id@ == id {
        Some(choose|i: int| 0 <= i < saved.len() && saved[i].id@ == id && forall|j: int| 0 <= j < i ==> saved[j].id@ != id)
    } else {
        None
    }
}

/// The directories a source's tracks may be deleted from.
pub open spec fn spec_configured_roots(config: LibraryConfig, source: Source) -> Seq<Seq<char>> {
    match source {
        Source::Local => texts(config.music_directory@),
        Source::LocalLibrary(id) => match saved_with_id(config.local_sources@, id@) {
            Some(i) => texts(config.local_sources@[i].directories@),
            None => Seq::<Seq<char>>::empty(),
        },
        Source::Server(_) => Seq::<Seq<char>>::empty(),
    }
}

fn copy_texts(v: &Vec<String>) -> (res: Vec<String>)
    ensures
        texts(res@) == texts(v@),
{
    let mut out: Vec<String> = Vec::new();
    let mut i: usize = 0;
    while i < v.len()
        invariant
            i <= v@.len(),
            texts(out@) == texts(v@).take(i as int),
        decreases v@.len() - i,
    {
        let ghost before = out@;
        out.push(v[i].clone());
        proof {
            assert(texts(out@) =~= texts(before).push(v@[i as int]@));
            assert(texts(v@).take(i + 1) =~= texts(v@).take(i as int).push(v@[i as int]@));
        }
        i = i + 1;
    }
    proof {
        assert(texts(v@).take(v@.len() as int) =~= texts(v@));
    }
    out
}

/// The directories a source's tracks may be deleted from: the music
/// directories for the local source, a saved library's own directories,
/// and none for a server.
pub fn configured_roots(config: &LibraryConfig, source: &Source) -> (res: Vec<String>)
    ensures
        texts(res@) == spec_configured_roots(*config, *source),
{
    match source {
        Source::Local => copy_texts(&config.music_directory),
        Source::LocalLibrary(id) => {
            let n = config.local_sources.len();
            let mut i: usize = 0;
            while i < n
                invariant
                    n == config.local_sources@.len(),
                    *source == Source::LocalLibrary(*id),
                    i <= n,
                    forall|j: int| 0 <= j < i ==> config.local_sources@[j].id@ != id@,
                decreases n - i,
            {
                if str_equals(config.local_sources[i].id.as_str(), id.as_str()) {
                    proof {
                        let saved = config.local_sources@;
                        assert(exists|k: int| 0 <= k < saved.len() && saved[k].id@ == id@);
                        let c = saved_with_id(saved, id@)->0;
                        assert(c == i as int) by {
                            if c < i {
                            } else if c > i {
                            }
                        }
                        assert(*source == Source::LocalLibrary(*id));
                        assert(saved_with_id(config.local_sources@, id@) == Some(i as int));
                        assert(spec_configured_roots(*config, *source) == texts(saved[i as int].directories@));
                    }
                    return copy_texts(&config.local_sources[i].directories);
                }
                i = i + 1;
            }
            let res: Vec<String> = Vec::new();
            assert(texts(res@) =~= Seq::<Seq<char>>::empty());
            res
        },
        Source::Server(_) => {
            let res: Vec<String> = Vec::new();
            assert(texts(res@) =~= Seq::<Seq<char>>::empty());
            res
        },
    }
}

/// Whether canonical path `target` lies strictly inside canonical
/// directory `root`, comparing whole `/`-separated components as
/// `Path::starts_with` does: `target` is not `root` itself, and continues
/// it at a separator.
pub open spec fn strictly_inside(target: Seq<char>, root: Seq<char>) -> bool {
    &&& target != root
    &&& has_prefix(target, root)
    &&& (root.len() > 0 && root.last() == '/') || (root.len() < target.len() && target[root.len() as int] == '/')
}

fn inside(target: &str, root: &str) -> (res: bool)
    ensures
        res == strictly_inside(target@, root@),
{
    if str_equals(target, root) || !starts_with(target, root) {
        return false;
    }
    let n = root.unicode_len();
    let m = target.unicode_len();
    (n > 0 && root.get_char(n - 1) == '/') || (n < m && target.get_char(n) == '/')
}

/// Whether the canonical form of a path lies inside one of the canonical
/// library roots. `target` and each root are `None` where they could not
/// be canonicalized; such a root admits nothing, and such a target is
/// inside nothing.
pub open spec fn spec_inside_roots(target: Option<Seq<char>>, roots: Seq<Option<String>>) -> bool {
    match target {
        Some(t) => exists|i: int| 0 <= i < roots.len() && (#[trigger] roots[i] matches Some(r) && strictly_inside(t, r@)),
        None => false,
    }
}

/// A path is inside the roots exactly when some root in the list, at any
/// place, could be canonicalized and holds it strictly inside; a path that
/// could not be canonicalized is inside nothing.
pub proof fn law_inside_any_root(target: Option<Seq<char>>, roots: Seq<Option<String>>)
    ensures
        forall|i: int|
            0 <= i < roots.len() && target is Some && #[trigger] roots[i] is Some && strictly_inside(
                target->Some_0,
                roots[i]->Some_0@,
            ) ==> spec_inside_roots(target, roots),
        spec_inside_roots(target, roots) ==> target is Some && exists|i: int|
            0 <= i < roots.len() && #[trigger] roots[i] is Some && strictly_inside(target->Some_0, roots[i]->Some_0@),
{
}

/// A path below a root, past a separator, is strictly inside it; the root
/// itself is not, nor is a sibling whose name merely starts with the
/// root's.
pub proof fn law_inside_means_below_a_separator(root: Seq<char>, rest: Seq<char>, c: char)
    requires
        root.len() > 0,
        root.last() != '/',
        rest.len() > 0,
        c != '/',
    ensures
        strictly_inside(root + "/"@ + rest, root),
        !strictly_inside(root, root),
        !strictly_inside(root + seq![c] + rest, root),
{
    reveal_strlit("/");
    let child = root + "/"@ + rest;
    assert(child.subrange(0, root.len() as int) =~= root);
    assert(child[root.len() as int] == '/');
    assert(child.len() > root.len());
    let sibling = root + seq![c] + rest;
    assert(sibling[root.len() as int] == c);
}

pub open spec fn opt_text(value: Option<&str>) -> Option<Seq<char>> {
    match value {
        Some(t) => Some(t@),
        None => None,
    }
}

/// Whether a track may be removed: the source is local and the track's
/// canonical path lies inside one of its canonical roots.
pub fn removal_permitted(source: &Source, target: Option<&str>, roots: &Vec<Option<String>>) -> (res: bool)
    ensures
        res == (!(*source is Server) && spec_inside_roots(opt_text(target), roots@)),
        forall|i: int|
            0 <= i < roots@.len() && !(*source is Server) && target is Some && #[trigger] roots@[i] is Some
                && strictly_inside(target->Some_0@, roots@[i]->Some_0@) ==> res,
        res ==> !(*source is Server) && target is Some && exists|i: int|
            0 <= i < roots@.len() && #[trigger] roots@[i] is Some && strictly_inside(
                target->Some_0@,
                roots@[i]->Some_0@,
            ),
{
    if !source.is_local() {
        return false;
    }
    let t = match target {
        Some(t) => t,
        None => return false,
    };
    let n = roots.len();
    let mut i: usize = 0;
    while i < n
        invariant
            n == roots@.len(),
            opt_text(target) == Some(t@),
            !(*source is Server),
            i <= n,
            forall|j: int| 0 <= j < i ==> !(#[trigger] roots@[j] matches Some(r) && strictly_inside(t@, r@)),
        decreases n - i,
    {
        match &roots[i] {
            Some(root) => {
                if inside(t, root.as_str()) {
                    proof {
                        assert(roots@[i as int] matches Some(r) && strictly_inside(t@, r@));
                        assert(opt_text(target) == Some(t@));
                        assert(!(*source is Server));
                    }
                    return true;
                }
            },
            None => {},
        }
        i = i + 1;
    }
    false
}

/// How a filesystem call on the track's path went.
#[derive(Clone, Copy, Debug, PartialEq, Eq, Structural)]
pub enum FsOutcome {
    Done,
    NotFound,
    Failed,
}

/// What removing a permitted track answers: `Some(true)` when the file
/// went, `Some(false)` when it was already gone, `None` for the error the
/// removal met.
pub fn removal_answer(removal: FsOutcome) -> (res: Option<bool>)
    ensures
        res == match removal {
            FsOutcome::Done => Some(true),
            FsOutcome::NotFound => Some(false),
            FsOutcome::Failed => None::<bool>,
        },
{
    match removal {
        FsOutcome::Done => Some(true),
        FsOutcome::NotFound => Some(false),
        FsOutcome::Failed => None,
    }
}

/// Whether a track's rows can go after a removal answered `answer`
/// (`None` for an error): only a file this removal deleted, or a path that
/// the follow-up `symlink_metadata` call (`presence`, consulted only after
/// `Some(false)`) finds genuinely absent. Anything that cannot be answered
/// for fails closed.
pub fn cleared(answer: Option<bool>, presence: FsOutcome) -> (res: bool)
    ensures
        res == (answer == Some(true) || (answer == Some(false) && presence == FsOutcome::NotFound)),
{
    match answer {
        Some(true) => true,
        Some(false) => match presence {
            FsOutcome::NotFound => true,
            _ => false,
        },
        None => false,
    }
}

} // verus!
