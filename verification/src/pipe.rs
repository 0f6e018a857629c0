//! The daemon's address on Windows: a named pipe standing in for the Unix
//! socket the other platforms use. The socket path a caller hands over
//! becomes a name under `\\.\pipe\`.

use crate::text::{lead_count, lemma_lead_count_unique, push_char, push_str, starts_with, has_prefix};
use vstd::prelude::*;
use vstd::string::*;

verus! {

/// The namespace every pipe name lives under: `\\.\pipe\`.
pub open spec fn pipe_prefix() -> Seq<char> {
    seq!['\\', '\\', '.', '\\', 'p', 'i', 'p', 'e', '\\']
}

/// A path separator or drive colon becomes a dash in a flattened name.
pub open spec fn flat_char(c: char) -> char {
    if c == '\\' || c == '/' || c == ':' {
        '-'
    } else {
        c
    }
}

pub open spec fn is_dash() -> spec_fn(char) -> bool {
    |c: char| c == '-'
}

/// `path` with every separator and colon turned into a dash.
pub open spec fn flattened(path: Seq<char>) -> Seq<char> {
    path.map_values(|c: char| flat_char(c))
}

/// The pipe a socket path stands for: a name that already lives under
/// `\\.\pipe\` is used as given; any other path is flattened into one, its
/// leading dashes dropped.
pub open spec fn spec_pipe_name(path: Seq<char>) -> Seq<char> {
    if has_prefix(path, pipe_prefix()) {
        path
    } else {
        let flat = flattened(path);
        pipe_prefix() + flat.subrange(lead_count(flat, is_dash()) as int, flat.len() as int)
    }
}

fn flatten_char(c: char) -> (res: char)
    ensures
        res == flat_char(c),
{
    if c == '\\' || c == '/' || c == ':' {
        '-'
    } else {
        c
    }
}

/// The pipe a socket path (taken as text) stands for.
pub fn name(path: &str) -> (res: String)
    ensures
        res@ == spec_pipe_name(path@),
{
    let prefix = "\\\\.\\pipe\\";
    proof {
        reveal_strlit("\\\\.\\pipe\\");
        assert(prefix@ =~= pipe_prefix());
    }
    if starts_with(path, prefix) {
        return path.to_string();
    }
    let n = path.unicode_len();
    let ghost flat = flattened(path@);
    let mut start: usize = 0;
    while start < n && flatten_char(path.get_char(start)) == '-'
        invariant
            n == path@.len(),
            flat == flattened(path@),
            start <= n,
            forall|i: int| 0 <= i < start ==> #[trigger] flat[i] == '-',
        decreases n - start,
    {
        start = start + 1;
    }
    proof {
        assert forall|i: int| 0 <= i < start implies (is_dash())(#[trigger] flat[i]) by {}
        if start < n {
            assert(flat[start as int] == flat_char(path@[start as int]));
        }
        lemma_lead_count_unique(flat, is_dash(), start as nat);
    }
    let mut out = String::new();
    push_str(&mut out, prefix);
    let mut i: usize = start;
    while i < n
        invariant
            n == path@.len(),
            flat == flattened(path@),
            start <= i <= n,
            out@ == pipe_prefix() + flat.subrange(start as int, i as int),
        decreases n - i,
    {
        let c = flatten_char(path.get_char(i));
        push_char(&mut out, c);
        proof {
            assert(flat.subrange(start as int, i + 1) =~= flat.subrange(start as int, i as int).push(c));
        }
        i = i + 1;
    }
    out
}

} // verus!
