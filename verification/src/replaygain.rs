//! ReplayGain tag lookup.
//!
//! The values ride in the container's own metadata. The host turns each tag
//! of the probed stream into a [`GainTag`]; this module picks the tag that
//! carries each value and extracts its numeric text, which the host then
//! reads as a floating-point number of decibels.

use crate::text::{
    eq_ignore_ascii_case, equals_ignore_ascii_case, has_suffix, lemma_lead_count_unique,
    lemma_trail_count_unique, trim, trim_by, trimmed,
};
use vstd::prelude::*;
use vstd::string::*;

verus! {

/// R128 gains are Q7.8 fixed point relative to -23 LUFS; ReplayGain 2.0
/// targets -18 LUFS, so the two scales differ by this many decibels.
pub const R128_REFERENCE_OFFSET_DB: i32 = 5;

/// The standard ReplayGain tags the demuxer recognizes.
#[derive(Clone, Copy, Debug, PartialEq, Eq, Structural)]
pub enum StandardGainTag {
    TrackGain,
    TrackPeak,
    AlbumGain,
    AlbumPeak,
}

/// One metadata tag: the standard meaning the demuxer gave it (if any), its
/// raw key, and its value as text (if it has a textual or numeric value).
#[derive(Clone, Debug, PartialEq, Eq)]
pub struct GainTag {
    pub standard: Option<StandardGainTag>,
    pub key: String,
    pub value: Option<String>,
}

/// The first index of `tags` whose tag satisfies `p`.
pub open spec fn first_match(tags: Seq<GainTag>, p: spec_fn(GainTag) -> bool) -> Option<int>
    decreases tags.len(),
{
    if tags.len() == 0 {
        None
    } else {
        match first_match(tags.drop_last(), p) {
            Some(i) => Some(i),
            None => if p(tags.last()) {
                Some(tags.len() - 1)
            } else {
                None
            },
        }
    }
}

pub open spec fn is_standard(st: StandardGainTag) -> spec_fn(GainTag) -> bool {
    |t: GainTag| t.standard == Some(st)
}

pub open spec fn has_key(key: Seq<char>) -> spec_fn(GainTag) -> bool {
    |t: GainTag| eq_ignore_ascii_case(t.key@, key)
}

/// The tag a lookup settles on: the first tag with the standard meaning,
/// else the first whose raw key equals `key` up to ASCII case.
pub open spec fn found_tag(tags: Seq<GainTag>, standard: Option<StandardGainTag>, key: Seq<char>) -> Option<int> {
    match standard {
        Some(st) => match first_match(tags, is_standard(st)) {
            Some(i) => Some(i),
            None => first_match(tags, has_key(key)),
        },
        None => first_match(tags, has_key(key)),
    }
}

proof fn lemma_first_match_step(tags: Seq<GainTag>, p: spec_fn(GainTag) -> bool, m: int)
    requires
        0 <= m < tags.len(),
    ensures
        first_match(tags.take(m + 1), p) == match first_match(tags.take(m), p) {
            Some(k) => Some(k),
            None => if p(tags[m]) {
                Some(m)
            } else {
                None::<int>
            },
        },
{
    assert(tags.take(m + 1).drop_last() =~= tags.take(m));
    assert(tags.take(m + 1).last() == tags[m]);
}

proof fn lemma_first_match_bound(tags: Seq<GainTag>, p: spec_fn(GainTag) -> bool)
    ensures
        first_match(tags, p) matches Some(k) ==> 0 <= k < tags.len() && p(tags[k]),
    decreases tags.len(),
{
    if tags.len() > 0 {
        lemma_first_match_bound(tags.drop_last(), p);
    }
}

proof fn lemma_first_match_extend(tags: Seq<GainTag>, p: spec_fn(GainTag) -> bool, m: int)
    requires
        0 <= m <= tags.len(),
        first_match(tags.take(m), p) is Some,
    ensures
        first_match(tags, p) == first_match(tags.take(m), p),
    decreases tags.len() - m,
{
    if m == tags.len() {
        assert(tags.take(m) =~= tags);
    } else {
        lemma_first_match_step(tags, p, m);
        lemma_first_match_extend(tags, p, m + 1);
    }
}

fn find_first(tags: &Vec<GainTag>, standard: Option<StandardGainTag>, key: &str) -> (res: Option<usize>)
    ensures
        match standard {
            Some(st) => match res {
                Some(i) => first_match(tags@, is_standard(st)) == Some(i as int),
                None => first_match(tags@, is_standard(st)) is None,
            },
            None => match res {
                Some(i) => first_match(tags@, has_key(key@)) == Some(i as int),
                None => first_match(tags@, has_key(key@)) is None,
            },
        },
{
    let n = tags.len();
    let mut i: usize = 0;
    proof {
        assert(tags@.take(0).len() == 0);
    }
    while i < n
        invariant
            n == tags@.len(),
            i <= n,
            match standard {
                Some(st) => first_match(tags@.take(i as int), is_standard(st)) is None,
                None => first_match(tags@.take(i as int), has_key(key@)) is None,
            },
        decreases n - i,
    {
        let hit = match standard {
            Some(st) => match tags[i].standard {
                Some(t) => t == st,
                None => false,
            },
            None => equals_ignore_ascii_case(tags[i].key.as_str(), key),
        };
        proof {
            match standard {
                Some(st) => lemma_first_match_step(tags@, is_standard(st), i as int),
                None => lemma_first_match_step(tags@, has_key(key@), i as int),
            }
        }
        if hit {
            proof {
                match standard {
                    Some(st) => lemma_first_match_extend(tags@, is_standard(st), i + 1),
                    None => lemma_first_match_extend(tags@, has_key(key@), i + 1),
                }
            }
            return Some(i);
        }
        i = i + 1;
    }
    proof {
        assert(tags@.take(n as int) =~= tags@);
    }
    None
}

/// Finds the tag that carries a value: the standard tag if the demuxer
/// recognized one, else the raw key. `standard` is `None` for keys the
/// demuxer has no standard tag for.
pub fn find_tag(tags: &Vec<GainTag>, standard: Option<StandardGainTag>, key: &str) -> (res: Option<usize>)
    ensures
        match res {
            Some(i) => found_tag(tags@, standard, key@) == Some(i as int),
            None => found_tag(tags@, standard, key@) is None,
        },
        res matches Some(i) ==> i < tags@.len(),
{
    proof {
        lemma_first_match_bound(tags@, has_key(key@));
        if let Some(st) = standard {
            lemma_first_match_bound(tags@, is_standard(st));
        }
    }
    if standard.is_some() {
        let hit = find_first(tags, standard, key);
        if hit.is_some() {
            return hit;
        }
    }
    find_first(tags, None, key)
}

/// The value text of the tag at index `i`, if there is one.
pub open spec fn value_at(tags: Seq<GainTag>, i: Option<int>) -> Option<Seq<char>> {
    match i {
        Some(k) => match tags[k].value {
            Some(v) => Some(v@),
            None => None,
        },
        None => None,
    }
}

/// The text value of the tag a lookup settles on.
pub fn tag_text(tags: &Vec<GainTag>, standard: Option<StandardGainTag>, key: &str) -> (res: Option<String>)
    ensures
        match res {
            Some(t) => value_at(tags@, found_tag(tags@, standard, key@)) == Some(t@),
            None => value_at(tags@, found_tag(tags@, standard, key@)) is None,
        },
{
    match find_tag(tags, standard, key) {
        Some(i) => match &tags[i].value {
            Some(v) => Some(v.clone()),
            None => None,
        },
        None => None,
    }
}

pub open spec fn is_quote() -> spec_fn(char) -> bool {
    |c: char| c == '"'
}

/// `a` without a trailing decibel unit, spelled `dB`, `DB` or `db`.
pub open spec fn without_unit(a: Seq<char>) -> Seq<char> {
    if has_suffix(a, "dB"@) || has_suffix(a, "DB"@) || has_suffix(a, "db"@) {
        a.subrange(0, a.len() - 2)
    } else {
        a
    }
}

/// The numeric part of a gain value: gains are written as `-7.06 dB`,
/// `+3.2 dB` or bare numbers, sometimes wrapped in whitespace or quotes.
pub open spec fn gain_numeric(value: Seq<char>) -> Seq<char> {
    trimmed(without_unit(trim_by(trimmed(value), is_quote())))
}

fn trim_quotes(s: &str) -> (res: &str)
    ensures
        res@ == trim_by(s@, is_quote()),
{
    let n = s.unicode_len();
    let mut start: usize = 0;
    while start < n && s.get_char(start) == '"'
        invariant
            n == s@.len(),
            start <= n,
            forall|i: int| 0 <= i < start ==> (is_quote())(#[trigger] s@[i]),
        decreases n - start,
    {
        start = start + 1;
    }
    proof {
        lemma_lead_count_unique(s@, is_quote(), start as nat);
    }
    if start == n {
        return s.substring_char(0, 0);
    }
    let mut end: usize = n;
    while end > start && s.get_char(end - 1) == '"'
        invariant
            n == s@.len(),
            start < n,
            !(is_quote())(s@[start as int]),
            start <= end <= n,
            forall|i: int| end <= i < n ==> (is_quote())(#[trigger] s@[i]),
        decreases end,
    {
        end = end - 1;
    }
    proof {
        lemma_trail_count_unique(s@, is_quote(), (n - end) as nat);
    }
    s.substring_char(start, end)
}

/// Extracts the numeric text of a gain value.
pub fn gain_text(value: &str) -> (res: &str)
    ensures
        res@ == gain_numeric(value@),
{
    let a = trim_quotes(trim(value));
    let n = a.unicode_len();
    let unit = crate::text::ends_with(a, "dB") || crate::text::ends_with(a, "DB") || crate::text::ends_with(
        a,
        "db",
    );
    let b = if unit {
        proof {
            reveal_strlit("dB");
            reveal_strlit("DB");
            reveal_strlit("db");
        }
        a.substring_char(0, n - 2)
    } else {
        a
    };
    trim(b)
}

/// The value of a string of ASCII digits.
pub open spec fn digits_value(s: Seq<char>) -> int
    decreases s.len(),
{
    if s.len() == 0 {
        0
    } else {
        digits_value(s.drop_last()) * 10 + (s.last() as u32 - '0' as u32)
    }
}

pub open spec fn all_digits(s: Seq<char>) -> bool {
    forall|i: int| 0 <= i < s.len() ==> '0' <= #[trigger] s[i] <= '9'
}

/// What `str::parse::<i32>` accepts: an optional sign and at least one
/// digit, all of it, with a value inside the range of `i32`.
pub open spec fn parsed_i32(s: Seq<char>) -> Option<i32> {
    let negative = s.len() > 0 && s[0] == '-';
    let body = if s.len() > 0 && (s[0] == '-' || s[0] == '+') {
        s.drop_first()
    } else {
        s
    };
    let v = if negative {
        -digits_value(body)
    } else {
        digits_value(body)
    };
    if body.len() == 0 || !all_digits(body) || v < i32::MIN || v > i32::MAX {
        None
    } else {
        Some(v as i32)
    }
}

/// Values at or above this bound are out of range for `i32` whatever the sign.
pub const PARSE_CAP: i64 = 0x1_0000_0000;

proof fn lemma_digits_nonneg(s: Seq<char>)
    requires
        all_digits(s),
    ensures
        digits_value(s) >= 0,
    decreases s.len(),
{
    if s.len() > 0 {
        assert(all_digits(s.drop_last())) by {
            assert forall|i: int| 0 <= i < s.drop_last().len() implies '0' <= #[trigger] s.drop_last()[i] <= '9' by {
                assert(s.drop_last()[i] == s[i]);
            }
        }
        lemma_digits_nonneg(s.drop_last());
        assert('0' <= s[s.len() - 1] <= '9');
    }
}

/// Parses a decimal `i32` the way `str::parse::<i32>` does.
pub fn parse_i32(s: &str) -> (res: Option<i32>)
    ensures
        res == parsed_i32(s@),
{
    let n = s.unicode_len();
    let mut start: usize = 0;
    let mut negative = false;
    if n > 0 {
        let c = s.get_char(0);
        if c == '-' {
            negative = true;
            start = 1;
        } else if c == '+' {
            start = 1;
        }
    }
    let ghost body = s@.subrange(start as int, n as int);
    proof {
        if start == 1 {
            assert(body =~= s@.drop_first());
        } else {
            assert(body =~= s@);
        }
    }
    if start == n {
        proof {
            assert(body.len() == 0);
        }
        return None;
    }
    let mut acc: i64 = 0;
    let mut i: usize = start;
    while i < n
        invariant
            n == s@.len(),
            start <= i <= n,
            start < n,
            body == s@.subrange(start as int, n as int),
            body == (if s@.len() > 0 && (s@[0] == '-' || s@[0] == '+') {
                s@.drop_first()
            } else {
                s@
            }),
            negative == (s@.len() > 0 && s@[0] == '-'),
            all_digits(s@.subrange(start as int, i as int)),
            acc == if digits_value(s@.subrange(start as int, i as int)) < PARSE_CAP {
                digits_value(s@.subrange(start as int, i as int))
            } else {
                PARSE_CAP as int
            },
        decreases n - i,
    {
        let c = s.get_char(i);
        if c < '0' || c > '9' {
            proof {
                assert(body[i - start] == c);
                assert(!all_digits(body));
            }
            return None;
        }
        let d = (c as u32 - '0' as u32) as i64;
        let ghost prev = s@.subrange(start as int, i as int);
        let ghost next = s@.subrange(start as int, i + 1);
        proof {
            assert(next.drop_last() =~= prev);
            assert(next.last() == c);
            assert(all_digits(next)) by {
                assert forall|j: int| 0 <= j < next.len() implies '0' <= #[trigger] next[j] <= '9' by {
                    if j < prev.len() {
                        assert(next[j] == prev[j]);
                    }
                }
            }
            lemma_digits_nonneg(prev);
            assert(digits_value(next) == digits_value(prev) * 10 + d);
        }
        let grown = acc * 10 + d;
        acc = if grown < PARSE_CAP {
            grown
        } else {
            PARSE_CAP
        };
        proof {
            if digits_value(prev) >= PARSE_CAP {
                assert(digits_value(prev) * 10 + d >= PARSE_CAP) by (nonlinear_arith)
                    requires
                        digits_value(prev) >= PARSE_CAP,
                        d >= 0,
                ;
            }
        }
        i = i + 1;
    }
    proof {
        assert(s@.subrange(start as int, n as int) == body);
        lemma_digits_nonneg(body);
    }
    if acc >= PARSE_CAP {
        return None;
    }
    let v: i64 = if negative {
        -acc
    } else {
        acc
    };
    if v < i32::MIN as i64 || v > i32::MAX as i64 {
        None
    } else {
        Some(v as i32)
    }
}

/// The Q7.8 R128 gain stored under `key`, if the tag is there and holds an
/// integer. The host converts it as `q78 / 256 + R128_REFERENCE_OFFSET_DB`.
pub fn r128_gain_q78(tags: &Vec<GainTag>, key: &str) -> (res: Option<i32>)
    ensures
        res == match value_at(tags@, found_tag(tags@, None, key@)) {
            Some(t) => parsed_i32(trimmed(t)),
            None => None,
        },
{
    match find_tag(tags, None, key) {
        Some(i) => match &tags[i].value {
            Some(v) => parse_i32(trim(v.as_str())),
            None => None,
        },
        None => None,
    }
}

} // verus!
