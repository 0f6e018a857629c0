//! The radio page's own state: which stations are pinned (moved at once on
//! a click and put back when the daemon refuses), the stations the page
//! lists, and the debounce of the search box.

use crate::radio::{matches_query, station_matches};
use crate::text::{lowercase, str_equals, to_lowercase};
use vstd::prelude::*;

verus! {

/// The ids in `v`, as a set.
pub open spec fn id_set(v: Seq<String>) -> Set<Seq<char>> {
    Set::new(|s: Seq<char>| exists|i: int| 0 <= i < v.len() && #[trigger] v[i]@ == s)
}

/// The pinned set after a click on `id`.
pub open spec fn toggled(s: Set<Seq<char>>, id: Seq<char>) -> Set<Seq<char>> {
    if s.contains(id) {
        s.remove(id)
    } else {
        s.insert(id)
    }
}

/// The pinned set after the daemon refused the click on `id` that found it
/// pinned (`was_pinned`) or not.
pub open spec fn reverted(s: Set<Seq<char>>, id: Seq<char>, was_pinned: bool) -> Set<Seq<char>> {
    if was_pinned {
        s.insert(id)
    } else {
        s.remove(id)
    }
}

/// A refused click leaves the pinned set as it was before the click.
pub proof fn law_refused_pin_is_undone(s: Set<Seq<char>>, id: Seq<char>)
    ensures
        reverted(toggled(s, id), id, s.contains(id)) == s,
{
    if s.contains(id) {
        assert(s.remove(id).insert(id) =~= s);
    } else {
        assert(s.insert(id).remove(id) =~= s);
    }
}

/// The ids shown as pinned, and the generation that makes the selected list
/// re-read after a pin the daemon accepted.
pub struct PinState {
    pub ids: Vec<String>,
    pub generation: u64,
}

impl View for PinState {
    type V = Set<Seq<char>>;

    closed spec fn view(&self) -> Set<Seq<char>> {
        id_set(self.ids@)
    }
}

fn position_of(ids: &Vec<String>, id: &str) -> (res: Option<usize>)
    ensures
        match res {
            Some(i) => i < ids@.len() && ids@[i as int]@ == id@,
            None => !id_set(ids@).contains(id@),
        },
{
    let n = ids.len();
    let mut i: usize = 0;
    while i < n
        invariant
            n == ids@.len(),
            i <= n,
            forall|j: int| 0 <= j < i ==> ids@[j]@ != id@,
        decreases n - i,
    {
        if str_equals(ids[i].as_str(), id) {
            return Some(i);
        }
        i = i + 1;
    }
    None
}

fn without(ids: &Vec<String>, id: &str) -> (res: Vec<String>)
    ensures
        id_set(res@) == id_set(ids@).remove(id@),
{
    let n = ids.len();
    let mut out: Vec<String> = Vec::new();
    let mut i: usize = 0;
    while i < n
        invariant
            n == ids@.len(),
            i <= n,
            id_set(out@) == id_set(ids@.take(i as int)).remove(id@),
        decreases n - i,
    {
        let ghost before = out@;
        let keep = !str_equals(ids[i].as_str(), id);
        if keep {
            out.push(ids[i].clone());
        }
        proof {
            let p = ids@.take(i + 1);
            assert(p =~= ids@.take(i as int).push(ids@[i as int]));
            assert(id_set(p) =~= id_set(ids@.take(i as int)).insert(ids@[i as int]@)) by {
                assert forall|s: Seq<char>| id_set(p).contains(s) implies id_set(ids@.take(i as int)).insert(
                    ids@[i as int]@,
                ).contains(s) by {
                    let k = choose|k: int| 0 <= k < p.len() && #[trigger] p[k]@ == s;
                    if k < i {
                        assert(ids@.take(i as int)[k]@ == s);
                    }
                }
                assert forall|s: Seq<char>| id_set(ids@.take(i as int)).insert(ids@[i as int]@).contains(s) implies id_set(
                    p,
                ).contains(s) by {
                    if s == ids@[i as int]@ {
                        assert(p[i as int]@ == s);
                    } else {
                        let k = choose|k: int| 0 <= k < i && #[trigger] ids@.take(i as int)[k]@ == s;
                        assert(p[k]@ == s);
                    }
                }
            }
            if keep {
                assert(id_set(out@) =~= id_set(before).insert(ids@[i as int]@)) by {
                    assert forall|s: Seq<char>| id_set(out@).contains(s) implies id_set(before).insert(
                        ids@[i as int]@,
                    ).contains(s) by {
                        let k = choose|k: int| 0 <= k < out@.len() && #[trigger] out@[k]@ == s;
                        if k < before.len() {
                            assert(before[k]@ == s);
                        }
                    }
                    assert forall|s: Seq<char>| id_set(before).insert(ids@[i as int]@).contains(s) implies id_set(
                        out@,
                    ).contains(s) by {
                        if s == ids@[i as int]@ {
                            assert(out@[before.len() as int]@ == s);
                        } else {
                            let k = choose|k: int| 0 <= k < before.len() && #[trigger] before[k]@ == s;
                            assert(out@[k]@ == s);
                        }
                    }
                }
                assert(id_set(out@) =~= id_set(p).remove(id@));
            } else {
                assert(id_set(out@) =~= id_set(p).remove(id@));
            }
        }
        i = i + 1;
    }
    proof {
        assert(ids@.take(n as int) =~= ids@);
    }
    out
}

impl PinState {
    /// Nothing pinned yet.
    pub fn new() -> (res: Self)
        ensures
            res@ == Set::<Seq<char>>::empty(),
            res.generation == 0,
    {
        let res = PinState { ids: Vec::new(), generation: 0 };
        assert(res@ =~= Set::<Seq<char>>::empty());
        res
    }

    /// Whether `id` is shown as pinned.
    pub fn contains(&self, id: &str) -> (res: bool)
        ensures
            res == self@.contains(id@),
    {
        position_of(&self.ids, id).is_some()
    }

    fn insert(&mut self, id: &str)
        ensures
            final(self)@ == old(self)@.insert(id@),
            final(self).generation == old(self).generation,
    {
        if position_of(&self.ids, id).is_none() {
            let ghost before = self.ids@;
            self.ids.push(id.to_string());
            proof {
                assert(id_set(self.ids@) =~= id_set(before).insert(id@)) by {
                    assert forall|s: Seq<char>| id_set(self.ids@).contains(s) implies id_set(before).insert(id@).contains(
                        s,
                    ) by {
                        let k = choose|k: int| 0 <= k < self.ids@.len() && #[trigger] self.ids@[k]@ == s;
                        if k < before.len() {
                            assert(before[k]@ == s);
                        }
                    }
                    assert forall|s: Seq<char>| id_set(before).insert(id@).contains(s) implies id_set(
                        self.ids@,
                    ).contains(s) by {
                        if s == id@ {
                            assert(self.ids@[before.len() as int]@ == s);
                        } else {
                            let k = choose|k: int| 0 <= k < before.len() && #[trigger] before[k]@ == s;
                            assert(self.ids@[k]@ == s);
                        }
                    }
                }
            }
        } else {
            proof {
                assert(id_set(self.ids@).insert(id@) =~= id_set(self.ids@));
            }
        }
    }

    fn remove(&mut self, id: &str)
        ensures
            final(self)@ == old(self)@.remove(id@),
            final(self).generation == old(self).generation,
    {
        self.ids = without(&self.ids, id);
    }

    /// A click on `id`: the mark moves at once. Returns whether the station
    /// was pinned before the click.
    pub fn toggle(&mut self, id: &str) -> (was_pinned: bool)
        ensures
            was_pinned == old(self)@.contains(id@),
            final(self)@ == toggled(old(self)@, id@),
            final(self).generation == old(self).generation,
    {
        let pinned = self.contains(id);
        if pinned {
            self.remove(id);
        } else {
            self.insert(id);
        }
        pinned
    }

    /// The daemon's answer to the click on `id`: an accepted pin bumps the
    /// generation so the selected list re-reads; a refused one puts the mark
    /// back.
    pub fn settle(&mut self, id: &str, was_pinned: bool, accepted: bool)
        requires
            accepted ==> old(self).generation < u64::MAX,
        ensures
            accepted ==> final(self)@ == old(self)@ && final(self).generation == old(self).generation + 1,
            !accepted ==> final(self)@ == reverted(old(self)@, id@, was_pinned) && final(self).generation
                == old(self).generation,
    {
        if accepted {
            self.generation = self.generation + 1;
        } else if was_pinned {
            self.insert(id);
        } else {
            self.remove(id);
        }
    }

    /// Takes the pinned set the selected list reports.
    pub fn replace(&mut self, ids: Vec<String>)
        ensures
            final(self)@ == id_set(ids@),
            final(self).generation == old(self).generation,
    {
        self.ids = ids;
    }
}

/// A station row as the page shows it: its texts already translated.
#[derive(Clone, Debug)]
pub struct StationRow {
    pub id: String,
    pub name: String,
    pub description: String,
    pub stream_names: Vec<String>,
    pub tags: Vec<String>,
    pub pinned: bool,
}

/// Whether the page lists a selected station for the (lowercased) query.
pub open spec fn listed(row: StationRow, query: Seq<char>) -> bool {
    row.pinned && station_matches(row.name@, row.description@, row.stream_names@, row.tags@, query)
}

/// The indices of the pinned stations that match the query, in order.
pub open spec fn listed_indices(rows: Seq<StationRow>, query: Seq<char>) -> Seq<int>
    decreases rows.len(),
{
    if rows.len() == 0 {
        Seq::<int>::empty()
    } else {
        let before = listed_indices(rows.drop_last(), query);
        if listed(rows.last(), query) {
            before.push(rows.len() - 1)
        } else {
            before
        }
    }
}

/// The selected stations the page lists for the search box's text
/// `filter`: the pinned ones that match it, lowercased.
pub fn listed_stations(rows: &Vec<StationRow>, filter: &str) -> (res: Vec<usize>)
    ensures
        res@.map_values(|i: usize| i as int) == listed_indices(rows@, lowercase(filter@)),
{
    let lowered = to_lowercase(filter);
    let query = lowered.as_str();
    let n = rows.len();
    let mut out: Vec<usize> = Vec::new();
    let mut i: usize = 0;
    while i < n
        invariant
            n == rows@.len(),
            i <= n,
            out@.map_values(|k: usize| k as int) == listed_indices(rows@.take(i as int), query@),
        decreases n - i,
    {
        let row = &rows[i];
        proof {
            assert(rows@.take(i + 1).drop_last() =~= rows@.take(i as int));
            assert(rows@.take(i + 1).last() == rows@[i as int]);
        }
        let ghost before = out@;
        if row.pinned && matches_query(row.name.as_str(), row.description.as_str(), &row.stream_names, &row.tags, query) {
            out.push(i);
            proof {
                assert(out@.map_values(|k: usize| k as int) =~= before.map_values(|k: usize| k as int).push(i as int));
            }
        }
        i = i + 1;
    }
    proof {
        assert(rows@.take(n as int) =~= rows@);
    }
    out
}

/// The search box's debounce: each keystroke takes a tick, and only the
/// newest tick may apply its text once the delay has passed.
pub struct Debounce {
    pub latest: u64,
}

impl Debounce {
    pub fn new() -> (res: Self)
        ensures
            res.latest == 0,
    {
        Debounce { latest: 0 }
    }

    /// A keystroke: its tick.
    pub fn bump(&mut self) -> (tick: u64)
        ensures
            tick == old(self).latest.wrapping_add(1),
            final(self).latest == tick,
    {
        self.latest = self.latest.wrapping_add(1);
        self.latest
    }

    /// Whether the text of `tick` may be applied: no keystroke came after it.
    pub fn is_latest(&self, tick: u64) -> (res: bool)
        ensures
            res == (tick == self.latest),
    {
        tick == self.latest
    }
}

} // verus!
