//! The list of YouTube download jobs the downloads page shows: newest
//! first, one active job per video, finished ones cleared on request, and
//! seeded from the history when the list is empty.

use crate::downloads::{record_history, HISTORY_LIMIT, is_uuid_v4_text, uuid_from_random_bytes, uuid_text, seeded_status, AudioFormat, HistoryEntry, JobStatus, spec_format_from_label};
use crate::text::str_equals;
use vstd::prelude::*;

verus! {

/// One job as the list holds it, with the speed and time-left labels its
/// row shows. Its progress fraction is a float, kept beside the list.
#[derive(Clone, Debug)]
pub struct DownloadJob {
    pub id: String,
    pub video_id: String,
    pub title: String,
    pub artist: String,
    pub format: AudioFormat,
    pub status: JobStatus,
    pub speed: String,
    pub eta: String,
}

/// Two statuses are the same, messages compared by their text.
pub open spec fn same_status(a: JobStatus, b: JobStatus) -> bool {
    match (a, b) {
        (JobStatus::Failed(x), JobStatus::Failed(y)) => x@ == y@,
        _ => a == b,
    }
}

/// Two jobs with the same fields, text compared by its characters.
pub open spec fn same_job(a: DownloadJob, b: DownloadJob) -> bool {
    &&& a.id@ == b.id@
    &&& a.video_id@ == b.video_id@
    &&& a.title@ == b.title@
    &&& a.artist@ == b.artist@
    &&& a.format == b.format
    &&& same_status(a.status, b.status)
    &&& a.speed@ == b.speed@
    &&& a.eta@ == b.eta@
}

pub open spec fn same_jobs(a: Seq<DownloadJob>, b: Seq<DownloadJob>) -> bool {
    a.len() == b.len() && forall|i: int| 0 <= i < a.len() ==> same_job(#[trigger] a[i], b[i])
}

/// The jobs still under way, in order.
pub open spec fn active_jobs(jobs: Seq<DownloadJob>) -> Seq<DownloadJob> {
    jobs.filter(|j: DownloadJob| j.status.spec_is_active())
}

/// Whether a job for `video_id` is still under way.
pub open spec fn has_active_for(jobs: Seq<DownloadJob>, video_id: Seq<char>) -> bool {
    exists|i: int| 0 <= i < jobs.len() && #[trigger] jobs[i].video_id@ == video_id && jobs[i].status.spec_is_active()
}

/// The first job with id `id`, if any.
pub open spec fn first_with_id(jobs: Seq<DownloadJob>, id: Seq<char>) -> Option<int> {
    if exists|i: int| 0 <= i < jobs.len() && #[trigger] jobs[i].id@ == id {
        Some(choose|i: int| 0 <= i < jobs.len() && #[trigger] jobs[i].id@ == id && forall|j: int| 0 <= j < i ==> jobs[j].id@ != id)
    } else {
        None
    }
}

/// The job a history entry seeds: a fresh id, the entry's video, title
/// and format, no artist, and the status the entry records.
pub open spec fn seeded_job(id: Seq<char>, e: HistoryEntry, j: DownloadJob) -> bool {
    &&& j.id@ == id
    &&& j.video_id@ == e.video_id@
    &&& j.title@ == e.title@
    &&& j.artist@.len() == 0
    &&& j.speed@.len() == 0
    &&& j.eta@.len() == 0
    &&& j.format == spec_format_from_label(e.format@)
    &&& if e.status@ == "completed"@ {
        j.status == JobStatus::Completed
    } else {
        j.status matches JobStatus::Failed(m) && m@ == match e.error {
            Some(x) => x@,
            None => Seq::<char>::empty(),
        }
    }
}

fn copy_status(s: &JobStatus) -> (res: JobStatus)
    ensures
        same_status(res, *s),
{
    match s {
        JobStatus::Pending => JobStatus::Pending,
        JobStatus::Resolving => JobStatus::Resolving,
        JobStatus::Downloading => JobStatus::Downloading,
        JobStatus::Processing => JobStatus::Processing,
        JobStatus::Completed => JobStatus::Completed,
        JobStatus::Failed(m) => JobStatus::Failed(m.clone()),
    }
}

fn copy_job(j: &DownloadJob) -> (res: DownloadJob)
    ensures
        same_job(res, *j),
{
    DownloadJob {
        id: j.id.clone(),
        video_id: j.video_id.clone(),
        title: j.title.clone(),
        artist: j.artist.clone(),
        format: j.format,
        status: copy_status(&j.status),
        speed: j.speed.clone(),
        eta: j.eta.clone(),
    }
}

/// Clearing the finished jobs leaves only jobs under way, and never changes
/// whether a video has a job under way: the guard against a second download
/// of the same video reads the same before and after.
pub proof fn law_clearing_keeps_the_duplicate_guard(jobs: Seq<DownloadJob>, video_id: Seq<char>)
    ensures
        forall|i: int| 0 <= i < active_jobs(jobs).len() ==> (#[trigger] active_jobs(jobs)[i]).status.spec_is_active(),
        has_active_for(active_jobs(jobs), video_id) == has_active_for(jobs, video_id),
{
    let pred = |j: DownloadJob| j.status.spec_is_active();
    let a = active_jobs(jobs);
    assert forall|i: int| 0 <= i < a.len() implies (#[trigger] a[i]).status.spec_is_active() by {
        jobs.lemma_filter_pred(pred, i);
    }
    if has_active_for(jobs, video_id) {
        let i = choose|i: int| 0 <= i < jobs.len() && #[trigger] jobs[i].video_id@ == video_id && jobs[i].status.spec_is_active();
        jobs.lemma_filter_contains(pred, i);
        let k = choose|k: int| 0 <= k < a.len() && a[k] == jobs[i];
        assert(a[k].video_id@ == video_id);
    }
    if has_active_for(a, video_id) {
        let k = choose|k: int| 0 <= k < a.len() && #[trigger] a[k].video_id@ == video_id && a[k].status.spec_is_active();
        assert(a.contains(a[k]));
        jobs.lemma_filter_contains_rev(pred, a[k]);
        let i = choose|i: int| 0 <= i < jobs.len() && jobs[i] == a[k];
        assert(jobs[i].video_id@ == video_id);
    }
}

/// A job that is pending, resolving, downloading or still converting is
/// under way: it blocks a second download of its video, and clearing the
/// finished jobs keeps it. Only completed and failed jobs are cleared.
pub proof fn law_unfinished_jobs_stay_active(jobs: Seq<DownloadJob>, i: int)
    requires
        0 <= i < jobs.len(),
    ensures
        jobs[i].status is Pending || jobs[i].status is Resolving || jobs[i].status is Downloading
            || jobs[i].status is Processing ==> has_active_for(jobs, jobs[i].video_id@) && active_jobs(jobs).contains(
            jobs[i],
        ),
        jobs[i].status is Completed || jobs[i].status is Failed ==> !active_jobs(jobs).contains(jobs[i]),
{
    let pred = |j: DownloadJob| j.status.spec_is_active();
    if !(jobs[i].status is Completed || jobs[i].status is Failed) {
        jobs.lemma_filter_contains(pred, i);
    } else if active_jobs(jobs).contains(jobs[i]) {
        law_clearing_keeps_the_duplicate_guard(jobs, jobs[i].video_id@);
        let k = choose|k: int| 0 <= k < active_jobs(jobs).len() && active_jobs(jobs)[k] == jobs[i];
        assert(active_jobs(jobs)[k].status.spec_is_active());
    }
}

/// The history after recording one finished download at its head.
pub open spec fn recorded(history: Seq<HistoryEntry>, entry: HistoryEntry) -> Seq<HistoryEntry> {
    (seq![entry] + history).take(
        if history.len() + 1 > HISTORY_LIMIT {
            HISTORY_LIMIT as int
        } else {
            history.len() as int + 1
        },
    )
}

/// The history after recording `entries` in order.
pub open spec fn recorded_all(history: Seq<HistoryEntry>, entries: Seq<(HistoryEntry, bool)>) -> Seq<HistoryEntry>
    decreases entries.len(),
{
    if entries.len() == 0 {
        history
    } else {
        recorded(recorded_all(history, entries.drop_last()), entries.last().0)
    }
}

/// Applies the downloads that finished since the last look, in the order
/// they finished: each goes to the head of the history. Returns whether
/// one of them succeeded, so the library is rescanned.
pub fn apply_completions(history: &mut Vec<HistoryEntry>, finished: Vec<(HistoryEntry, bool)>) -> (rescan: bool)
    ensures
        final(history)@ == recorded_all(old(history)@, finished@),
        rescan == exists|i: int| 0 <= i < finished@.len() && (#[trigger] finished@[i]).1,
{
    let ghost start = history@;
    let ghost all = finished@;
    let mut rescan = false;
    let mut rest = finished;
    let mut done: usize = 0;
    let n = rest.len();
    proof {
        assert(rest@ =~= all.subrange(0, n as int));
    }
    while done < n
        invariant
            n == all.len(),
            done <= n,
            rest@ =~= all.subrange(done as int, n as int),
            history@ == recorded_all(start, all.take(done as int)),
            rescan == exists|i: int| 0 <= i < done && (#[trigger] all[i]).1,
        decreases n - done,
    {
        let ghost before = rest@;
        let (entry, ok) = rest.remove(0);
        proof {
            assert(before[0] == all[done as int]);
            assert(rest@ =~= all.subrange(done + 1, n as int));
            assert(all.take(done + 1).drop_last() =~= all.take(done as int));
            assert(all.take(done + 1).last() == all[done as int]);
        }
        rescan = rescan || ok;
        record_history(history, entry);
        done = done + 1;
    }
    proof {
        assert(all.take(n as int) =~= all);
    }
    rescan
}

/// A job for a download about to start: pending, with the id of the UUID
/// made from `random` and no speed or time left yet.
pub fn new_job(video_id: String, title: String, artist: String, format: AudioFormat, random: [u8; 16]) -> (res: DownloadJob)
    ensures
        res.id@ == uuid_text(random@),
        is_uuid_v4_text(res.id@),
        res.video_id == video_id,
        res.title == title,
        res.artist == artist,
        res.format == format,
        res.status == JobStatus::Pending,
        res.speed@.len() == 0,
        res.eta@.len() == 0,
{
    DownloadJob {
        id: uuid_from_random_bytes(random),
        video_id,
        title,
        artist,
        format,
        status: JobStatus::Pending,
        speed: String::new(),
        eta: String::new(),
    }
}

/// The jobs, newest first.
pub struct JobList {
    pub jobs: Vec<DownloadJob>,
}

impl JobList {
    pub fn new() -> (res: Self)
        ensures
            res.jobs@.len() == 0,
    {
        JobList { jobs: Vec::new() }
    }

    /// Whether a job for `video_id` is still under way: a second one is
    /// refused before it starts.
    pub fn has_active(&self, video_id: &str) -> (res: bool)
        ensures
            res == has_active_for(self.jobs@, video_id@),
    {
        let n = self.jobs.len();
        let mut i: usize = 0;
        while i < n
            invariant
                n == self.jobs@.len(),
                i <= n,
                forall|k: int| 0 <= k < i ==> !(#[trigger] self.jobs@[k].video_id@ == video_id@ && self.jobs@[k].status.spec_is_active()),
            decreases n - i,
        {
            if str_equals(self.jobs[i].video_id.as_str(), video_id) && self.jobs[i].status.is_active() {
                return true;
            }
            i = i + 1;
        }
        false
    }

    /// A new job goes to the top of the list.
    pub fn start(&mut self, job: DownloadJob)
        ensures
            final(self).jobs@ == seq![job] + old(self).jobs@,
    {
        self.jobs.insert(0, job);
        assert(self.jobs@ =~= seq![job] + old(self).jobs@);
    }

    /// The index of the job with id `id`.
    pub fn find(&self, id: &str) -> (res: Option<usize>)
        ensures
            match res {
                Some(i) => first_with_id(self.jobs@, id@) == Some(i as int) && i < self.jobs@.len(),
                None => first_with_id(self.jobs@, id@) is None,
            },
    {
        let n = self.jobs.len();
        let mut i: usize = 0;
        while i < n
            invariant
                n == self.jobs@.len(),
                i <= n,
                forall|k: int| 0 <= k < i ==> #[trigger] self.jobs@[k].id@ != id@,
            decreases n - i,
        {
            if str_equals(self.jobs[i].id.as_str(), id) {
                proof {
                    let jobs = self.jobs@;
                    assert(exists|k: int| 0 <= k < jobs.len() && #[trigger] jobs[k].id@ == id@);
                    let c = first_with_id(jobs, id@)->0;
                    assert(c == i as int) by {
                        if c < i {
                        } else if c > i {
                        }
                    }
                }
                return Some(i);
            }
            i = i + 1;
        }
        None
    }

    /// Moves the job with id `id` to `status`; every other job stays.
    pub fn set_status(&mut self, id: &str, status: JobStatus)
        ensures
            match first_with_id(old(self).jobs@, id@) {
                Some(i) => final(self).jobs@ == old(self).jobs@.update(
                    i,
                    DownloadJob { status, ..old(self).jobs@[i] },
                ),
                None => final(self).jobs@ == old(self).jobs@,
            },
    {
        match self.find(id) {
            Some(i) => {
                let mut job = self.jobs.remove(i);
                job.status = status;
                self.jobs.insert(i, job);
                assert(self.jobs@ =~= old(self).jobs@.update(i as int, DownloadJob { status, ..old(self).jobs@[i as int] }));
            },
            None => {},
        }
    }

    /// Drops the finished jobs, keeping the others in order.
    pub fn clear_finished(&mut self)
        ensures
            same_jobs(final(self).jobs@, active_jobs(old(self).jobs@)),
    {
        let n = self.jobs.len();
        let mut kept: Vec<DownloadJob> = Vec::new();
        let mut i: usize = 0;
        while i < n
            invariant
                n == self.jobs@.len(),
                self.jobs@ == old(self).jobs@,
                i <= n,
                same_jobs(kept@, active_jobs(self.jobs@.take(i as int))),
            decreases n - i,
        {
            let ghost before = kept@;
            let ghost p = self.jobs@.take(i + 1);
            proof {
                assert(p.drop_last() =~= self.jobs@.take(i as int));
                assert(p.last() == self.jobs@[i as int]);
                reveal(Seq::filter);
            }
            if self.jobs[i].status.is_active() {
                kept.push(copy_job(&self.jobs[i]));
                proof {
                    assert(active_jobs(p) == active_jobs(self.jobs@.take(i as int)).push(self.jobs@[i as int]));
                    assert forall|k: int| 0 <= k < kept@.len() implies same_job(#[trigger] kept@[k], active_jobs(p)[k]) by {
                        if k < before.len() {
                            assert(kept@[k] == before[k]);
                        }
                    }
                }
            } else {
                proof {
                    assert(active_jobs(p) == active_jobs(self.jobs@.take(i as int)));
                }
            }
            i = i + 1;
        }
        proof {
            assert(self.jobs@.take(n as int) =~= self.jobs@);
        }
        self.jobs = kept;
    }

    /// Seeds an empty list from the history, one job per entry in order,
    /// under the given fresh ids. A list that already has jobs is kept.
    pub fn seed(&mut self, history: &Vec<HistoryEntry>, ids: Vec<String>)
        requires
            ids@.len() == history@.len(),
        ensures
            old(self).jobs@.len() > 0 ==> final(self).jobs@ == old(self).jobs@,
            old(self).jobs@.len() == 0 ==> final(self).jobs@.len() == history@.len() && forall|i: int|
                0 <= i < history@.len() ==> seeded_job(ids@[i]@, history@[i], #[trigger] final(self).jobs@[i]),
    {
        if self.jobs.len() > 0 {
            return;
        }
        let n = history.len();
        let mut jobs: Vec<DownloadJob> = Vec::new();
        let mut i: usize = 0;
        while i < n
            invariant
                n == history@.len(),
                ids@.len() == n,
                i <= n,
                jobs@.len() == i,
                forall|k: int| 0 <= k < i ==> seeded_job(ids@[k]@, history@[k], #[trigger] jobs@[k]),
            decreases n - i,
        {
            let e = &history[i];
            let job = DownloadJob {
                id: ids[i].clone(),
                video_id: e.video_id.clone(),
                title: e.title.clone(),
                artist: String::new(),
                format: AudioFormat::from_str(e.format.as_str()),
                status: seeded_status(e.status.as_str(), &e.error),
                speed: String::new(),
                eta: String::new(),
            };
            jobs.push(job);
            i = i + 1;
        }
        self.jobs = jobs;
    }

    /// Seeds an empty list from the history, one job per entry, under the
    /// ids of the UUIDs made from `randoms` (one per entry).
    pub fn seed_from_history(&mut self, history: &Vec<HistoryEntry>, randoms: &Vec<[u8; 16]>)
        requires
            randoms@.len() == history@.len(),
        ensures
            old(self).jobs@.len() > 0 ==> final(self).jobs@ == old(self).jobs@,
            old(self).jobs@.len() == 0 ==> final(self).jobs@.len() == history@.len() && forall|i: int|
                0 <= i < history@.len() ==> is_uuid_v4_text(#[trigger] final(self).jobs@[i].id@) && seeded_job(
                    uuid_text(randoms@[i]@),
                    history@[i],
                    final(self).jobs@[i],
                ),
    {
        if self.jobs.len() > 0 {
            return;
        }
        let n = history.len();
        let mut ids: Vec<String> = Vec::new();
        let mut i: usize = 0;
        while i < n
            invariant
                n == history@.len(),
                randoms@.len() == n,
                i <= n,
                ids@.len() == i,
                forall|k: int| 0 <= k < i ==> is_uuid_v4_text(#[trigger] ids@[k]@) && ids@[k]@ == uuid_text(randoms@[k]@),
            decreases n - i,
        {
            ids.push(uuid_from_random_bytes(randoms[i]));
            i = i + 1;
        }
        let ghost fresh = ids@;
        self.seed(history, ids);
        proof {
            assert forall|k: int| 0 <= k < history@.len() implies is_uuid_v4_text(#[trigger] self.jobs@[k].id@) && seeded_job(
                uuid_text(randoms@[k]@),
                history@[k],
                self.jobs@[k],
            ) by {
                assert(seeded_job(fresh[k]@, history@[k], self.jobs@[k]));
                assert(is_uuid_v4_text(fresh[k]@));
            }
        }
    }

    /// Shows a transfer's speed and time left on the job with id `id`,
    /// which is downloading; every other job stays.
    pub fn record_progress(&mut self, id: &str, speed: String, eta: String)
        ensures
            match first_with_id(old(self).jobs@, id@) {
                Some(i) => final(self).jobs@ == old(self).jobs@.update(
                    i,
                    DownloadJob { status: JobStatus::Downloading, speed, eta, ..old(self).jobs@[i] },
                ),
                None => final(self).jobs@ == old(self).jobs@,
            },
    {
        match self.find(id) {
            Some(i) => {
                let mut job = self.jobs.remove(i);
                job.status = JobStatus::Downloading;
                job.speed = speed;
                job.eta = eta;
                self.jobs.insert(i, job);
                assert(self.jobs@ =~= old(self).jobs@.update(
                    i as int,
                    DownloadJob { status: JobStatus::Downloading, speed, eta, ..old(self).jobs@[i as int] },
                ));
            },
            None => {},
        }
    }

    /// Marks the job with id `id` completed and clears its speed and time
    /// left; every other job stays.
    pub fn complete(&mut self, id: &str)
        ensures
            match first_with_id(old(self).jobs@, id@) {
                Some(i) => {
                    &&& final(self).jobs@.len() == old(self).jobs@.len()
                    &&& forall|k: int| 0 <= k < old(self).jobs@.len() && k != i ==> final(self).jobs@[k] == old(self).jobs@[k]
                    &&& final(self).jobs@[i].status == JobStatus::Completed
                    &&& final(self).jobs@[i].speed@.len() == 0
                    &&& final(self).jobs@[i].eta@.len() == 0
                    &&& final(self).jobs@[i].id == old(self).jobs@[i].id
                    &&& final(self).jobs@[i].video_id == old(self).jobs@[i].video_id
                    &&& final(self).jobs@[i].title == old(self).jobs@[i].title
                    &&& final(self).jobs@[i].artist == old(self).jobs@[i].artist
                    &&& final(self).jobs@[i].format == old(self).jobs@[i].format
                },
                None => final(self).jobs@ == old(self).jobs@,
            },
    {
        match self.find(id) {
            Some(i) => {
                let mut job = self.jobs.remove(i);
                job.status = JobStatus::Completed;
                job.speed = String::new();
                job.eta = String::new();
                self.jobs.insert(i, job);
            },
            None => {},
        }
    }
}

} // verus!
