use kopuz::download_jobs::{apply_completions, DownloadJob, JobList};
use kopuz::downloads::{AudioFormat, HistoryEntry, JobStatus};

fn job(id: &str, video: &str, status: JobStatus) -> DownloadJob {
    DownloadJob {
        id: id.to_string(),
        video_id: video.to_string(),
        title: "t".to_string(),
        artist: "a".to_string(),
        format: AudioFormat::Mp3,
        status,
        speed: String::new(),
        eta: String::new(),
    }
}

#[test]
fn new_jobs_go_first_and_guard_their_video() {
    let mut list = JobList::new();
    list.start(job("1", "v1", JobStatus::Pending));
    list.start(job("2", "v2", JobStatus::Pending));
    assert_eq!(list.jobs[0].id, "2");
    assert!(list.has_active("v1"));
    list.set_status("1", JobStatus::Completed);
    assert!(!list.has_active("v1"));
    assert_eq!(list.find("1"), Some(1));
    assert_eq!(list.find("9"), None);
}

#[test]
fn clearing_keeps_only_jobs_under_way() {
    let mut list = JobList::new();
    list.start(job("1", "v1", JobStatus::Completed));
    list.start(job("2", "v2", JobStatus::Downloading));
    list.start(job("3", "v3", JobStatus::Failed("x".to_string())));
    list.start(job("4", "v4", JobStatus::Resolving));
    list.clear_finished();
    let ids: Vec<&str> = list.jobs.iter().map(|j| j.id.as_str()).collect();
    assert_eq!(ids, vec!["4", "2"]);
}

#[test]
fn an_empty_list_is_seeded_from_history() {
    let history = vec![
        HistoryEntry {
            video_id: "v".to_string(),
            title: "T".to_string(),
            format: "FLAC".to_string(),
            status: "completed".to_string(),
            error: None,
        },
        HistoryEntry {
            video_id: "w".to_string(),
            title: "U".to_string(),
            format: "???".to_string(),
            status: "failed".to_string(),
            error: Some("boom".to_string()),
        },
    ];
    let mut list = JobList::new();
    list.seed(&history, vec!["a".to_string(), "b".to_string()]);
    assert_eq!(list.jobs.len(), 2);
    assert_eq!(list.jobs[0].format, AudioFormat::Flac);
    assert_eq!(list.jobs[0].status, JobStatus::Completed);
    assert_eq!(list.jobs[1].format, AudioFormat::Original);
    assert_eq!(list.jobs[1].status, JobStatus::Failed("boom".to_string()));
    assert_eq!(list.jobs[1].artist, "");
    list.seed(&history[..1].to_vec(), vec!["c".to_string()]);
    assert_eq!(list.jobs.len(), 2);
}

fn entry(video: &str, status: &str) -> HistoryEntry {
    HistoryEntry {
        video_id: video.to_string(),
        title: String::new(),
        format: "MP3".to_string(),
        status: status.to_string(),
        error: None,
    }
}

#[test]
fn completions_go_to_the_head_of_the_history() {
    let mut history = vec![entry("old", "completed")];
    let rescan = apply_completions(
        &mut history,
        vec![(entry("a", "failed"), false), (entry("b", "completed"), true)],
    );
    assert!(rescan);
    let ids: Vec<&str> = history.iter().map(|e| e.video_id.as_str()).collect();
    assert_eq!(ids, vec!["b", "a", "old"]);
    assert!(!apply_completions(&mut history, vec![(entry("c", "failed"), false)]));
    assert!(!apply_completions(&mut history, Vec::new()));
    assert_eq!(history.len(), 4);
}

#[test]
fn progress_shows_on_the_job_until_it_completes() {
    let mut list = JobList::new();
    list.start(job("1", "v1", JobStatus::Pending));
    list.start(job("2", "v2", JobStatus::Resolving));
    list.record_progress("1", "1.2MiB/s".to_string(), "00:05".to_string());
    assert_eq!(list.jobs[1].status, JobStatus::Downloading);
    assert_eq!(list.jobs[1].speed, "1.2MiB/s");
    assert_eq!(list.jobs[1].eta, "00:05");
    assert_eq!(list.jobs[0].status, JobStatus::Resolving);
    assert_eq!(list.jobs[0].speed, "");
    list.record_progress("9", "x".to_string(), "y".to_string());
    assert_eq!(list.jobs.len(), 2);
    list.complete("1");
    assert_eq!(list.jobs[1].status, JobStatus::Completed);
    assert_eq!(list.jobs[1].speed, "");
    assert_eq!(list.jobs[1].eta, "");
    assert_eq!(list.jobs[1].video_id, "v1");
}
