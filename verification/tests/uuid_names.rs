use kopuz::download_jobs::{new_job, JobList};
use kopuz::downloads::{
    source_file_name, unique_fallback_name, write_probe_name, AudioFormat, HistoryEntry,
    JobStatus, StreamFormat,
};

fn is_uuid(s: &str) -> bool {
    s.len() == 36
        && s.char_indices().all(|(i, c)| {
            if [8, 13, 18, 23].contains(&i) {
                c == '-'
            } else {
                c.is_ascii_digit() || ('a'..='f').contains(&c)
            }
        })
        && s.as_bytes()[14] == b'4'
}

const COUNTING: [u8; 16] = [0, 1, 2, 3, 4, 5, 6, 7, 8, 9, 10, 11, 12, 13, 14, 15];

#[test]
fn uuid_text_sets_version_and_variant() {
    let low = write_probe_name([0; 16]);
    assert_eq!(&low[18..], "00000000-0000-4000-8000-000000000000");
    let high = write_probe_name([0xff; 16]);
    assert_eq!(&high[18..], "ffffffff-ffff-4fff-bfff-ffffffffffff");
    let mixed = write_probe_name([0x5a; 16]);
    assert_eq!(&mixed[18..], "5a5a5a5a-5a5a-4a5a-9a5a-5a5a5a5a5a5a");
    assert!(is_uuid(&mixed[18..]));
}

#[test]
fn temporary_names_carry_a_fresh_uuid() {
    let name = source_file_name(StreamFormat::Webm, COUNTING);
    assert_eq!(name, ".00010203-0405-4607-8809-0a0b0c0d0e0f.source.webm");
    assert!(is_uuid(&name[1..37]));
    assert_ne!(name, source_file_name(StreamFormat::Webm, [0; 16]));
    let fallback = unique_fallback_name("Song", [0; 16]);
    assert_eq!(fallback, "Song - 00000000-0000-4000-8000-000000000000");
    let probe = write_probe_name([0xff; 16]);
    assert_eq!(probe, ".kopuz-write-test-ffffffff-ffff-4fff-bfff-ffffffffffff");
}

#[test]
fn new_jobs_are_pending_under_a_random_id() {
    let job = new_job("v".to_string(), "t".to_string(), "a".to_string(), AudioFormat::Wav, COUNTING);
    assert_eq!(job.id, "00010203-0405-4607-8809-0a0b0c0d0e0f");
    assert_eq!(job.status, JobStatus::Pending);
    assert_eq!(job.speed, "");
    assert_eq!(job.eta, "");
    let mut list = JobList::new();
    list.seed_from_history(
        &vec![HistoryEntry {
            video_id: "v".to_string(),
            title: "t".to_string(),
            format: "WAV".to_string(),
            status: "completed".to_string(),
            error: None,
        }],
        &vec![[0; 16]],
    );
    assert_eq!(list.jobs.len(), 1);
    assert_eq!(list.jobs[0].id, "00000000-0000-4000-8000-000000000000");
    assert_eq!(list.jobs[0].status, JobStatus::Completed);
}
