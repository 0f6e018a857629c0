use kopuz::downloads::{
    album_folder, configured_output_root, format_duration, format_eta, history_entry, numbered_name, numbered_candidate,
    output_extension, output_stem, plan_ranges, range_header, record_history, retry_delay_millis,
    sanitize_component, seeded_status, AudioFormat, DownloadOptions, HistoryEntry, JobStatus,
    StreamFormat, HISTORY_LIMIT,
};

fn options(organize_by_album: bool) -> DownloadOptions {
    DownloadOptions {
        organize_by_album,
        overwrite_existing: false,
        embed_thumbnail: true,
        write_thumbnail: false,
        embed_metadata: true,
    }
}

#[test]
fn sanitizes_cross_platform_filename_characters() {
    assert_eq!(sanitize_component("  A/B: C?  "), "A_B_ C_");
    assert_eq!(sanitize_component("..."), "Untitled");
}

#[test]
fn original_output_keeps_native_container_without_processing() {
    assert_eq!(output_extension(AudioFormat::Original, StreamFormat::Webm, false), "webm");
    assert_eq!(output_extension(AudioFormat::Original, StreamFormat::M4a, false), "m4a");
}

#[test]
fn processed_webm_uses_audio_matroska_container() {
    assert_eq!(output_extension(AudioFormat::Original, StreamFormat::Webm, true), "mka");
}

#[test]
fn formats_track_duration() {
    assert_eq!(format_duration(0), "");
    assert_eq!(format_duration(65), "1:05");
    assert_eq!(format_duration(3661), "1:01:01");
}

#[test]
fn converted_formats_use_their_own_extension() {
    assert_eq!(output_extension(AudioFormat::Mp3, StreamFormat::Webm, true), "mp3");
    assert_eq!(output_extension(AudioFormat::Flac, StreamFormat::M4a, true), "flac");
    assert_eq!(output_extension(AudioFormat::Wav, StreamFormat::M4a, false), "wav");
}

#[test]
fn storage_labels_round_trip() {
    for format in [
        AudioFormat::Original,
        AudioFormat::Mp3,
        AudioFormat::Flac,
        AudioFormat::Opus,
        AudioFormat::Wav,
    ] {
        assert_eq!(AudioFormat::from_str(format.storage_label()), format);
    }
    assert_eq!(AudioFormat::from_str("ogg"), AudioFormat::Original);
}

#[test]
fn stems_and_folders_are_sanitized() {
    assert_eq!(output_stem("Song", "  "), "Song");
    assert_eq!(output_stem("A:B", "Art/ist"), "Art_ist - A_B");
    assert_eq!(album_folder(&options(true), "Best?Of"), Some("Best_Of".to_string()));
    assert_eq!(album_folder(&options(true), "   "), None);
    assert_eq!(album_folder(&options(false), "Album"), None);
    assert_eq!(configured_output_root("  /music  "), Some("/music"));
    assert_eq!(configured_output_root("   "), None);
}

#[test]
fn eta_is_minutes_and_padded_seconds() {
    assert_eq!(format_eta(0), "0:00");
    assert_eq!(format_eta(125), "2:05");
}

#[test]
fn ranges_cover_the_stream_in_half_megabyte_pieces() {
    assert_eq!(plan_ranges(0), vec![]);
    assert_eq!(plan_ranges(10), vec![(0, 9)]);
    let size = 512 * 1024;
    assert_eq!(plan_ranges(size + 1), vec![(0, size - 1), (size, size)]);
    assert_eq!(range_header(0, 524287), "bytes=0-524287");
    assert_eq!(retry_delay_millis(3), 750);
}

#[test]
fn numbered_names_keep_the_extension() {
    assert_eq!(numbered_name("Song", 2, Some("mp3")), "Song (2).mp3");
    assert_eq!(numbered_name("Song", 10, None), "Song (10)");
}

#[test]
fn history_entries_record_the_outcome() {
    let done = history_entry(Some(("vid", "Title", AudioFormat::Flac)), None);
    assert_eq!(done.status, "completed");
    assert_eq!(done.format, "FLAC");
    assert_eq!(done.video_id, "vid");
    let failed = history_entry(Some(("vid", "Title", AudioFormat::Mp3)), Some("boom".to_string()));
    assert_eq!(failed.status, "failed");
    assert_eq!(failed.error, Some("boom".to_string()));
    let gone = history_entry(None, None);
    assert_eq!(gone.status, "failed");
    assert_eq!(gone.format, "Original");
    assert_eq!(gone.video_id, "");
}

#[test]
fn history_keeps_the_newest_entries() {
    let mut history: Vec<HistoryEntry> = Vec::new();
    for i in 0..(HISTORY_LIMIT + 5) {
        let entry = HistoryEntry {
            video_id: format!("v{i}"),
            title: String::new(),
            format: "MP3".to_string(),
            status: "completed".to_string(),
            error: None,
        };
        record_history(&mut history, entry);
    }
    assert_eq!(history.len(), HISTORY_LIMIT);
    assert_eq!(history[0].video_id, format!("v{}", HISTORY_LIMIT + 4));
}

#[test]
fn seeded_jobs_follow_their_history() {
    assert_eq!(seeded_status("completed", &None), JobStatus::Completed);
    assert_eq!(
        seeded_status("failed", &Some("x".to_string())),
        JobStatus::Failed("x".to_string())
    );
}

#[test]
fn numbered_candidates_stop_after_the_last_number() {
    assert_eq!(numbered_candidate("Song", 2, Some("mp3")), Some("Song (2).mp3".to_string()));
    assert_eq!(numbered_candidate("Song", 9999, None), Some("Song (9999)".to_string()));
    assert_eq!(numbered_candidate("Song", 10_000, Some("mp3")), None);
}
