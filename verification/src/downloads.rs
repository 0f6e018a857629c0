//! YouTube download jobs: output formats, file naming, the ffmpeg command
//! line, byte-range planning and the job history.

use crate::text::{
    str_equals,
    decimal, decimal2, lead_count, lemma_lead_count_unique, lemma_trim_by_keeps_a_run, lemma_trail_count_unique, push_char, push_decimal,
    push_decimal2, push_str, trim, trim_by, trimmed,
};
use vstd::prelude::*;
use vstd::string::*;

verus! {

/// Most entries the download history keeps, newest first.
pub const HISTORY_LIMIT: usize = 200;

/// Bytes fetched per ranged request.
pub const RANGE_SIZE: u64 = 512 * 1024;

/// Attempts per byte range before the download fails.
pub const MAX_RANGE_ATTEMPTS: u8 = 4;

/// Longest file-name component a download produces, in characters.
pub const MAX_COMPONENT_CHARS: usize = 180;

/// The container the user asked for.
#[derive(Clone, Copy, Debug, PartialEq, Eq, Structural)]
pub enum AudioFormat {
    Original,
    Mp3,
    Flac,
    Opus,
    Wav,
}

/// The container the streaming service delivers.
#[derive(Clone, Copy, Debug, PartialEq, Eq, Structural)]
pub enum StreamFormat {
    M4a,
    Webm,
}

/// The download options the settings page exposes.
#[derive(Clone, Copy, Debug, PartialEq, Eq)]
pub struct DownloadOptions {
    pub organize_by_album: bool,
    pub overwrite_existing: bool,
    pub embed_thumbnail: bool,
    pub write_thumbnail: bool,
    pub embed_metadata: bool,
}

/// Where a job stands.
#[derive(Clone, Debug, PartialEq, Eq)]
pub enum JobStatus {
    Pending,
    Resolving,
    Downloading,
    Processing,
    Completed,
    Failed(String),
}

/// One finished download, as the history remembers it.
#[derive(Clone, Debug, PartialEq, Eq)]
pub struct HistoryEntry {
    pub video_id: String,
    pub title: String,
    pub format: String,
    pub status: String,
    pub error: Option<String>,
}

pub open spec fn spec_label_key(f: AudioFormat) -> Seq<char> {
    match f {
        AudioFormat::Original => "youtube_download_format_original"@,
        AudioFormat::Mp3 => "youtube_download_format_mp3"@,
        AudioFormat::Flac => "youtube_download_format_flac"@,
        AudioFormat::Opus => "youtube_download_format_opus"@,
        AudioFormat::Wav => "youtube_download_format_wav"@,
    }
}

pub open spec fn spec_storage_label(f: AudioFormat) -> Seq<char> {
    match f {
        AudioFormat::Original => "Original"@,
        AudioFormat::Mp3 => "MP3"@,
        AudioFormat::Flac => "FLAC"@,
        AudioFormat::Opus => "OPUS"@,
        AudioFormat::Wav => "WAV"@,
    }
}

/// The format a stored label names; anything unknown is the original container.
pub open spec fn spec_format_from_label(value: Seq<char>) -> AudioFormat {
    if value == "MP3"@ {
        AudioFormat::Mp3
    } else if value == "FLAC"@ {
        AudioFormat::Flac
    } else if value == "OPUS"@ {
        AudioFormat::Opus
    } else if value == "WAV"@ {
        AudioFormat::Wav
    } else {
        AudioFormat::Original
    }
}


impl AudioFormat {
    /// The translation key of the format's display label.
    pub fn label_key(self) -> (res: &'static str)
        ensures
            res@ == spec_label_key(self),
    {
        match self {
            AudioFormat::Original => "youtube_download_format_original",
            AudioFormat::Mp3 => "youtube_download_format_mp3",
            AudioFormat::Flac => "youtube_download_format_flac",
            AudioFormat::Opus => "youtube_download_format_opus",
            AudioFormat::Wav => "youtube_download_format_wav",
        }
    }

    /// The label the download history stores.
    pub fn storage_label(self) -> (res: &'static str)
        ensures
            res@ == spec_storage_label(self),
    {
        match self {
            AudioFormat::Original => "Original",
            AudioFormat::Mp3 => "MP3",
            AudioFormat::Flac => "FLAC",
            AudioFormat::Opus => "OPUS",
            AudioFormat::Wav => "WAV",
        }
    }

    /// The format a stored label names.
    pub fn from_str(value: &str) -> (res: Self)
        ensures
            res == spec_format_from_label(value@),
    {
        if str_equals(value, "MP3") {
            AudioFormat::Mp3
        } else if str_equals(value, "FLAC") {
            AudioFormat::Flac
        } else if str_equals(value, "OPUS") {
            AudioFormat::Opus
        } else if str_equals(value, "WAV") {
            AudioFormat::Wav
        } else {
            AudioFormat::Original
        }
    }

    /// Every format but the original container is transcoded.
    pub fn needs_conversion(self) -> (res: bool)
        ensures
            res == (self != AudioFormat::Original),
    {
        !matches!(self, AudioFormat::Original)
    }
}

/// A stored label reads back as the format that wrote it.
pub proof fn law_storage_label_round_trips(f: AudioFormat)
    ensures
        spec_format_from_label(spec_storage_label(f)) == f,
{
    reveal_strlit("Original");
    reveal_strlit("MP3");
    reveal_strlit("FLAC");
    reveal_strlit("OPUS");
    reveal_strlit("WAV");
    assert("Original"@.len() == 8);
    assert("MP3"@[0] != "WAV"@[0]);
    assert("FLAC"@[0] != "OPUS"@[0]);
    assert("MP3"@ != "FLAC"@ && "MP3"@ != "OPUS"@ && "WAV"@ != "FLAC"@ && "WAV"@ != "OPUS"@);
    assert("MP3"@ != "WAV"@);
    assert("FLAC"@ != "OPUS"@);
}

impl StreamFormat {
    pub open spec fn spec_extension(self) -> Seq<char> {
        match self {
            StreamFormat::M4a => "m4a"@,
            StreamFormat::Webm => "webm"@,
        }
    }

    /// The file extension of the delivered container.
    pub fn extension(self) -> (res: &'static str)
        ensures
            res@ == self.spec_extension(),
    {
        match self {
            StreamFormat::M4a => "m4a",
            StreamFormat::Webm => "webm",
        }
    }
}

/// A download goes through ffmpeg when it converts or writes tags or cover art.
pub fn requires_ffmpeg(format: AudioFormat, options: &DownloadOptions) -> (res: bool)
    ensures
        res == (format != AudioFormat::Original || options.embed_metadata || options.embed_thumbnail),
{
    format.needs_conversion() || options.embed_metadata || options.embed_thumbnail
}

pub open spec fn spec_supports_embedded_cover(format: AudioFormat, stream: StreamFormat) -> bool {
    format == AudioFormat::Mp3 || format == AudioFormat::Flac || (format == AudioFormat::Original
        && stream == StreamFormat::M4a)
}

/// Containers that can carry an attached cover picture.
pub fn supports_embedded_cover(format: AudioFormat, stream: StreamFormat) -> (res: bool)
    ensures
        res == spec_supports_embedded_cover(format, stream),
{
    matches!(format, AudioFormat::Mp3 | AudioFormat::Flac) || (matches!(format, AudioFormat::Original)
        && matches!(stream, StreamFormat::M4a))
}

pub open spec fn spec_output_extension(format: AudioFormat, stream: StreamFormat, processed: bool) -> Seq<char> {
    match format {
        AudioFormat::Original => if processed && stream == StreamFormat::Webm {
            "mka"@
        } else {
            stream.spec_extension()
        },
        AudioFormat::Mp3 => "mp3"@,
        AudioFormat::Flac => "flac"@,
        AudioFormat::Opus => "opus"@,
        AudioFormat::Wav => "wav"@,
    }
}

/// The extension of the finished file. A processed WebM original is
/// remuxed into an audio-only Matroska container.
pub fn output_extension(format: AudioFormat, stream: StreamFormat, processed: bool) -> (res: &'static str)
    ensures
        res@ == spec_output_extension(format, stream, processed),
{
    match format {
        AudioFormat::Original => if processed && matches!(stream, StreamFormat::Webm) {
            "mka"
        } else {
            stream.extension()
        },
        AudioFormat::Mp3 => "mp3",
        AudioFormat::Flac => "flac",
        AudioFormat::Opus => "opus",
        AudioFormat::Wav => "wav",
    }
}

/// Characters `char::is_control` reports: the Unicode `Cc` category.
pub open spec fn is_control(c: char) -> bool {
    (c as u32) <= 0x1f || (0x7f <= (c as u32) && (c as u32) <= 0x9f)
}

/// Characters no file system on any platform accepts in a name.
pub open spec fn is_reserved(c: char) -> bool {
    c == '/' || c == '\\' || c == ':' || c == '*' || c == '?' || c == '"' || c == '<' || c == '>'
        || c == '|' || c == '\0' || is_control(c)
}

pub open spec fn safe_char(c: char) -> char {
    if is_reserved(c) {
        '_'
    } else {
        c
    }
}

pub open spec fn space_or_dot() -> spec_fn(char) -> bool {
    |c: char| c == ' ' || c == '.'
}

/// A title made safe as one file-name component: trimmed, reserved and
/// control characters replaced by `_`, spaces and dots stripped from both
/// ends, `Untitled` if nothing is left, and at most 180 characters.
pub open spec fn sanitized(value: Seq<char>) -> Seq<char> {
    let mapped = trimmed(value).map_values(|c: char| safe_char(c));
    let core = trim_by(mapped, space_or_dot());
    if core.len() == 0 {
        "Untitled"@
    } else if core.len() > MAX_COMPONENT_CHARS {
        core.take(MAX_COMPONENT_CHARS as int)
    } else {
        core
    }
}

/// A sanitized component never holds a character that a file system
/// refuses in a name: none of `/ \\ : * ? " < > |`, no NUL and no control
/// character. Each of its characters is `_`, or a character of the trimmed
/// input at the same place after the stripped leading spaces and dots, or a
/// letter of `Untitled`.
pub proof fn law_sanitized_holds_no_reserved_character(value: Seq<char>)
    ensures
        forall|k: int|
            0 <= k < sanitized(value).len() ==> {
                let c = #[trigger] sanitized(value)[k];
                &&& c != '/' && c != '\\' && c != ':' && c != '*' && c != '?' && c != '"'
                &&& c != '<' && c != '>' && c != '|' && c != '\0'
                &&& !((c as u32) <= 0x1f) && !(0x7f <= (c as u32) && (c as u32) <= 0x9f)
            },
        ({
            let t = trimmed(value);
            let start = lead_count(t.map_values(|c: char| safe_char(c)), space_or_dot());
            sanitized(value) != "Untitled"@ ==> forall|k: int|
                0 <= k < sanitized(value).len() ==> {
                    let c = t[k + start];
                    &&& k + start < t.len()
                    &&& #[trigger] sanitized(value)[k] == if c == '/' || c == '\\' || c == ':' || c == '*' || c == '?'
                        || c == '"' || c == '<' || c == '>' || c == '|' || c == '\0' || (c as u32) <= 0x1f || (0x7f
                        <= (c as u32) && (c as u32) <= 0x9f) {
                        '_'
                    } else {
                        c
                    }
                }
        }),
{
    let t = trimmed(value);
    let mapped = t.map_values(|c: char| safe_char(c));
    let core = trim_by(mapped, space_or_dot());
    lemma_trim_by_keeps_a_run(mapped, space_or_dot());
    let r = sanitized(value);
    reveal_strlit("Untitled");
    assert forall|k: int| 0 <= k < r.len() implies {
        let c = #[trigger] r[k];
        &&& c != '/' && c != '\\' && c != ':' && c != '*' && c != '?' && c != '"'
        &&& c != '<' && c != '>' && c != '|' && c != '\0'
        &&& !((c as u32) <= 0x1f) && !(0x7f <= (c as u32) && (c as u32) <= 0x9f)
    } by {
        if core.len() > 0 {
            let j = k + lead_count(mapped, space_or_dot());
            assert(r[k] == core[k]);
            assert(core[k] == mapped[j]);
            assert(mapped[j] == safe_char(t[j]));
        }
    }
}

fn safe(c: char) -> (res: char)
    ensures
        res == safe_char(c),
{
    let u = c as u32;
    if c == '/' || c == '\\' || c == ':' || c == '*' || c == '?' || c == '"' || c == '<' || c == '>'
        || c == '|' || c == '\0' || u <= 0x1f || (0x7f <= u && u <= 0x9f) {
        '_'
    } else {
        c
    }
}

/// Makes `value` safe to use as a file or folder name on every platform.
pub fn sanitize_component(value: &str) -> (res: String)
    ensures
        res@ == sanitized(value@),
        forall|k: int|
            0 <= k < res@.len() ==> {
                let c = #[trigger] res@[k];
                &&& c != '/' && c != '\\' && c != ':' && c != '*' && c != '?' && c != '"'
                &&& c != '<' && c != '>' && c != '|' && c != '\0'
                &&& !((c as u32) <= 0x1f) && !(0x7f <= (c as u32) && (c as u32) <= 0x9f)
            },
{
    proof {
        law_sanitized_holds_no_reserved_character(value@);
    }
    let t = trim(value);
    let n = t.unicode_len();
    let ghost mapped = t@.map_values(|c: char| safe_char(c));
    let mut chars: Vec<char> = Vec::new();
    let mut i: usize = 0;
    while i < n
        invariant
            n == t@.len(),
            i <= n,
            mapped == t@.map_values(|c: char| safe_char(c)),
            chars@ == mapped.take(i as int),
        decreases n - i,
    {
        chars.push(safe(t.get_char(i)));
        i = i + 1;
        proof {
            assert(chars@ =~= mapped.take(i as int));
        }
    }
    proof {
        assert(chars@ =~= mapped);
    }
    let mut start: usize = 0;
    while start < n && (chars[start] == ' ' || chars[start] == '.')
        invariant
            n == chars@.len(),
            start <= n,
            forall|j: int| 0 <= j < start ==> (space_or_dot())(#[trigger] chars@[j]),
        decreases n - start,
    {
        start = start + 1;
    }
    proof {
        lemma_lead_count_unique(chars@, space_or_dot(), start as nat);
    }
    let mut out = String::new();
    if start == n {
        push_str(&mut out, "Untitled");
        proof {
            assert(out@ =~= "Untitled"@);
            assert(out@ == sanitized(value@));
            assert forall|k: int| 0 <= k < out@.len() implies out@[k] == sanitized(value@)[k] by {}
        }
        return out;
    }
    let mut end: usize = n;
    while end > start && (chars[end - 1] == ' ' || chars[end - 1] == '.')
        invariant
            n == chars@.len(),
            start < n,
            !(space_or_dot())(chars@[start as int]),
            start <= end <= n,
            forall|j: int| end <= j < n ==> (space_or_dot())(#[trigger] chars@[j]),
        decreases end,
    {
        end = end - 1;
    }
    proof {
        assert(end > start);
        lemma_trail_count_unique(chars@, space_or_dot(), (n - end) as nat);
    }
    let limit = if end - start > MAX_COMPONENT_CHARS {
        start + MAX_COMPONENT_CHARS
    } else {
        end
    };
    let ghost core = chars@.subrange(start as int, end as int);
    let mut k: usize = start;
    while k < limit
        invariant
            n == chars@.len(),
            start <= k <= limit <= end <= n,
            out@ == chars@.subrange(start as int, k as int),
        decreases limit - k,
    {
        push_char(&mut out, chars[k]);
        k = k + 1;
        proof {
            assert(out@ =~= chars@.subrange(start as int, k as int));
        }
    }
    proof {
        if end - start > MAX_COMPONENT_CHARS {
            assert(out@ =~= core.take(MAX_COMPONENT_CHARS as int));
        } else {
            assert(out@ =~= core);
        }
    }
    out
}

/// The file stem of a download: `Artist - Title`, or the title alone when
/// the artist is blank.
pub open spec fn stem_of(title: Seq<char>, artist: Seq<char>) -> Seq<char> {
    if trimmed(artist).len() == 0 {
        sanitized(title)
    } else {
        sanitized(artist) + " - "@ + sanitized(title)
    }
}

pub fn output_stem(title: &str, artist: &str) -> (res: String)
    ensures
        res@ == stem_of(title@, artist@),
{
    let t = sanitize_component(title);
    if trim(artist).unicode_len() == 0 {
        t
    } else {
        let mut s = sanitize_component(artist);
        push_str(&mut s, " - ");
        push_str(&mut s, t.as_str());
        s
    }
}

/// The album folder a download goes into, when the options organize by
/// album and the album has a name.
pub fn album_folder(options: &DownloadOptions, album: &str) -> (res: Option<String>)
    ensures
        res matches Some(f) ==> f@ == sanitized(album@),
        res is Some == (options.organize_by_album && trimmed(album@).len() > 0),
{
    if options.organize_by_album && trim(album).unicode_len() != 0 {
        Some(sanitize_component(album))
    } else {
        None
    }
}

/// Cover art is fetched when it is embedded or written beside the file.
pub fn cover_requested(options: &DownloadOptions) -> (res: bool)
    ensures
        res == (options.embed_thumbnail || options.write_thumbnail),
{
    options.embed_thumbnail || options.write_thumbnail
}

/// A fetched cover is kept as a `.jpg` beside the file when asked for, or
/// when it was meant to be embedded into a container that cannot hold it.
pub fn keep_cover_sidecar(options: &DownloadOptions, format: AudioFormat, stream: StreamFormat) -> (res: bool)
    ensures
        res == (options.write_thumbnail || (options.embed_thumbnail && !spec_supports_embedded_cover(
            format,
            stream,
        ))),
{
    options.write_thumbnail || (options.embed_thumbnail && !supports_embedded_cover(format, stream))
}

/// The configured output directory, trimmed, unless it is blank.
pub fn configured_output_root(configured: &str) -> (res: Option<&str>)
    ensures
        res matches Some(r) ==> r@ == trimmed(configured@) && r@.len() > 0,
        res is None == (trimmed(configured@).len() == 0),
{
    let t = trim(configured);
    if t.unicode_len() == 0 {
        None
    } else {
        Some(t)
    }
}

pub open spec fn spec_format_eta(seconds: u64) -> Seq<char> {
    decimal((seconds / 60) as nat) + ":"@ + decimal2((seconds % 60) as nat)
}

/// Remaining time as `m:ss`.
pub fn format_eta(seconds: u64) -> (res: String)
    ensures
        res@ == spec_format_eta(seconds),
{
    let mut s = String::new();
    push_decimal(&mut s, seconds / 60);
    push_str(&mut s, ":");
    push_decimal2(&mut s, seconds % 60);
    proof {
        assert(s@ =~= spec_format_eta(seconds));
    }
    s
}

pub open spec fn spec_format_duration(seconds: u64) -> Seq<char> {
    if seconds == 0 {
        Seq::<char>::empty()
    } else if seconds >= 3600 {
        decimal((seconds / 3600) as nat) + ":"@ + decimal2(((seconds % 3600) / 60) as nat) + ":"@
            + decimal2((seconds % 60) as nat)
    } else {
        decimal((seconds / 60) as nat) + ":"@ + decimal2((seconds % 60) as nat)
    }
}

/// A track length as `m:ss` or `h:mm:ss`; an unknown (zero) length is blank.
pub fn format_duration(seconds: u64) -> (res: String)
    ensures
        res@ == spec_format_duration(seconds),
{
    let mut s = String::new();
    if seconds == 0 {
    } else if seconds >= 3600 {
        push_decimal(&mut s, seconds / 3600);
        push_str(&mut s, ":");
        push_decimal2(&mut s, (seconds % 3600) / 60);
        push_str(&mut s, ":");
        push_decimal2(&mut s, seconds % 60);
    } else {
        push_decimal(&mut s, seconds / 60);
        push_str(&mut s, ":");
        push_decimal2(&mut s, seconds % 60);
    }
    proof {
        assert(s@ =~= spec_format_duration(seconds));
    }
    s
}

impl JobStatus {
    /// A job that has not finished yet.
    pub open spec fn spec_is_active(&self) -> bool {
        !(self is Completed || self is Failed)
    }

    pub fn is_active(&self) -> (res: bool)
        ensures
            res == self.spec_is_active(),
            res == (*self is Pending || *self is Resolving || *self is Downloading || *self is Processing),
            res == !(*self is Completed || *self is Failed),
    {
        matches!(self, JobStatus::Pending | JobStatus::Resolving | JobStatus::Downloading | JobStatus::Processing)
    }
}

/// The status a job seeded from a history entry shows.
pub fn seeded_status(entry_status: &str, error: &Option<String>) -> (res: JobStatus)
    ensures
        entry_status@ == "completed"@ ==> res == JobStatus::Completed,
        entry_status@ != "completed"@ ==> (res matches JobStatus::Failed(m) && m@ == match error {
            Some(e) => e@,
            None => Seq::<char>::empty(),
        }),
{
    if str_equals(entry_status, "completed") {
        JobStatus::Completed
    } else {
        match error {
            Some(e) => JobStatus::Failed(e.clone()),
            None => JobStatus::Failed(String::new()),
        }
    }
}

/// The history entry a finished job leaves: `completed` without an error,
/// `failed` with one. A job that is no longer listed leaves a blank failed
/// entry in the `Original` format.
pub fn history_entry(
    job: Option<(&str, &str, AudioFormat)>,
    error: Option<String>,
) -> (res: HistoryEntry)
    ensures
        res.error == error,
        res.status@ == if error is Some || job is None {
            "failed"@
        } else {
            "completed"@
        },
        match job {
            Some((video_id, title, format)) => {
                &&& res.video_id@ == video_id@
                &&& res.title@ == title@
                &&& res.format@ == spec_storage_label(format)
            },
            None => {
                &&& res.video_id@ == Seq::<char>::empty()
                &&& res.title@ == Seq::<char>::empty()
                &&& res.format@ == "Original"@
            },
        },
{
    match job {
        Some((video_id, title, format)) => {
            let status = if error.is_some() {
                String::from_str("failed")
            } else {
                String::from_str("completed")
            };
            HistoryEntry {
                video_id: String::from_str(video_id),
                title: String::from_str(title),
                format: String::from_str(format.storage_label()),
                status,
                error,
            }
        },
        None => HistoryEntry {
            video_id: String::new(),
            title: String::new(),
            format: String::from_str(AudioFormat::Original.storage_label()),
            status: String::from_str("failed"),
            error,
        },
    }
}

/// Records a finished download at the head of the history, which keeps the
/// newest [`HISTORY_LIMIT`] entries.
pub fn record_history(history: &mut Vec<HistoryEntry>, entry: HistoryEntry)
    ensures
        final(history)@ == (seq![entry] + old(history)@).take(
            if old(history)@.len() + 1 > HISTORY_LIMIT {
                HISTORY_LIMIT as int
            } else {
                old(history)@.len() as int + 1
            },
        ),
{
    history.insert(0, entry);
    history.truncate(HISTORY_LIMIT);
    proof {
        assert(final(history)@ =~= (seq![entry] + old(history)@).take(
            if old(history)@.len() + 1 > HISTORY_LIMIT {
                HISTORY_LIMIT as int
            } else {
                old(history)@.len() as int + 1
            },
        ));
    }
}

/// The byte range requested next: from `start` up to `RANGE_SIZE` bytes,
/// never past the last byte.
pub open spec fn range_end(start: u64, total: u64) -> u64 {
    if start + RANGE_SIZE - 1 < total - 1 {
        (start + RANGE_SIZE - 1) as u64
    } else {
        (total - 1) as u64
    }
}

/// The inclusive end of the range that starts at `start`.
pub fn next_range_end(start: u64, total: u64) -> (end: u64)
    requires
        start < total,
        start + RANGE_SIZE <= u64::MAX,
    ensures
        end == range_end(start, total),
        start <= end < total,
        end - start + 1 <= RANGE_SIZE,
{
    let candidate = start + RANGE_SIZE - 1;
    if candidate < total - 1 {
        candidate
    } else {
        total - 1
    }
}

/// The ranges a download of `total` bytes asks for, in order: they start at
/// zero, each starts right after the previous one ends, none is longer than
/// `RANGE_SIZE`, and the last ends at the last byte.
pub fn plan_ranges(total: u64) -> (ranges: Vec<(u64, u64)>)
    requires
        total + RANGE_SIZE <= u64::MAX,
    ensures
        total == 0 ==> ranges@.len() == 0,
        total > 0 ==> ranges@.len() > 0 && ranges@[0].0 == 0 && ranges@.last().1 == total - 1,
        forall|i: int|
            0 <= i < ranges@.len() ==> ranges@[i].0 <= #[trigger] ranges@[i].1 < total && ranges@[i].1
                - ranges@[i].0 + 1 <= RANGE_SIZE && ranges@[i].1 == range_end(ranges@[i].0, total),
        forall|i: int| 0 < i < ranges@.len() ==> #[trigger] ranges@[i].0 == ranges@[i - 1].1 + 1,
{
    let mut ranges: Vec<(u64, u64)> = Vec::new();
    let mut start: u64 = 0;
    while start < total
        invariant
            total + RANGE_SIZE <= u64::MAX,
            start <= total,
            start == 0 <==> ranges@.len() == 0,
            ranges@.len() > 0 ==> start == ranges@.last().1 + 1,
            ranges@.len() > 0 ==> ranges@[0].0 == 0,
            forall|i: int|
                0 <= i < ranges@.len() ==> ranges@[i].0 <= #[trigger] ranges@[i].1 < total && ranges@[i].1
                    - ranges@[i].0 + 1 <= RANGE_SIZE && ranges@[i].1 == range_end(ranges@[i].0, total),
            forall|i: int| 0 < i < ranges@.len() ==> #[trigger] ranges@[i].0 == ranges@[i - 1].1 + 1,
        decreases total - start,
    {
        let end = next_range_end(start, total);
        ranges.push((start, end));
        start = end + 1;
    }
    ranges
}

/// The `Range` header value for an inclusive byte range.
pub fn range_header(start: u64, end: u64) -> (res: String)
    ensures
        res@ == "bytes="@ + decimal(start as nat) + "-"@ + decimal(end as nat),
{
    let mut s = String::from_str("bytes=");
    push_decimal(&mut s, start);
    push_str(&mut s, "-");
    push_decimal(&mut s, end);
    s
}

/// Pause before retrying a failed range: 250 ms times the attempt number.
pub fn retry_delay_millis(attempt: u8) -> (res: u64)
    ensures
        res == 250 * attempt,
{
    250 * (attempt as u64)
}

/// `stem (index).ext`, the name tried when `stem.ext` is taken.
pub fn numbered_name(stem: &str, index: u32, extension: Option<&str>) -> (res: String)
    ensures
        res@ == stem@ + " ("@ + decimal(index as nat) + ")"@ + match extension {
            Some(e) => "."@ + e@,
            None => Seq::<char>::empty(),
        },
{
    let mut s = String::from_str(stem);
    push_str(&mut s, " (");
    push_decimal(&mut s, index as u64);
    push_str(&mut s, ")");
    match extension {
        Some(e) => {
            push_str(&mut s, ".");
            push_str(&mut s, e);
        },
        None => {},
    }
    proof {
        assert(s@ =~= stem@ + " ("@ + decimal(index as nat) + ")"@ + match extension {
            Some(e) => "."@ + e@,
            None => Seq::<char>::empty(),
        });
    }
    s
}

/// The last number tried in a numbered name before a random one is used.
pub const LAST_NUMBERED_INDEX: u32 = 9999;

/// When the wanted name is taken, the names are tried in turn: numbers 2
/// up to [`LAST_NUMBERED_INDEX`], then a random fallback. The name tried at
/// step `index`, or `None` when the numbers are used up.
pub fn numbered_candidate(stem: &str, index: u32, extension: Option<&str>) -> (res: Option<String>)
    requires
        index >= 2,
    ensures
        index <= LAST_NUMBERED_INDEX ==> (res matches Some(name) && name@ == stem@ + " ("@ + decimal(index as nat)
            + ")"@ + match extension {
            Some(e) => "."@ + e@,
            None => Seq::<char>::empty(),
        }),
        index > LAST_NUMBERED_INDEX ==> res is None,
{
    if index <= LAST_NUMBERED_INDEX {
        Some(numbered_name(stem, index, extension))
    } else {
        None
    }
}


/// Whether `c` is a lowercase hexadecimal digit.
pub open spec fn is_lower_hex(c: char) -> bool {
    ('0' <= c <= '9') || ('a' <= c <= 'f')
}

/// Whether `s` is a version-4 UUID written the way `uuid` displays one:
/// 36 characters, hyphens at 8, 13, 18 and 23, lowercase hexadecimal digits
/// elsewhere, the version digit `4` and a variant digit of `8`, `9`, `a` or
/// `b`.
pub open spec fn is_uuid_v4_text(s: Seq<char>) -> bool {
    &&& s.len() == 36
    &&& forall|i: int|
        0 <= i < 36 ==> if i == 8 || i == 13 || i == 18 || i == 23 {
            #[trigger] s[i] == '-'
        } else {
            is_lower_hex(s[i])
        }
    &&& s[14] == '4'
    &&& (s[19] == '8' || s[19] == '9' || s[19] == 'a' || s[19] == 'b')
}

/// The lowercase hexadecimal digit of `n` (below 16).
pub open spec fn hex_digit(n: u8) -> char {
    if n < 10 {
        (48 + n) as char
    } else {
        (87 + n) as char
    }
}

/// Byte `j` of a version-4 UUID made from `bytes`: the version `4` goes
/// into the high half of byte 6, the RFC 4122 variant bits `10` into the
/// top of byte 8.
pub open spec fn uuid_byte(bytes: Seq<u8>, j: int) -> u8 {
    if j == 6 {
        (bytes[6] & 0x0f) | 0x40
    } else if j == 8 {
        (bytes[8] & 0x3f) | 0x80
    } else {
        bytes[j]
    }
}

/// Which hexadecimal digit of the UUID stands at character `i` of its
/// hyphenated form.
pub open spec fn uuid_digit_index(i: int) -> int {
    i - if i > 23 {
        4int
    } else if i > 18 {
        3int
    } else if i > 13 {
        2int
    } else if i > 8 {
        1int
    } else {
        0int
    }
}

/// The hyphenated lowercase text of the version-4 UUID made from 16 random
/// bytes: 32 hexadecimal digits, high half of each byte first, with
/// hyphens at 8, 13, 18 and 23.
pub open spec fn uuid_text(bytes: Seq<u8>) -> Seq<char> {
    Seq::new(
        36,
        |i: int|
            if i == 8 || i == 13 || i == 18 || i == 23 {
                '-'
            } else {
                let k = uuid_digit_index(i);
                let b = uuid_byte(bytes, k / 2);
                hex_digit(
                    if k % 2 == 0 {
                        b >> 4u8
                    } else {
                        b & 0x0f
                    },
                )
            },
    )
}

/// `uuid::Builder::from_random_bytes(bytes).into_uuid().to_string()`: the
/// version-4 UUID made from 16 random bytes (the builder sets the version
/// and variant bits), displayed hyphenated in lowercase. The bytes are drawn
/// by the caller; this conversion does not fail.
#[verifier::external_body]
pub(crate) fn uuid_from_random_bytes(bytes: [u8; 16]) -> (res: String)
    ensures
        res@ == uuid_text(bytes@),
        is_uuid_v4_text(res@),
{
    uuid::Builder::from_random_bytes(bytes).into_uuid().to_string()
}

/// The hidden file a stream is downloaded into before ffmpeg or the final
/// rename: `.<uuid>.source.<ext>` next to the destination, the UUID made
/// from `random`.
pub fn source_file_name(stream: StreamFormat, random: [u8; 16]) -> (res: String)
    ensures
        res@ == "."@ + uuid_text(random@) + ".source."@ + stream.spec_extension(),
        is_uuid_v4_text(res@.subrange(1, 37)),
{
    let id = uuid_from_random_bytes(random);
    let mut name = String::from_str(".");
    push_str(&mut name, id.as_str());
    push_str(&mut name, ".source.");
    push_str(&mut name, stream.extension());
    proof {
        reveal_strlit(".");
        assert(name@.subrange(1, 37) =~= id@);
    }
    name
}

/// The name tried when every numbered name is taken: `stem - <uuid>`, the
/// UUID made from `random`.
pub fn unique_fallback_name(stem: &str, random: [u8; 16]) -> (res: String)
    ensures
        res@ == stem@ + " - "@ + uuid_text(random@),
        is_uuid_v4_text(res@.subrange(stem@.len() as int + 3, res@.len() as int)),
{
    let id = uuid_from_random_bytes(random);
    let mut name = String::from_str(stem);
    push_str(&mut name, " - ");
    push_str(&mut name, id.as_str());
    proof {
        reveal_strlit(" - ");
        assert(name@.subrange(stem@.len() as int + 3, name@.len() as int) =~= id@);
    }
    name
}

/// The file written and removed to check that a directory takes writes:
/// `.kopuz-write-test-<uuid>`, the UUID made from `random`.
pub fn write_probe_name(random: [u8; 16]) -> (res: String)
    ensures
        res@ == ".kopuz-write-test-"@ + uuid_text(random@),
        is_uuid_v4_text(res@.subrange(18, 54)),
{
    let id = uuid_from_random_bytes(random);
    let mut name = String::from_str(".kopuz-write-test-");
    push_str(&mut name, id.as_str());
    proof {
        reveal_strlit(".kopuz-write-test-");
        assert(name@.subrange(18, 54) =~= id@);
    }
    name
}

/// The tags a downloaded track carries into ffmpeg.
#[derive(Clone, Debug, PartialEq, Eq)]
pub struct TrackTags {
    pub title: String,
    pub artist: String,
    pub album: String,
    pub track_number: Option<u32>,
    pub video_id: String,
}

pub open spec fn views(v: Seq<String>) -> Seq<Seq<char>> {
    v.map_values(|s: String| s@)
}

pub open spec fn codec_args(f: AudioFormat) -> Seq<Seq<char>> {
    match f {
        AudioFormat::Original => seq!["-c:a"@, "copy"@],
        AudioFormat::Mp3 => seq!["-c:a"@, "libmp3lame"@, "-q:a"@, "0"@, "-id3v2_version"@, "3"@],
        AudioFormat::Flac => seq!["-c:a"@, "flac"@],
        AudioFormat::Opus => seq!["-c:a"@, "libopus"@, "-b:a"@, "192k"@],
        AudioFormat::Wav => seq!["-c:a"@, "pcm_s16le"@],
    }
}

pub open spec fn cover_map_args() -> Seq<Seq<char>> {
    seq![
        "-map"@,
        "1:v:0"@,
        "-c:v"@,
        "mjpeg"@,
        "-disposition:v:0"@,
        "attached_pic"@,
        "-metadata:s:v"@,
        "title=Album cover"@,
        "-metadata:s:v"@,
        "comment=Cover (front)"@,
    ]
}

pub open spec fn metadata_args(tags: TrackTags) -> Seq<Seq<char>> {
    seq!["-metadata"@, "title="@ + tags.title@, "-metadata"@, "artist="@ + tags.artist@] + (if trimmed(
        tags.album@,
    ).len() > 0 {
        seq!["-metadata"@, "album="@ + tags.album@]
    } else {
        Seq::<Seq<char>>::empty()
    }) + (match tags.track_number {
        Some(n) => seq!["-metadata"@, "track="@ + decimal(n as nat)],
        None => Seq::<Seq<char>>::empty(),
    }) + seq!["-metadata"@, "purl=https://music.youtube.com/watch?v="@ + tags.video_id@]
}

/// The ffmpeg command line of a download: overwrite or not, the source and
/// the cover as inputs, the first audio stream, the cover attached as a
/// picture where the container takes one (no video otherwise), the codec of
/// the wanted format, the tags when asked for, then the destination.
pub open spec fn ffmpeg_arg_list(
    source: Seq<char>,
    destination: Seq<char>,
    cover: Option<Seq<char>>,
    tags: TrackTags,
    format: AudioFormat,
    stream: StreamFormat,
    options: DownloadOptions,
) -> Seq<Seq<char>> {
    let embed = options.embed_thumbnail && spec_supports_embedded_cover(format, stream);
    seq![
        "-hide_banner"@,
        "-loglevel"@,
        "error"@,
        "-nostdin"@,
        if options.overwrite_existing {
            "-y"@
        } else {
            "-n"@
        },
        "-i"@,
        source,
    ] + (match cover {
        Some(c) if embed => seq!["-i"@, c],
        _ => Seq::<Seq<char>>::empty(),
    }) + seq!["-map"@, "0:a:0"@] + (if embed && cover is Some {
        cover_map_args()
    } else {
        seq!["-vn"@]
    }) + codec_args(format) + (if options.embed_metadata {
        metadata_args(tags)
    } else {
        Seq::<Seq<char>>::empty()
    }) + seq![destination]
}

fn push_arg(args: &mut Vec<String>, a: &str)
    ensures
        views(final(args)@) == views(old(args)@).push(a@),
{
    args.push(String::from_str(a));
    proof {
        assert(views(final(args)@) =~= views(old(args)@).push(a@));
    }
}

fn push_arg_string(args: &mut Vec<String>, a: String)
    ensures
        views(final(args)@) == views(old(args)@).push(a@),
{
    let ghost v = a@;
    args.push(a);
    proof {
        assert(views(final(args)@) =~= views(old(args)@).push(v));
    }
}

fn push_codec(args: &mut Vec<String>, format: AudioFormat)
    ensures
        views(final(args)@) == views(old(args)@) + codec_args(format),
{
    let ghost start = views(args@);
    push_arg(args, "-c:a");
    match format {
        AudioFormat::Original => {
            push_arg(args, "copy");
        },
        AudioFormat::Mp3 => {
            push_arg(args, "libmp3lame");
            push_arg(args, "-q:a");
            push_arg(args, "0");
            push_arg(args, "-id3v2_version");
            push_arg(args, "3");
        },
        AudioFormat::Flac => {
            push_arg(args, "flac");
        },
        AudioFormat::Opus => {
            push_arg(args, "libopus");
            push_arg(args, "-b:a");
            push_arg(args, "192k");
        },
        AudioFormat::Wav => {
            push_arg(args, "pcm_s16le");
        },
    }
    proof {
        assert(views(args@) =~= start + codec_args(format));
    }
}

fn push_cover_map(args: &mut Vec<String>)
    ensures
        views(final(args)@) == views(old(args)@) + cover_map_args(),
{
    let ghost start = views(args@);
    push_arg(args, "-map");
    push_arg(args, "1:v:0");
    push_arg(args, "-c:v");
    push_arg(args, "mjpeg");
    push_arg(args, "-disposition:v:0");
    push_arg(args, "attached_pic");
    push_arg(args, "-metadata:s:v");
    push_arg(args, "title=Album cover");
    push_arg(args, "-metadata:s:v");
    push_arg(args, "comment=Cover (front)");
    proof {
        assert(views(args@) =~= start + cover_map_args());
    }
}

fn prefixed(prefix: &str, value: &str) -> (res: String)
    ensures
        res@ == prefix@ + value@,
{
    let mut s = String::from_str(prefix);
    push_str(&mut s, value);
    s
}

fn push_metadata(args: &mut Vec<String>, tags: &TrackTags)
    ensures
        views(final(args)@) == views(old(args)@) + metadata_args(*tags),
{
    let ghost start = views(args@);
    push_arg(args, "-metadata");
    push_arg_string(args, prefixed("title=", tags.title.as_str()));
    push_arg(args, "-metadata");
    push_arg_string(args, prefixed("artist=", tags.artist.as_str()));
    let ghost a1 = views(args@);
    if trim(tags.album.as_str()).unicode_len() != 0 {
        push_arg(args, "-metadata");
        push_arg_string(args, prefixed("album=", tags.album.as_str()));
    }
    let ghost a2 = views(args@);
    match tags.track_number {
        Some(n) => {
            push_arg(args, "-metadata");
            let mut t = String::from_str("track=");
            push_decimal(&mut t, n as u64);
            push_arg_string(args, t);
        },
        None => {},
    }
    let ghost a3 = views(args@);
    push_arg(args, "-metadata");
    push_arg_string(args, prefixed("purl=https://music.youtube.com/watch?v=", tags.video_id.as_str()));
    proof {
        assert(views(args@) =~= start + metadata_args(*tags));
    }
}

/// Builds the ffmpeg arguments of a download.
pub fn ffmpeg_args(
    source: &str,
    destination: &str,
    cover: Option<&str>,
    tags: &TrackTags,
    format: AudioFormat,
    stream: StreamFormat,
    options: &DownloadOptions,
) -> (res: Vec<String>)
    ensures
        views(res@) == ffmpeg_arg_list(
            source@,
            destination@,
            match cover {
                Some(c) => Some(c@),
                None => None,
            },
            *tags,
            format,
            stream,
            *options,
        ),
{
    let mut args: Vec<String> = Vec::new();
    let embed = options.embed_thumbnail && supports_embedded_cover(format, stream);
    push_arg(&mut args, "-hide_banner");
    push_arg(&mut args, "-loglevel");
    push_arg(&mut args, "error");
    push_arg(&mut args, "-nostdin");
    if options.overwrite_existing {
        push_arg(&mut args, "-y");
    } else {
        push_arg(&mut args, "-n");
    }
    push_arg(&mut args, "-i");
    push_arg(&mut args, source);
    let ghost a0 = views(args@);
    match cover {
        Some(c) => {
            if embed {
                push_arg(&mut args, "-i");
                push_arg(&mut args, c);
            }
        },
        None => {},
    }
    let ghost a1 = views(args@);
    push_arg(&mut args, "-map");
    push_arg(&mut args, "0:a:0");
    let ghost a2 = views(args@);
    if embed && cover.is_some() {
        push_cover_map(&mut args);
    } else {
        push_arg(&mut args, "-vn");
    }
    let ghost a3 = views(args@);
    push_codec(&mut args, format);
    let ghost a4 = views(args@);
    if options.embed_metadata {
        push_metadata(&mut args, tags);
    }
    let ghost a5 = views(args@);
    push_arg(&mut args, destination);
    proof {
        let cv = match cover {
            Some(c) => Some(c@),
            None => None,
        };
        assert(views(args@) =~= ffmpeg_arg_list(source@, destination@, cv, *tags, format, stream, *options));
    }
    args
}

} // verus!
