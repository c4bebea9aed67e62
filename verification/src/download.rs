use vstd::prelude::*;
use vstd::string::*;

verus! {

/// Progress is reported at most once per this many milliseconds while
/// downloading (and once more at the end).
pub const PROGRESS_INTERVAL_MS: u64 = 100;

/// How far a download has come, reported under `step`.
#[derive(Debug, Clone)]
pub struct DownloadProgress {
    pub step: String,
    pub downloaded: u64,
    /// The announced size, or 0 when the server announced none.
    pub total: u64,
}

/// Why a download failed.
#[derive(Debug, Clone)]
pub enum DownloadFailure {
    /// The request could not be sent; the transport's message.
    Request(String),
    /// The server answered with this non-success status line.
    Status(String),
    /// Reading the body failed; the transport's message.
    Body(String),
}

/// A download that has not received anything yet.
pub fn start_download(step: &str, content_length: Option<u64>) -> (r: DownloadProgress)
    ensures
        r.step@ == step@,
        r.downloaded == 0,
        r.total == (match content_length {
            Some(n) => n,
            None => 0,
        }),
{
    let total = match content_length {
        Some(n) => n,
        None => 0,
    };
    DownloadProgress { step: String::from_str(step), downloaded: 0, total }
}

/// Counts a received chunk of `len` bytes and says whether to report
/// progress, which happens when more than the reporting interval has passed
/// since the last report.
pub fn on_chunk(p: &mut DownloadProgress, len: u64, ms_since_report: u64) -> (report: bool)
    requires
        old(p).downloaded + len <= u64::MAX,
    ensures
        final(p).downloaded == old(p).downloaded + len,
        final(p).total == old(p).total,
        final(p).step@ == old(p).step@,
        report == (ms_since_report > PROGRESS_INTERVAL_MS),
{
    p.downloaded = p.downloaded + len;
    ms_since_report > PROGRESS_INTERVAL_MS
}

/// The message of a failed download.
pub fn download_error(f: DownloadFailure) -> (r: String)
    ensures
        match f {
            DownloadFailure::Request(e) => r@ == "Download failed: "@ + e@,
            DownloadFailure::Status(s) => r@ == "HTTP "@ + s@,
            DownloadFailure::Body(e) => r@ == "Download error: "@ + e@,
        },
{
    match f {
        DownloadFailure::Request(e) => String::from_str("Download failed: ").concat(e.as_str()),
        DownloadFailure::Status(s) => String::from_str("HTTP ").concat(s.as_str()),
        DownloadFailure::Body(e) => String::from_str("Download error: ").concat(e.as_str()),
    }
}

/// The head of the server's answer.
#[derive(Debug, Clone)]
pub struct HttpHead {
    pub success: bool,
    /// The status line, as shown in errors.
    pub status: String,
    pub content_length: Option<u64>,
}

/// Where a download stands.
pub enum DownloadStage {
    /// The destination's directory is being made.
    Preparing { step: String },
    /// The request is being sent.
    Requesting { step: String },
    /// The destination file is being created.
    Creating(DownloadProgress),
    /// The next chunk of the body is being read.
    Reading(DownloadProgress),
    /// A chunk of `len` bytes is being written.
    Writing { progress: DownloadProgress, len: u64 },
    /// Nothing more to do.
    Done,
}

/// The outcome of the last action, reported back to `download_step`.
pub enum DownloadEvent {
    DirReady(Result<(), String>),
    Responded(Result<HttpHead, String>),
    FileCreated(Result<(), String>),
    /// The length of the next chunk, `None` at the end of the body.
    ChunkRead(Result<Option<u64>, String>),
    /// Whether the chunk was written, and the milliseconds since the last
    /// progress report.
    ChunkWritten(Result<(), String>, u64),
}

/// What to do next.
pub enum DownloadAction {
    /// The event does not belong to the stage: nothing to do.
    Nothing,
    /// Send the request.
    Request,
    /// Create (or truncate) the destination file.
    CreateFile,
    /// Read the next chunk of the body.
    ReadChunk,
    /// Write the chunk just read.
    WriteChunk,
    /// Report this progress, restart the report timer, then read the next
    /// chunk.
    Report { step: String, downloaded: u64, total: u64 },
    /// Report this final progress and finish successfully.
    Succeed { step: String, downloaded: u64, total: u64 },
    /// Fail with this message.
    Fail(String),
}

/// The start of a download reported under `step`: make the destination's
/// directory first.
pub fn start_download_run(step: &str) -> (r: DownloadStage)
    ensures
        r matches DownloadStage::Preparing { step: s } && s@ == step@,
{
    DownloadStage::Preparing { step: String::from_str(step) }
}

/// `r` ends the download with exactly `e`.
pub open spec fn download_fails_with(r: (DownloadStage, DownloadAction), e: Seq<char>) -> bool {
    &&& r.0 is Done
    &&& r.1 matches DownloadAction::Fail(m) && m@ == e
}

/// The counter would not overflow when a written chunk is counted.
pub open spec fn chunk_fits(stage: DownloadStage, event: DownloadEvent) -> bool {
    match (stage, event) {
        (DownloadStage::Writing { progress, len }, DownloadEvent::ChunkWritten(Ok(_), _)) => progress.downloaded
            + len <= u64::MAX,
        _ => true,
    }
}

/// One step of a download: make the directory, send the request, fail on a
/// non-success status before the file is touched, create the file, then read
/// and write chunk by chunk, reporting progress when more than the interval
/// has passed, and at the end report the final progress and succeed. Every
/// failure ends the download with its message.
pub open spec fn is_download_step(stage: DownloadStage, event: DownloadEvent, r: (DownloadStage, DownloadAction)) -> bool {
    match (stage, event) {
        (DownloadStage::Preparing { .. }, DownloadEvent::DirReady(Err(e))) => download_fails_with(r, e@),
        (DownloadStage::Preparing { step }, DownloadEvent::DirReady(Ok(_))) => {
            &&& r.0 matches DownloadStage::Requesting { step: s } && s@ == step@
            &&& r.1 is Request
        },
        (DownloadStage::Requesting { .. }, DownloadEvent::Responded(Err(e))) => download_fails_with(
            r,
            "Download failed: "@ + e@,
        ),
        (DownloadStage::Requesting { step }, DownloadEvent::Responded(Ok(head))) => if head.success {
            &&& r.0 matches DownloadStage::Creating(p) && p.step@ == step@ && p.downloaded == 0 && p.total == (
            match head.content_length {
                Some(n) => n,
                None => 0,
            })
            &&& r.1 is CreateFile
        } else {
            download_fails_with(r, "HTTP "@ + head.status@)
        },
        (DownloadStage::Creating(_), DownloadEvent::FileCreated(Err(e))) => download_fails_with(r, e@),
        (DownloadStage::Creating(p), DownloadEvent::FileCreated(Ok(_))) => {
            &&& r.0 matches DownloadStage::Reading(q) && q.step@ == p.step@ && q.downloaded == p.downloaded
                && q.total == p.total
            &&& r.1 is ReadChunk
        },
        (DownloadStage::Reading(_), DownloadEvent::ChunkRead(Err(e))) => download_fails_with(
            r,
            "Download error: "@ + e@,
        ),
        (DownloadStage::Reading(p), DownloadEvent::ChunkRead(Ok(None))) => {
            &&& r.0 is Done
            &&& r.1 matches DownloadAction::Succeed { step, downloaded, total } && step@ == p.step@
                && downloaded == p.downloaded && total == p.total
        },
        (DownloadStage::Reading(p), DownloadEvent::ChunkRead(Ok(Some(len)))) => {
            &&& r.0 matches DownloadStage::Writing { progress: q, len: l } && q.step@ == p.step@
                && q.downloaded == p.downloaded && q.total == p.total && l == len
            &&& r.1 is WriteChunk
        },
        (DownloadStage::Writing { .. }, DownloadEvent::ChunkWritten(Err(e), _)) => download_fails_with(r, e@),
        (DownloadStage::Writing { progress, len }, DownloadEvent::ChunkWritten(Ok(_), ms)) => {
            &&& r.0 matches DownloadStage::Reading(q) && q.step@ == progress.step@ && q.downloaded
                == progress.downloaded + len && q.total == progress.total
            &&& if ms > PROGRESS_INTERVAL_MS {
                r.1 matches DownloadAction::Report { step, downloaded, total } && step@ == progress.step@
                    && downloaded == progress.downloaded + len && total == progress.total
            } else {
                r.1 is ReadChunk
            }
        },
        (s, _) => r.0 == s && r.1 is Nothing,
    }
}

/// One step of a download.
pub fn download_step(stage: DownloadStage, event: DownloadEvent) -> (r: (DownloadStage, DownloadAction))
    requires
        chunk_fits(stage, event),
    ensures
        is_download_step(stage, event, r),
{
    match (stage, event) {
        (DownloadStage::Preparing { step }, DownloadEvent::DirReady(ready)) => match ready {
            Err(e) => (DownloadStage::Done, DownloadAction::Fail(e)),
            Ok(_) => (DownloadStage::Requesting { step }, DownloadAction::Request),
        },
        (DownloadStage::Requesting { step }, DownloadEvent::Responded(answer)) => match answer {
            Err(e) => (DownloadStage::Done, DownloadAction::Fail(download_error(DownloadFailure::Request(e)))),
            Ok(head) => if head.success {
                (DownloadStage::Creating(start_download(step.as_str(), head.content_length)), DownloadAction::CreateFile)
            } else {
                (DownloadStage::Done, DownloadAction::Fail(download_error(DownloadFailure::Status(head.status))))
            },
        },
        (DownloadStage::Creating(p), DownloadEvent::FileCreated(created)) => match created {
            Err(e) => (DownloadStage::Done, DownloadAction::Fail(e)),
            Ok(_) => (DownloadStage::Reading(p), DownloadAction::ReadChunk),
        },
        (DownloadStage::Reading(p), DownloadEvent::ChunkRead(read)) => match read {
            Err(e) => (DownloadStage::Done, DownloadAction::Fail(download_error(DownloadFailure::Body(e)))),
            Ok(None) => {
                let step = p.step.clone();
                (DownloadStage::Done, DownloadAction::Succeed { step, downloaded: p.downloaded, total: p.total })
            },
            Ok(Some(len)) => (DownloadStage::Writing { progress: p, len }, DownloadAction::WriteChunk),
        },
        (DownloadStage::Writing { progress, len }, DownloadEvent::ChunkWritten(written, ms)) => match written {
            Err(e) => (DownloadStage::Done, DownloadAction::Fail(e)),
            Ok(_) => {
                let mut p = progress;
                let report = on_chunk(&mut p, len, ms);
                if report {
                    let step = p.step.clone();
                    let (downloaded, total) = (p.downloaded, p.total);
                    (DownloadStage::Reading(p), DownloadAction::Report { step, downloaded, total })
                } else {
                    (DownloadStage::Reading(p), DownloadAction::ReadChunk)
                }
            },
        },
        (s, _) => (s, DownloadAction::Nothing),
    }
}

/// A run of download steps from the start.
pub open spec fn is_download_run(
    stages: Seq<DownloadStage>,
    events: Seq<DownloadEvent>,
    actions: Seq<DownloadAction>,
) -> bool {
    &&& stages.len() == events.len() + 1
    &&& actions.len() == events.len()
    &&& stages[0] is Preparing
    &&& forall|k: int|
        0 <= k < events.len() ==> #[trigger] is_download_step(stages[k], events[k], (stages[k + 1], actions[k]))
}

/// The server answered with a success status.
pub open spec fn is_success_answer(e: DownloadEvent) -> bool {
    e matches DownloadEvent::Responded(Ok(h)) && h.success
}

/// Some earlier answer had a success status.
pub open spec fn success_before(events: Seq<DownloadEvent>, k: int) -> bool {
    exists|j: int| 0 <= j < k && #[trigger] is_success_answer(events[j])
}

/// The stage is one in which the file exists or is being made.
pub open spec fn file_stage(s: DownloadStage) -> bool {
    s is Creating || s is Reading || s is Writing
}

proof fn lemma_file_stages_follow_success(
    stages: Seq<DownloadStage>,
    events: Seq<DownloadEvent>,
    actions: Seq<DownloadAction>,
    k: int,
)
    requires
        is_download_run(stages, events, actions),
        0 <= k <= events.len(),
    ensures
        file_stage(stages[k]) ==> success_before(events, k),
    decreases k,
{
    if k > 0 {
        let j = k - 1;
        lemma_file_stages_follow_success(stages, events, actions, j);
        assert(is_download_step(stages[j], events[j], (stages[j + 1], actions[j])));
        if file_stage(stages[k]) && !file_stage(stages[j]) {
            assert(is_success_answer(events[j]));
        }
        if success_before(events, j) {
            let w = choose|w: int| 0 <= w < j && #[trigger] is_success_answer(events[w]);
            assert(is_success_answer(events[w]));
        }
    }
}

/// In a download, the file is created, and progress is reported, only after
/// the server answered with a success status; a non-success status fails
/// before either.
pub proof fn law_file_only_after_success(
    stages: Seq<DownloadStage>,
    events: Seq<DownloadEvent>,
    actions: Seq<DownloadAction>,
    k: int,
)
    requires
        is_download_run(stages, events, actions),
        0 <= k < events.len(),
        (actions[k] is CreateFile) || (actions[k] is Report) || (actions[k] is Succeed),
    ensures
        success_before(events, k + 1),
{
    assert(is_download_step(stages[k], events[k], (stages[k + 1], actions[k])));
    lemma_file_stages_follow_success(stages, events, actions, k);
    if actions[k] is CreateFile {
        assert(is_success_answer(events[k]));
    } else {
        assert(file_stage(stages[k]));
        let w = choose|w: int| 0 <= w < k && #[trigger] is_success_answer(events[w]);
        assert(is_success_answer(events[w]));
    }
}

} // verus!
