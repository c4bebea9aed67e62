use vstd::prelude::*;
use vstd::string::*;
use crate::asr::{opt_view, Transcript};
use crate::config::{CleanupMode, Config};
use crate::paths::{data_local_dir, dir_or_dot, join_path, joins, joins2, lemma_join_plain, lemma_long_name, or_dot, plain_base};
use crate::text::ends_with;
use crate::pipeline::{cleanup_wanted, CleanupOutcome};

verus! {

/// The directory of the transcription logs under a local data directory:
/// `unmute/logs` under it, or under the working directory when there is
/// none.
pub fn log_dir_in(base: Option<String>) -> (r: String)
    ensures
        plain_base(dir_or_dot(base)) ==> joins2(dir_or_dot(base), "unmute"@, "logs"@, r@),
        ends_with(r@, "logs"@),
{
    proof {
        reveal_strlit("unmute");
        reveal_strlit("logs");
        lemma_long_name("unmute"@);
        lemma_long_name("logs"@);
    }
    let b = or_dot(base);
    let app = join_path(b.as_str(), "unmute");
    let r = join_path(app.as_str(), "logs");
    proof {
        if plain_base(b@) {
            lemma_join_plain(b@, "unmute"@, app@);
            assert(joins(b@, "unmute"@, app@) && joins(app@, "logs"@, r@));
        }
    }
    r
}

/// The directory of the transcription logs: `log_dir_in` of the user's
/// local data directory.
pub fn log_dir() -> (r: String)
    ensures
        ends_with(r@, "logs"@),
{
    log_dir_in(data_local_dir())
}

/// The log file of a day: one JSON record per line.
pub fn log_file_name(date: &str) -> (r: String)
    ensures
        r@ == date@ + ".jsonl"@,
{
    String::from_str(date).concat(".jsonl")
}

/// The name of a clean-up mode as it is logged.
pub open spec fn mode_name_spec(mode: CleanupMode) -> Seq<char> {
    match mode {
        CleanupMode::Off => "Off"@,
        CleanupMode::Light => "Light"@,
        CleanupMode::Rewrite => "Rewrite"@,
    }
}

/// The name of a clean-up mode as it is logged.
pub fn cleanup_mode_name(mode: CleanupMode) -> (r: String)
    ensures
        r@ == mode_name_spec(mode),
{
    match mode {
        CleanupMode::Off => String::from_str("Off"),
        CleanupMode::Light => String::from_str("Light"),
        CleanupMode::Rewrite => String::from_str("Rewrite"),
    }
}

/// The log record of a processed recording, but for the time stamp and the
/// audio duration, which the caller adds.
#[derive(Debug, Clone)]
pub struct LogEntry {
    pub asr_model: String,
    pub asr_latency_ms: u64,
    pub raw_transcript: String,
    pub cleanup_mode: String,
    pub cleanup_model: Option<String>,
    pub cleanup_latency_ms: Option<u64>,
    pub cleaned_transcript: Option<String>,
    pub final_text: String,
    pub error: Option<String>,
}

/// `r` is the log record of a processed recording: the clean-up model is
/// named only when clean-up is on, and no error is logged.
pub open spec fn is_log_entry(r: LogEntry, config: Config, t: Transcript, outcome: CleanupOutcome) -> bool {
    &&& r.asr_model@ == config.asr_model@
    &&& r.asr_latency_ms == t.duration_ms
    &&& r.raw_transcript@ == t.text@
    &&& r.cleanup_mode@ == mode_name_spec(config.cleanup_mode)
    &&& config.cleanup_mode != CleanupMode::Off ==> opt_view(r.cleanup_model) == Some(config.cleanup_model@)
    &&& config.cleanup_mode == CleanupMode::Off ==> r.cleanup_model is None
    &&& r.cleanup_latency_ms == outcome.latency_ms
    &&& opt_view(r.cleaned_transcript) == opt_view(outcome.cleaned)
    &&& r.final_text@ == outcome.final_text@
    &&& r.error is None
}

/// The log record of a recording: the clean-up model is named only when
/// clean-up is on, and a processed recording logs no error.
pub fn log_entry(config: &Config, t: &Transcript, outcome: &CleanupOutcome) -> (r: LogEntry)
    ensures
        is_log_entry(r, *config, *t, *outcome),
{
    let cleanup_model = if cleanup_wanted(config) {
        Some(config.cleanup_model.clone())
    } else {
        None
    };
    let cleaned = match &outcome.cleaned {
        Some(c) => Some(c.clone()),
        None => None,
    };
    LogEntry {
        asr_model: config.asr_model.clone(),
        asr_latency_ms: t.duration_ms,
        raw_transcript: t.text.clone(),
        cleanup_mode: cleanup_mode_name(config.cleanup_mode),
        cleanup_model,
        cleanup_latency_ms: outcome.latency_ms,
        cleaned_transcript: cleaned,
        final_text: outcome.final_text.clone(),
        error: None,
    }
}

} // verus!
