use vstd::prelude::*;
use vstd::string::*;
use crate::asr::{opt_view, Transcript, WhisperEngine};
use crate::config::{AsrDevice, CleanupMode, Config};

verus! {

/// A recording is transcribed on the GPU build when the GPU is chosen and
/// a GPU binary is configured.
pub open spec fn uses_gpu(c: Config) -> bool {
    c.asr_device == AsrDevice::Gpu && c.whisper_gpu_path@.len() > 0
}

/// Which configured recogniser binaries a recording goes through, and the
/// device label the transcript gets.
#[derive(Debug, Clone)]
pub struct AsrPlan {
    /// The configured path of the binary that runs first.
    pub primary_path: String,
    /// The configured path of the CPU binary that runs when the first fails.
    pub fallback_path: Option<String>,
    pub device_label: String,
}

/// `p` is the plan for a recording under `c`: the GPU binary with the CPU
/// binary behind it, or the CPU binary alone.
pub open spec fn is_asr_plan(p: AsrPlan, c: Config) -> bool {
    if uses_gpu(c) {
        &&& p.primary_path@ == c.whisper_gpu_path@
        &&& opt_view(p.fallback_path) == Some(c.whisper_path@)
        &&& p.device_label@ == "GPU"@
    } else {
        &&& p.primary_path@ == c.whisper_path@
        &&& p.fallback_path is None
        &&& p.device_label@ == "CPU"@
    }
}

/// The GPU build runs exactly when the GPU is chosen and a GPU binary is
/// configured, whatever the CPU binary's setting (empty included): then it
/// runs first with the configured CPU binary behind it; otherwise the CPU
/// binary runs alone.
pub proof fn law_gpu_plan_iff_gpu_configured(p: AsrPlan, c: Config)
    requires
        is_asr_plan(p, c),
    ensures
        (p.device_label@ == "GPU"@) <==> (c.asr_device == AsrDevice::Gpu && c.whisper_gpu_path@.len() > 0),
        c.asr_device == AsrDevice::Gpu && c.whisper_gpu_path@.len() > 0 ==> p.primary_path@ == c.whisper_gpu_path@
            && opt_view(p.fallback_path) == Some(c.whisper_path@),
        !(c.asr_device == AsrDevice::Gpu && c.whisper_gpu_path@.len() > 0) ==> p.primary_path@ == c.whisper_path@
            && p.fallback_path is None,
{
    reveal_strlit("GPU");
    reveal_strlit("CPU");
    assert("GPU"@[0] != "CPU"@[0]);
}

/// The plan for a recording: the GPU binary with the CPU binary behind it,
/// or the CPU binary alone.
pub fn asr_plan(config: &Config) -> (r: AsrPlan)
    ensures
        is_asr_plan(r, *config),
{
    let gpu = match config.asr_device {
        AsrDevice::Gpu => !config.whisper_gpu_path.as_str().is_empty(),
        AsrDevice::Cpu => false,
    };
    if gpu {
        AsrPlan {
            primary_path: config.whisper_gpu_path.clone(),
            fallback_path: Some(config.whisper_path.clone()),
            device_label: String::from_str("GPU"),
        }
    } else {
        AsrPlan {
            primary_path: config.whisper_path.clone(),
            fallback_path: None,
            device_label: String::from_str("CPU"),
        }
    }
}

/// The fallback binary that survives resolution: one that cannot be found
/// is dropped.
pub open spec fn resolved_fallback(fallback: Option<Result<String, String>>) -> Option<Seq<char>> {
    match fallback {
        Some(Ok(f)) => Some(f@),
        _ => None,
    }
}

/// `eng` runs the resolved binary `binary`, keeps the fallback only when it
/// was found, and takes the model, the language and the translation setting
/// from the settings.
pub open spec fn is_engine_for(
    eng: WhisperEngine,
    binary: Seq<char>,
    fallback: Option<Result<String, String>>,
    model_path: Seq<char>,
    c: Config,
) -> bool {
    &&& eng.binary_path@ == binary
    &&& opt_view(eng.fallback_binary_path) == resolved_fallback(fallback)
    &&& eng.model_path@ == model_path
    &&& eng.language@ == c.asr_language@
    &&& eng.translate == c.translate_to_english
}

/// The engine for a recording once its binaries are resolved: the error of
/// the first binary is the recording's error; the fallback is kept only
/// when it was found. The model, the language and the translation setting
/// come from the settings.
pub fn engine_for(
    primary: Result<String, String>,
    fallback: Option<Result<String, String>>,
    model_path: &str,
    config: &Config,
) -> (r: Result<WhisperEngine, String>)
    ensures
        match primary {
            Err(e) => r matches Err(m) && m@ == e@,
            Ok(p) => r matches Ok(eng) && is_engine_for(eng, p@, fallback, model_path@, *config),
        },
{
    match primary {
        Err(e) => Err(e),
        Ok(p) => {
            let fb: Option<&str> = match &fallback {
                Some(Ok(f)) => Some(f.as_str()),
                _ => None,
            };
            Ok(
                WhisperEngine::new(
                    p.as_str(),
                    model_path,
                    config.asr_language.as_str(),
                    fb,
                    config.translate_to_english,
                ),
            )
        },
    }
}

/// A transcript without text means nothing was said.
pub fn accept_transcript(t: Transcript) -> (r: Result<Transcript, String>)
    ensures
        t.text@.len() == 0 ==> (r matches Err(m) && m@ == "No speech detected"@),
        t.text@.len() > 0 ==> r == Ok::<Transcript, String>(t),
{
    if t.text.as_str().is_empty() {
        Err(String::from_str("No speech detected"))
    } else {
        Ok(t)
    }
}

/// Clean-up runs after transcription unless it is off.
pub fn cleanup_wanted(config: &Config) -> (r: bool)
    ensures
        r == (config.cleanup_mode != CleanupMode::Off),
{
    match config.cleanup_mode {
        CleanupMode::Off => false,
        _ => true,
    }
}

/// The text a recording ends with, and what clean-up contributed to it.
#[derive(Debug, Clone)]
pub struct CleanupOutcome {
    pub final_text: String,
    pub cleaned: Option<String>,
    pub latency_ms: Option<u64>,
}

/// `o` is the raw text `raw` merged with the clean-up result: `None` when
/// clean-up did not run, otherwise its result and how long it took.
pub open spec fn is_merged(o: CleanupOutcome, raw: Seq<char>, result: Option<(Result<String, String>, u64)>) -> bool {
    match result {
        Some((Ok(c), ms)) => {
            &&& o.final_text@ == c@
            &&& opt_view(o.cleaned) == Some(c@)
            &&& o.latency_ms == Some(ms)
        },
        _ => {
            &&& o.final_text@ == raw
            &&& o.cleaned is None
            &&& o.latency_ms is None
        },
    }
}

/// Merges the clean-up result into the transcript: `None` when clean-up
/// did not run, otherwise its result and how long it took. A successful
/// clean-up replaces the text and records its latency; a failed one leaves
/// the raw transcript, as if clean-up had not run.
pub fn merge_cleanup(raw: &str, result: Option<(Result<String, String>, u64)>) -> (r: CleanupOutcome)
    ensures
        is_merged(r, raw@, result),
{
    match result {
        Some((Ok(c), ms)) => CleanupOutcome {
            final_text: c.clone(),
            cleaned: Some(c),
            latency_ms: Some(ms),
        },
        _ => CleanupOutcome { final_text: String::from_str(raw), cleaned: None, latency_ms: None },
    }
}

/// What a processed recording reports: the final text, the device that
/// transcribed it, and how long recognition and clean-up took.
#[derive(Debug, Clone)]
pub struct ProcessResult {
    pub text: String,
    pub asr_device: String,
    pub asr_ms: u64,
    pub cleanup_ms: Option<u64>,
}

/// `r` reports the final text, the transcribing device and both latencies.
pub open spec fn is_report(r: ProcessResult, t: Transcript, outcome: CleanupOutcome) -> bool {
    &&& r.text@ == outcome.final_text@
    &&& r.asr_device@ == t.device_used@
    &&& r.asr_ms == t.duration_ms
    &&& r.cleanup_ms == outcome.latency_ms
}

/// The report of a processed recording.
pub fn process_result(t: &Transcript, outcome: &CleanupOutcome) -> (r: ProcessResult)
    ensures
        is_report(r, *t, *outcome),
{
    ProcessResult {
        text: outcome.final_text.clone(),
        asr_device: t.device_used.clone(),
        asr_ms: t.duration_ms,
        cleanup_ms: outcome.latency_ms,
    }
}

} // verus!
