use vstd::prelude::*;
use vstd::string::*;
use crate::asr::{Transcript, WhisperEngine};
use crate::cleanup::{is_cleanup_plan, CleanupEngine, CleanupPlan};
use crate::config::{CleanupMode, Config};
use crate::logger::{is_log_entry, log_entry, LogEntry};
use crate::pipeline::{
    asr_plan, cleanup_wanted, engine_for, is_asr_plan, is_engine_for, is_merged, is_report, merge_cleanup,
    process_result, uses_gpu, AsrPlan, CleanupOutcome, ProcessResult,
};

verus! {

/// How far the processing of a recording has come.
pub enum ProcessStage {
    /// The captured audio is being written to a WAV file.
    Saving,
    /// The model file is being looked for.
    FindingModel { wav: String },
    /// The recogniser binaries are being looked for.
    FindingBinaries { wav: String, model: String },
    /// The recogniser is running.
    Transcribing { wav: String },
    /// The clean-up model is working on the transcript.
    CleaningUp { wav: String, transcript: Transcript },
    /// The final text is being pasted.
    Pasting { wav: String, transcript: Transcript, outcome: CleanupOutcome },
    /// Processing is over.
    Done,
}

/// The outcome of the last action, reported back to `process_step`.
pub enum ProcessEvent {
    /// The WAV file's path, or why it could not be written.
    AudioSaved(Result<String, String>),
    /// The model file's path, or why it was not found.
    ModelFound(Result<String, String>),
    /// The resolved recogniser binary and, when the plan has one and the
    /// first was found, the resolved fallback.
    BinariesFound { primary: Result<String, String>, fallback: Option<Result<String, String>> },
    /// The transcript, or why recognition failed.
    Transcribed(Result<Transcript, String>),
    /// The clean-up result and how long it took, in milliseconds.
    CleanedUp(Result<String, String>, u64),
    /// Whether pasting worked.
    Pasted(Result<(), String>),
}

/// What to do next.
pub enum ProcessAction {
    /// The event does not belong to the stage: nothing to do.
    Nothing,
    /// Look for the model `model_name`, in `models_dir` among other places.
    FindModel { models_dir: String, model_name: String },
    /// Resolve the plan's binaries: the first, then the fallback if there is
    /// one and the first was found.
    FindBinaries(AsrPlan),
    /// Transcribe the audio file with the engine.
    Transcribe { engine: WhisperEngine, audio: String, device_label: String },
    /// Carry out the clean-up plan and time it.
    CleanUp(CleanupPlan),
    /// Paste the text into the focused window.
    Paste(String),
    /// Write the log record (with the time and the audio's duration), delete
    /// the WAV file, and report the result.
    LogAndFinish { entry: LogEntry, wav: String, result: ProcessResult },
    /// Delete the WAV file and fail with the error.
    DeleteAndFail { wav: String, error: String },
    /// Fail with the error; the WAV file, if any, is kept.
    Fail(String),
}

/// The start of processing: the audio is saved first.
pub fn start_processing() -> (r: ProcessStage)
    ensures
        r is Saving,
{
    ProcessStage::Saving
}

/// Processing ends with a final text: paste it when auto-paste is on,
/// otherwise log the recording, delete its file and report it.
pub open spec fn is_after_merge(
    r: (ProcessStage, ProcessAction),
    config: Config,
    wav: Seq<char>,
    t: Transcript,
    o: CleanupOutcome,
) -> bool {
    if config.auto_paste {
        &&& r.0 matches ProcessStage::Pasting { wav: w, transcript, outcome } && w@ == wav && transcript
            == t && outcome == o
        &&& r.1 matches ProcessAction::Paste(text) && text@ == o.final_text@
    } else {
        &&& r.0 is Done
        &&& r.1 matches ProcessAction::LogAndFinish { entry, wav: w, result } && is_log_entry(
            entry,
            config,
            t,
            o,
        ) && w@ == wav && is_report(result, t, o)
    }
}

/// `r` fails with exactly `e` and ends processing.
pub open spec fn fails_with(r: (ProcessStage, ProcessAction), e: Seq<char>) -> bool {
    &&& r.0 is Done
    &&& r.1 matches ProcessAction::Fail(m) && m@ == e
}

/// The next stage and action after an event.
///
/// The order is: save the audio, find the model, resolve the binaries,
/// transcribe; an empty transcript deletes the file and fails with "No
/// speech detected"; clean up when clean-up is on (a failed clean-up keeps
/// the raw text); paste when auto-paste is on (a failed paste fails before
/// anything is logged); then log, delete the file and report. Any other
/// failure ends processing with its error and keeps the file.
pub fn process_step(config: &Config, stage: ProcessStage, event: ProcessEvent) -> (r: (
    ProcessStage,
    ProcessAction,
))
    ensures
        match (stage, event) {
            (ProcessStage::Saving, ProcessEvent::AudioSaved(Err(e))) => fails_with(r, e@),
            (ProcessStage::Saving, ProcessEvent::AudioSaved(Ok(w))) => {
                &&& r.0 matches ProcessStage::FindingModel { wav } && wav@ == w@
                &&& r.1 matches ProcessAction::FindModel { models_dir, model_name } && models_dir@
                    == config.models_dir@ && model_name@ == config.asr_model@
            },
            (ProcessStage::FindingModel { .. }, ProcessEvent::ModelFound(Err(e))) => fails_with(r, e@),
            (ProcessStage::FindingModel { wav }, ProcessEvent::ModelFound(Ok(m))) => {
                &&& r.0 matches ProcessStage::FindingBinaries { wav: w, model } && w@ == wav@ && model@
                    == m@
                &&& r.1 matches ProcessAction::FindBinaries(plan) && is_asr_plan(plan, *config)
            },
            (
                ProcessStage::FindingBinaries { wav, model },
                ProcessEvent::BinariesFound { primary, fallback },
            ) => match primary {
                Err(e) => fails_with(r, e@),
                Ok(p) => {
                    &&& r.0 matches ProcessStage::Transcribing { wav: w } && w@ == wav@
                    &&& r.1 matches ProcessAction::Transcribe { engine, audio, device_label }
                        && is_engine_for(engine, p@, fallback, model@, *config) && audio@ == wav@
                        && device_label@ == (if uses_gpu(*config) {
                        "GPU"@
                    } else {
                        "CPU"@
                    })
                },
            },
            (ProcessStage::Transcribing { .. }, ProcessEvent::Transcribed(Err(e))) => fails_with(r, e@),
            (ProcessStage::Transcribing { wav }, ProcessEvent::Transcribed(Ok(t))) => {
                if t.text@.len() == 0 {
                    &&& r.0 is Done
                    &&& r.1 matches ProcessAction::DeleteAndFail { wav: w, error } && w@ == wav@
                        && error@ == "No speech detected"@
                } else if config.cleanup_mode != CleanupMode::Off {
                    &&& r.0 matches ProcessStage::CleaningUp { wav: w, transcript } && w@ == wav@
                        && transcript == t
                    &&& r.1 matches ProcessAction::CleanUp(plan) && is_cleanup_plan(
                        plan,
                        config.ollama_url@,
                        config.cleanup_model@,
                        t.text@,
                        config.cleanup_mode,
                        config.translate_to_english,
                    )
                } else {
                    exists|o: CleanupOutcome|
                        is_merged(o, t.text@, None) && #[trigger] is_after_merge(r, *config, wav@, t, o)
                }
            },
            (ProcessStage::CleaningUp { wav, transcript }, ProcessEvent::CleanedUp(result, ms)) => exists|
                o: CleanupOutcome,
            |
                is_merged(o, transcript.text@, Some((result, ms))) && #[trigger] is_after_merge(
                    r,
                    *config,
                    wav@,
                    transcript,
                    o,
                ),
            (ProcessStage::Pasting { .. }, ProcessEvent::Pasted(Err(e))) => fails_with(r, e@),
            (ProcessStage::Pasting { wav, transcript, outcome }, ProcessEvent::Pasted(Ok(_))) => {
                &&& r.0 is Done
                &&& r.1 matches ProcessAction::LogAndFinish { entry, wav: w, result } && is_log_entry(
                    entry,
                    *config,
                    transcript,
                    outcome,
                ) && w@ == wav@ && is_report(result, transcript, outcome)
            },
            (s, _) => r.0 == s && r.1 is Nothing,
        },
{
    match (stage, event) {
        (ProcessStage::Saving, ProcessEvent::AudioSaved(saved)) => match saved {
            Err(e) => (ProcessStage::Done, ProcessAction::Fail(e)),
            Ok(wav) => (
                ProcessStage::FindingModel { wav },
                ProcessAction::FindModel {
                    models_dir: config.models_dir.clone(),
                    model_name: config.asr_model.clone(),
                },
            ),
        },
        (ProcessStage::FindingModel { wav }, ProcessEvent::ModelFound(found)) => match found {
            Err(e) => (ProcessStage::Done, ProcessAction::Fail(e)),
            Ok(model) => (
                ProcessStage::FindingBinaries { wav, model },
                ProcessAction::FindBinaries(asr_plan(config)),
            ),
        },
        (ProcessStage::FindingBinaries { wav, model }, ProcessEvent::BinariesFound { primary, fallback }) => {
            match engine_for(primary, fallback, model.as_str(), config) {
                Err(e) => (ProcessStage::Done, ProcessAction::Fail(e)),
                Ok(engine) => {
                    let plan = asr_plan(config);
                    let audio = wav.clone();
                    (
                        ProcessStage::Transcribing { wav },
                        ProcessAction::Transcribe { engine, audio, device_label: plan.device_label },
                    )
                },
            }
        },
        (ProcessStage::Transcribing { wav }, ProcessEvent::Transcribed(transcribed)) => match transcribed {
            Err(e) => (ProcessStage::Done, ProcessAction::Fail(e)),
            Ok(t) => {
                if t.text.as_str().is_empty() {
                    (
                        ProcessStage::Done,
                        ProcessAction::DeleteAndFail { wav, error: String::from_str("No speech detected") },
                    )
                } else if cleanup_wanted(config) {
                    let engine = CleanupEngine::new(config.ollama_url.as_str(), config.cleanup_model.as_str());
                    let plan = engine.cleanup(t.text.as_str(), config.cleanup_mode, config.translate_to_english);
                    (ProcessStage::CleaningUp { wav, transcript: t }, ProcessAction::CleanUp(plan))
                } else {
                    let outcome = merge_cleanup(t.text.as_str(), None);
                    after_merge(config, wav, t, outcome)
                }
            },
        },
        (ProcessStage::CleaningUp { wav, transcript }, ProcessEvent::CleanedUp(result, ms)) => {
            let outcome = merge_cleanup(transcript.text.as_str(), Some((result, ms)));
            after_merge(config, wav, transcript, outcome)
        },
        (ProcessStage::Pasting { wav, transcript, outcome }, ProcessEvent::Pasted(pasted)) => match pasted {
            Err(e) => (ProcessStage::Done, ProcessAction::Fail(e)),
            Ok(_) => finish(config, wav, transcript, outcome),
        },
        (s, _) => (s, ProcessAction::Nothing),
    }
}

/// Logs, deletes the file and reports.
fn finish(config: &Config, wav: String, t: Transcript, o: CleanupOutcome) -> (r: (ProcessStage, ProcessAction))
    ensures
        r.0 is Done,
        r.1 matches ProcessAction::LogAndFinish { entry, wav: w, result } && is_log_entry(entry, *config, t, o)
            && w@ == wav@ && is_report(result, t, o),
{
    let entry = log_entry(config, &t, &o);
    let result = process_result(&t, &o);
    (ProcessStage::Done, ProcessAction::LogAndFinish { entry, wav, result })
}

/// After the final text is known: paste it, or finish.
fn after_merge(config: &Config, wav: String, t: Transcript, o: CleanupOutcome) -> (r: (ProcessStage, ProcessAction))
    ensures
        is_after_merge(r, *config, wav@, t, o),
{
    if config.auto_paste {
        let text = o.final_text.clone();
        (ProcessStage::Pasting { wav, transcript: t, outcome: o }, ProcessAction::Paste(text))
    } else {
        finish(config, wav, t, o)
    }
}

} // verus!
