use unmute::autostart::{ensure_ollama_step, OllamaAction, OllamaEvent, OllamaStage};
use unmute::processing::{process_step, start_processing, ProcessAction, ProcessEvent, ProcessStage};
use unmute::asr::{AsrPhase, AsrStep, Transcript};
use unmute::cleanup::{
    count_words, finish_cleanup, finish_model_list, ollama_install_paths, ollama_probe_url, tags_url,
    CleanupEngine, CleanupPlan, OllamaReply, TagsReply, LIGHT_SYSTEM_PROMPT, LIGHT_TRANSLATE_PROMPT,
    REWRITE_TRANSLATE_PROMPT,
};
use unmute::config::{AsrDevice, CleanupMode, Config};
use unmute::logger::{cleanup_mode_name, log_dir, log_entry, log_file_name};
use unmute::pipeline::{accept_transcript, asr_plan, cleanup_wanted, engine_for, merge_cleanup, process_result};

fn transcript(text: &str) -> Transcript {
    Transcript { text: text.to_string(), language: Some("en".to_string()), duration_ms: 1500, device_used: "GPU".to_string() }
}

#[test]
fn config_defaults() {
    let c = Config::default();
    assert_eq!(c.asr_model, "small.en");
    assert_eq!(c.asr_language, "en");
    assert_eq!(c.asr_device, AsrDevice::Cpu);
    assert_eq!(c.cleanup_mode, CleanupMode::Off);
    assert_eq!(c.cleanup_model, "qwen2.5:3b");
    assert_eq!(c.ollama_url, "http://localhost:11434");
    assert!(c.auto_paste);
    assert!(!c.translate_to_english);
    assert_eq!(c.max_recording_secs, 120);
    assert!(c.whisper_path.is_empty() && c.whisper_gpu_path.is_empty() && c.models_dir.is_empty());
}

#[test]
fn word_counts() {
    assert_eq!(count_words(""), 0);
    assert_eq!(count_words("   "), 0);
    assert_eq!(count_words("one"), 1);
    assert_eq!(count_words("  one two\tthree\n four "), 4);
    assert_eq!(count_words("a\u{3000}b"), 2);
}

#[test]
fn cleanup_off_keeps_text() {
    let e = CleanupEngine::new("http://localhost:11434", "m");
    match e.cleanup("um so this is a test", CleanupMode::Off, true) {
        CleanupPlan::Unchanged(t) => assert_eq!(t, "um so this is a test"),
        other => panic!("unexpected {:?}", other),
    }
}

#[test]
fn cleanup_skips_short_text() {
    let e = CleanupEngine::new("http://localhost:11434", "m");
    match e.cleanup("hello there", CleanupMode::Rewrite, false) {
        CleanupPlan::Unchanged(t) => assert_eq!(t, "hello there"),
        other => panic!("unexpected {:?}", other),
    }
}

#[test]
fn cleanup_light_request() {
    let e = CleanupEngine::new("http://host:1", "qwen2.5:3b");
    match e.cleanup("um so like yeah", CleanupMode::Light, false) {
        CleanupPlan::Send(r) => {
            assert_eq!(r.url, "http://host:1/api/generate");
            assert_eq!(r.model, "qwen2.5:3b");
            assert_eq!(r.system, LIGHT_SYSTEM_PROMPT);
            assert_eq!(r.prompt, "Transcript:\num so like yeah");
            assert!(!r.stream);
        }
        other => panic!("unexpected {:?}", other),
    }
    match e.cleanup("um so like yeah", CleanupMode::Light, true) {
        CleanupPlan::Send(r) => assert_eq!(r.system, LIGHT_TRANSLATE_PROMPT),
        other => panic!("unexpected {:?}", other),
    }
}

#[test]
fn rewrite_always_translates() {
    let e = CleanupEngine::new("u", "m");
    for translate in [false, true] {
        match e.cleanup("one two three", CleanupMode::Rewrite, translate) {
            CleanupPlan::Send(r) => assert_eq!(r.system, REWRITE_TRANSLATE_PROMPT),
            other => panic!("unexpected {:?}", other),
        }
    }
}

#[test]
fn prompts_are_distinct_and_ask_for_english() {
    assert!(LIGHT_TRANSLATE_PROMPT.contains("English"));
    assert!(REWRITE_TRANSLATE_PROMPT.contains("English"));
    assert_ne!(LIGHT_SYSTEM_PROMPT, LIGHT_TRANSLATE_PROMPT);
}

#[test]
fn cleanup_replies() {
    assert_eq!(finish_cleanup(OllamaReply::Answer("  Clean text.\n".to_string())), Ok("Clean text.".to_string()));
    assert_eq!(
        finish_cleanup(OllamaReply::Unreachable("refused".to_string())),
        Err("Ollama request failed: refused. Is Ollama running?".to_string())
    );
    assert_eq!(
        finish_cleanup(OllamaReply::HttpError { status: "404 Not Found".to_string(), body: "no model".to_string() }),
        Err("Ollama returned 404 Not Found: no model".to_string())
    );
    assert_eq!(
        finish_cleanup(OllamaReply::Malformed("eof".to_string())),
        Err("Failed to parse Ollama response: eof".to_string())
    );
}

#[test]
fn model_list_replies() {
    let names = vec![Some("qwen2.5:3b".to_string()), None, Some("llama3:8b".to_string()), Some("gemma:2b".to_string())];
    assert_eq!(
        finish_model_list(TagsReply::Listed(names)),
        Ok(vec!["gemma:2b".to_string(), "llama3:8b".to_string(), "qwen2.5:3b".to_string()])
    );
    assert_eq!(
        finish_model_list(TagsReply::Unreachable("timeout".to_string())),
        Err("Ollama not reachable: timeout".to_string())
    );
    assert_eq!(finish_model_list(TagsReply::HttpError("500".to_string())), Err("Ollama returned 500".to_string()));
    assert_eq!(
        finish_model_list(TagsReply::Malformed("bad".to_string())),
        Err("Failed to parse Ollama response: bad".to_string())
    );
}

#[test]
fn probe_only_when_cleanup_is_on() {
    let mut c = Config::default();
    assert_eq!(ollama_probe_url(&c), None);
    c.cleanup_mode = CleanupMode::Light;
    assert_eq!(ollama_probe_url(&c), Some("http://localhost:11434/api/tags".to_string()));
    assert_eq!(tags_url("http://x"), "http://x/api/tags");
}

#[test]
fn ollama_is_looked_for_in_programs() {
    let p = ollama_install_paths();
    assert_eq!(p.len(), 1);
    assert!(p[0].ends_with("ollama.exe"));
    assert!(p[0].contains("Programs"));
    assert!(p[0].contains("Ollama"));
}

#[test]
fn cpu_plan_has_no_fallback() {
    let mut c = Config::default();
    c.whisper_path = "C:\\bin\\whisper-cli.exe".to_string();
    c.whisper_gpu_path = "C:\\gpu\\whisper-cli.exe".to_string();
    let p = asr_plan(&c);
    assert_eq!(p.primary_path, "C:\\bin\\whisper-cli.exe");
    assert_eq!(p.fallback_path, None);
    assert_eq!(p.device_label, "CPU");
}

#[test]
fn gpu_plan_falls_back_to_cpu() {
    let mut c = Config::default();
    c.asr_device = AsrDevice::Gpu;
    c.whisper_path = "cpu.exe".to_string();
    c.whisper_gpu_path = "gpu.exe".to_string();
    let p = asr_plan(&c);
    assert_eq!(p.primary_path, "gpu.exe");
    assert_eq!(p.fallback_path.as_deref(), Some("cpu.exe"));
    assert_eq!(p.device_label, "GPU");
}

#[test]
fn gpu_without_gpu_binary_uses_cpu() {
    let mut c = Config::default();
    c.asr_device = AsrDevice::Gpu;
    c.whisper_path = "cpu.exe".to_string();
    let p = asr_plan(&c);
    assert_eq!(p.primary_path, "cpu.exe");
    assert_eq!(p.device_label, "CPU");
}

#[test]
fn engine_from_resolved_binaries() {
    let mut c = Config::default();
    c.asr_language = "auto".to_string();
    c.translate_to_english = true;
    let e = engine_for(Ok("gpu.exe".to_string()), Some(Ok("cpu.exe".to_string())), "m.bin", &c).unwrap();
    assert_eq!(e.binary_path, "gpu.exe");
    assert_eq!(e.fallback_binary_path.as_deref(), Some("cpu.exe"));
    assert_eq!(e.model_path, "m.bin");
    assert_eq!(e.language, "auto");
    assert!(e.translate);
    let e = engine_for(Ok("gpu.exe".to_string()), Some(Err("missing".to_string())), "m.bin", &c).unwrap();
    assert_eq!(e.fallback_binary_path, None);
    assert_eq!(engine_for(Err("no gpu".to_string()), None, "m.bin", &c).unwrap_err(), "no gpu");
}

#[test]
fn empty_transcript_means_no_speech() {
    assert_eq!(accept_transcript(transcript("")).unwrap_err(), "No speech detected");
    assert_eq!(accept_transcript(transcript("hi")).unwrap().text, "hi");
}

#[test]
fn cleanup_only_when_on() {
    let mut c = Config::default();
    assert!(!cleanup_wanted(&c));
    c.cleanup_mode = CleanupMode::Rewrite;
    assert!(cleanup_wanted(&c));
}

#[test]
fn merge_successful_cleanup() {
    let o = merge_cleanup("raw", Some((Ok("clean".to_string()), 320)));
    assert_eq!(o.final_text, "clean");
    assert_eq!(o.cleaned.as_deref(), Some("clean"));
    assert_eq!(o.latency_ms, Some(320));
}

#[test]
fn failed_cleanup_keeps_raw_text() {
    let o = merge_cleanup("raw", Some((Err("down".to_string()), 320)));
    assert_eq!(o.final_text, "raw");
    assert_eq!(o.cleaned, None);
    assert_eq!(o.latency_ms, None);
    let o = merge_cleanup("raw", None);
    assert_eq!(o.final_text, "raw");
    assert_eq!(o.latency_ms, None);
}

#[test]
fn process_result_and_log() {
    let t = transcript("raw words here");
    let o = merge_cleanup(&t.text, Some((Ok("Raw words here.".to_string()), 250)));
    let r = process_result(&t, &o);
    assert_eq!(r.text, "Raw words here.");
    assert_eq!(r.asr_device, "GPU");
    assert_eq!(r.asr_ms, 1500);
    assert_eq!(r.cleanup_ms, Some(250));

    let mut c = Config::default();
    c.cleanup_mode = CleanupMode::Light;
    let l = log_entry(&c, &t, &o);
    assert_eq!(l.asr_model, "small.en");
    assert_eq!(l.asr_latency_ms, 1500);
    assert_eq!(l.raw_transcript, "raw words here");
    assert_eq!(l.cleanup_mode, "Light");
    assert_eq!(l.cleanup_model.as_deref(), Some("qwen2.5:3b"));
    assert_eq!(l.cleanup_latency_ms, Some(250));
    assert_eq!(l.cleaned_transcript.as_deref(), Some("Raw words here."));
    assert_eq!(l.final_text, "Raw words here.");
    assert_eq!(l.error, None);

    let off = Config::default();
    let l = log_entry(&off, &t, &merge_cleanup(&t.text, None));
    assert_eq!(l.cleanup_mode, "Off");
    assert_eq!(l.cleanup_model, None);
}

#[test]
fn mode_names() {
    assert_eq!(cleanup_mode_name(CleanupMode::Off), "Off");
    assert_eq!(cleanup_mode_name(CleanupMode::Light), "Light");
    assert_eq!(cleanup_mode_name(CleanupMode::Rewrite), "Rewrite");
}

#[test]
fn log_locations() {
    assert!(log_dir().ends_with("logs"));
    assert!(log_dir().contains("unmute"));
    assert_eq!(log_file_name("2024-05-01"), "2024-05-01.jsonl");
}

#[test]
fn gpu_failure_then_cpu_success_pipeline() {
    let mut c = Config::default();
    c.asr_device = AsrDevice::Gpu;
    c.whisper_path = "cpu.exe".to_string();
    c.whisper_gpu_path = "gpu.exe".to_string();
    let plan = asr_plan(&c);
    let e = engine_for(Ok(plan.primary_path.clone()), plan.fallback_path.clone().map(Ok), "m.bin", &c).unwrap();
    let step = e.transcribe(true);
    let phase = match step {
        AsrStep::RunWhisper { binary, phase } => {
            assert_eq!(binary, "gpu.exe");
            phase
        }
        other => panic!("unexpected {:?}", other),
    };
    let step = e.whisper_finished(phase, &plan.device_label, Err("cuda".to_string()));
    let phase = match step {
        AsrStep::RunWhisper { binary, phase } => {
            assert_eq!(binary, "cpu.exe");
            phase
        }
        other => panic!("unexpected {:?}", other),
    };
    assert!(matches!(phase, AsrPhase::Fallback { .. }));
    match e.whisper_finished(phase, &plan.device_label, Ok(("Hello.".to_string(), 800))) {
        AsrStep::Done(Ok(t)) => {
            assert_eq!(t.device_used, "CPU*");
            assert_eq!(accept_transcript(t).unwrap().text, "Hello.");
        }
        other => panic!("unexpected {:?}", other),
    }
}

fn config_with(mode: CleanupMode, auto_paste: bool) -> Config {
    let mut c = Config::default();
    c.cleanup_mode = mode;
    c.auto_paste = auto_paste;
    c.whisper_path = "cpu.exe".to_string();
    c
}

#[test]
fn processing_runs_steps_in_order() {
    let c = config_with(CleanupMode::Light, true);
    let s = start_processing();
    let (s, a) = process_step(&c, s, ProcessEvent::AudioSaved(Ok("r.wav".to_string())));
    assert!(matches!(&a, ProcessAction::FindModel { models_dir, model_name } if models_dir.is_empty() && model_name == "small.en"));
    let (s, a) = process_step(&c, s, ProcessEvent::ModelFound(Ok("m.bin".to_string())));
    assert!(matches!(&a, ProcessAction::FindBinaries(plan) if plan.primary_path == "cpu.exe" && plan.fallback_path.is_none()));
    let (s, a) = process_step(&c, s, ProcessEvent::BinariesFound { primary: Ok("C:\\cpu.exe".to_string()), fallback: None });
    match &a {
        ProcessAction::Transcribe { engine, audio, device_label } => {
            assert_eq!(engine.binary_path, "C:\\cpu.exe");
            assert_eq!(engine.model_path, "m.bin");
            assert_eq!(audio, "r.wav");
            assert_eq!(device_label, "CPU");
        }
        _ => panic!("expected a transcription"),
    }
    let (s, a) = process_step(&c, s, ProcessEvent::Transcribed(Ok(transcript("um so hello there"))));
    assert!(matches!(&a, ProcessAction::CleanUp(unmute::cleanup::CleanupPlan::Send(r)) if r.prompt == "Transcript:\num so hello there"));
    let (s, a) = process_step(&c, s, ProcessEvent::CleanedUp(Ok("Hello there.".to_string()), 300));
    assert!(matches!(&a, ProcessAction::Paste(t) if t == "Hello there."));
    let (s, a) = process_step(&c, s, ProcessEvent::Pasted(Ok(())));
    assert!(matches!(s, ProcessStage::Done));
    match a {
        ProcessAction::LogAndFinish { entry, wav, result } => {
            assert_eq!(wav, "r.wav");
            assert_eq!(entry.final_text, "Hello there.");
            assert_eq!(entry.cleaned_transcript.as_deref(), Some("Hello there."));
            assert_eq!(result.text, "Hello there.");
            assert_eq!(result.cleanup_ms, Some(300));
        }
        _ => panic!("expected the end"),
    }
}

#[test]
fn processing_failures() {
    let c = config_with(CleanupMode::Off, true);
    let (_, a) = process_step(&c, start_processing(), ProcessEvent::AudioSaved(Err("No audio recorded".to_string())));
    assert!(matches!(&a, ProcessAction::Fail(e) if e == "No audio recorded"));
    let (s, _) = process_step(&c, start_processing(), ProcessEvent::AudioSaved(Ok("w.wav".to_string())));
    let (s, _) = process_step(&c, s, ProcessEvent::ModelFound(Ok("m".to_string())));
    let (s, _) = process_step(&c, s, ProcessEvent::BinariesFound { primary: Ok("b".to_string()), fallback: None });
    let (_, a) = process_step(&c, s, ProcessEvent::Transcribed(Ok(transcript(""))));
    assert!(matches!(&a, ProcessAction::DeleteAndFail { wav, error } if wav == "w.wav" && error == "No speech detected"));
    // Pasting fails before anything is logged.
    let s = ProcessStage::Pasting {
        wav: "w.wav".to_string(),
        transcript: transcript("hi"),
        outcome: merge_cleanup("hi", None),
    };
    let (s, a) = process_step(&c, s, ProcessEvent::Pasted(Err("Paste failed: x".to_string())));
    assert!(matches!(s, ProcessStage::Done));
    assert!(matches!(&a, ProcessAction::Fail(e) if e == "Paste failed: x"));
    // An event that does not belong to the stage changes nothing.
    let (s, a) = process_step(&c, ProcessStage::Done, ProcessEvent::Pasted(Ok(())));
    assert!(matches!(s, ProcessStage::Done));
    assert!(matches!(a, ProcessAction::Nothing));
}

#[test]
fn processing_without_cleanup_or_paste() {
    let c = config_with(CleanupMode::Off, false);
    let (s, a) = process_step(&c, ProcessStage::Transcribing { wav: "w.wav".to_string() }, ProcessEvent::Transcribed(Ok(transcript("raw words"))));
    assert!(matches!(s, ProcessStage::Done));
    match a {
        ProcessAction::LogAndFinish { entry, result, .. } => {
            assert_eq!(result.text, "raw words");
            assert_eq!(result.cleanup_ms, None);
            assert_eq!(entry.cleanup_model, None);
        }
        _ => panic!("expected the end"),
    }
}

#[test]
fn model_list_can_be_empty() {
    assert_eq!(finish_model_list(TagsReply::Listed(vec![None])), Ok(vec![]));
}

fn ollama_config(mode: CleanupMode) -> Config {
    let mut c = Config::default();
    c.cleanup_mode = mode;
    c
}

#[test]
fn ollama_not_needed_when_cleanup_off() {
    let c = ollama_config(CleanupMode::Off);
    let paths = vec!["p.exe".to_string()];
    let (s, a) = ensure_ollama_step(&c, &paths, OllamaStage::Idle, OllamaEvent::Start);
    assert_eq!(s, OllamaStage::Done);
    assert!(matches!(a, OllamaAction::Nothing));
}

#[test]
fn ollama_running_is_left_alone() {
    let c = ollama_config(CleanupMode::Light);
    let paths = vec!["p.exe".to_string()];
    let (s, a) = ensure_ollama_step(&c, &paths, OllamaStage::Idle, OllamaEvent::Start);
    assert!(matches!(&a, OllamaAction::Probe(u) if u == "http://localhost:11434/api/tags"));
    let (s, a) = ensure_ollama_step(&c, &paths, s, OllamaEvent::Reachable(true));
    assert_eq!(s, OllamaStage::Done);
    assert!(matches!(a, OllamaAction::Nothing));
}

#[test]
fn ollama_started_from_first_existing_path() {
    let c = ollama_config(CleanupMode::Rewrite);
    let paths = vec!["a.exe".to_string(), "b.exe".to_string(), "c.exe".to_string()];
    let (s, _) = ensure_ollama_step(&c, &paths, OllamaStage::Idle, OllamaEvent::Start);
    let (s, a) = ensure_ollama_step(&c, &paths, s, OllamaEvent::Reachable(false));
    assert!(matches!(&a, OllamaAction::CheckPath(p) if p == "a.exe"));
    let (s, a) = ensure_ollama_step(&c, &paths, s, OllamaEvent::PathExists(false));
    assert!(matches!(&a, OllamaAction::CheckPath(p) if p == "b.exe"));
    let (s, a) = ensure_ollama_step(&c, &paths, s, OllamaEvent::PathExists(true));
    assert!(matches!(&a, OllamaAction::Spawn(p) if p == "b.exe"));
    let (s, a) = ensure_ollama_step(&c, &paths, s, OllamaEvent::Spawned(Err("denied".to_string())));
    assert!(matches!(&a, OllamaAction::CheckPath(p) if p == "c.exe"));
    let (s, _) = ensure_ollama_step(&c, &paths, s, OllamaEvent::PathExists(true));
    let (s, a) = ensure_ollama_step(&c, &paths, s, OllamaEvent::Spawned(Ok(())));
    assert_eq!(s, OllamaStage::Done);
    assert!(matches!(a, OllamaAction::WaitThenDone(3000)));
    let (s, a) = ensure_ollama_step(&c, &paths, s, OllamaEvent::Start);
    assert_eq!(s, OllamaStage::Done);
    assert!(matches!(a, OllamaAction::Nothing));
}

#[test]
fn ollama_gives_up_without_paths() {
    let c = ollama_config(CleanupMode::Light);
    let (s, a) = ensure_ollama_step(&c, &vec![], OllamaStage::Probing, OllamaEvent::Reachable(false));
    assert_eq!(s, OllamaStage::Done);
    assert!(matches!(a, OllamaAction::GiveUp));
    let paths = vec!["a.exe".to_string()];
    let (_, a) = ensure_ollama_step(&c, &paths, OllamaStage::TryPath { index: 0 }, OllamaEvent::PathExists(false));
    assert!(matches!(a, OllamaAction::GiveUp));
}
