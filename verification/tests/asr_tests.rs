use unmute::asr::{
    check_binary, finish_run, model_candidates, model_file_name, strip_special_tokens, AsrPhase,
    AsrStep, BinaryLookup, WhisperEngine,
};

fn engine(fallback: Option<&str>) -> WhisperEngine {
    WhisperEngine::new("C:\\w\\whisper-cli.exe", "C:\\m\\ggml-small.en.bin", "en", fallback, false)
}

#[test]
fn strip_removes_end_of_text_token() {
    assert_eq!(strip_special_tokens("Hello world<|endoftext|>"), "Hello world");
}

#[test]
fn strip_removes_several_tokens_and_trims() {
    assert_eq!(strip_special_tokens("  <|en|> Hi <|notimestamps|>there  "), "Hi there");
}

#[test]
fn strip_keeps_unterminated_token() {
    assert_eq!(strip_special_tokens("a <| b"), "a <| b");
}

#[test]
fn strip_removes_smallest_token() {
    assert_eq!(strip_special_tokens("x<|>y"), "xy");
}

#[test]
fn strip_plain_text_is_trimmed_only() {
    assert_eq!(strip_special_tokens("\t plain text \n"), "plain text");
    assert_eq!(strip_special_tokens(""), "");
}

#[test]
fn strip_twice_changes_nothing_more() {
    let once = strip_special_tokens("<|a|>one <<|b|>|c|> two");
    assert_eq!(strip_special_tokens(&once), once);
}

#[test]
fn engine_new_keeps_settings() {
    let e = WhisperEngine::new("bin", "model", "auto", Some("cpu"), true);
    assert_eq!(e.binary_path, "bin");
    assert_eq!(e.model_path, "model");
    assert_eq!(e.language, "auto");
    assert_eq!(e.fallback_binary_path.as_deref(), Some("cpu"));
    assert!(e.translate);
}

#[test]
fn whisper_args_without_translation() {
    let e = engine(None);
    let args = e.whisper_args("rec.wav");
    assert_eq!(
        args,
        vec!["-m", "C:\\m\\ggml-small.en.bin", "-f", "rec.wav", "--no-timestamps", "-l", "en", "--no-prints"]
    );
}

#[test]
fn whisper_args_with_translation() {
    let e = WhisperEngine::new("b", "m", "auto", None, true);
    let args = e.whisper_args("a.wav");
    assert_eq!(args.last().map(|s| s.as_str()), Some("--translate"));
    assert_eq!(args.len(), 9);
}

#[test]
fn transcribe_fails_without_model() {
    let e = engine(None);
    match e.transcribe(false) {
        AsrStep::Done(Err(m)) => assert_eq!(m, "Whisper model not found: C:\\m\\ggml-small.en.bin"),
        other => panic!("unexpected {:?}", other),
    }
}

#[test]
fn transcribe_runs_configured_binary() {
    let e = engine(Some("cpu.exe"));
    match e.transcribe(true) {
        AsrStep::RunWhisper { binary, phase: AsrPhase::Primary } => assert_eq!(binary, "C:\\w\\whisper-cli.exe"),
        other => panic!("unexpected {:?}", other),
    }
}

#[test]
fn primary_success_is_labelled_with_device() {
    let e = engine(Some("cpu.exe"));
    match e.whisper_finished(AsrPhase::Primary, "GPU", Ok(("hello".to_string(), 1200))) {
        AsrStep::Done(Ok(t)) => {
            assert_eq!(t.text, "hello");
            assert_eq!(t.language.as_deref(), Some("en"));
            assert_eq!(t.duration_ms, 1200);
            assert_eq!(t.device_used, "GPU");
        }
        other => panic!("unexpected {:?}", other),
    }
}

#[test]
fn primary_failure_falls_back_to_cpu() {
    let e = engine(Some("cpu.exe"));
    let step = e.whisper_finished(AsrPhase::Primary, "GPU", Err("cuda error".to_string()));
    let (binary, phase) = match step {
        AsrStep::RunWhisper { binary, phase } => (binary, phase),
        other => panic!("unexpected {:?}", other),
    };
    assert_eq!(binary, "cpu.exe");
    match e.whisper_finished(phase, "GPU", Ok(("text".to_string(), 900))) {
        AsrStep::Done(Ok(t)) => assert_eq!(t.device_used, "CPU*"),
        other => panic!("unexpected {:?}", other),
    }
}

#[test]
fn primary_failure_without_fallback_is_the_error() {
    let e = engine(None);
    match e.whisper_finished(AsrPhase::Primary, "CPU", Err("boom".to_string())) {
        AsrStep::Done(Err(m)) => assert_eq!(m, "boom"),
        other => panic!("unexpected {:?}", other),
    }
}

#[test]
fn both_failures_are_reported() {
    let e = engine(Some("cpu.exe"));
    let phase = AsrPhase::Fallback { primary_error: "g".to_string() };
    match e.whisper_finished(phase, "GPU", Err("c".to_string())) {
        AsrStep::Done(Err(m)) => assert_eq!(m, "ASR failed on both GPU and CPU.\nGPU: g\nCPU: c"),
        other => panic!("unexpected {:?}", other),
    }
}

#[test]
fn check_binary_cases() {
    assert!(check_binary("C:\\w\\whisper-cli.exe", true).is_ok());
    assert_eq!(
        check_binary("C:\\w\\whisper-cli.exe", false),
        Err("Whisper binary not found: C:\\w\\whisper-cli.exe".to_string())
    );
    assert!(check_binary("whisper-cli", false).is_ok());
    assert!(check_binary("/usr/bin/whisper", true).is_err());
}

#[test]
fn finish_run_success_strips_tokens() {
    assert_eq!(finish_run(true, "  Hello.<|endoftext|>\n", "", 42), Ok(("Hello.".to_string(), 42)));
}

#[test]
fn finish_run_failure_reports_stderr() {
    assert_eq!(finish_run(false, "out", "bad model", 7), Err("Whisper failed: bad model".to_string()));
}

#[test]
fn resolve_binary_uses_existing_configured_path() {
    match WhisperEngine::resolve_binary("C:\\w\\whisper-cli.exe", true) {
        BinaryLookup::Found(p) => assert_eq!(p, "C:\\w\\whisper-cli.exe"),
        other => panic!("unexpected {:?}", other),
    }
}

#[test]
fn resolve_binary_searches_when_not_configured() {
    for (path, exists) in [("", false), ("", true), ("C:\\missing.exe", false)] {
        match WhisperEngine::resolve_binary(path, exists) {
            BinaryLookup::Search { index, name } => {
                assert_eq!(index, 0);
                assert_eq!(name, "whisper-cli");
            }
            other => panic!("unexpected {:?}", other),
        }
    }
}

#[test]
fn binary_search_walks_the_names() {
    match WhisperEngine::binary_search_result(0, false, "") {
        BinaryLookup::Search { index, name } => {
            assert_eq!(index, 1);
            assert_eq!(name, "whisper-cpp");
        }
        other => panic!("unexpected {:?}", other),
    }
    match WhisperEngine::binary_search_result(1, true, "   \n") {
        BinaryLookup::Search { index, name } => {
            assert_eq!(index, 2);
            assert_eq!(name, "main");
        }
        other => panic!("unexpected {:?}", other),
    }
    match WhisperEngine::binary_search_result(2, false, "") {
        BinaryLookup::NotFound(m) => assert_eq!(
            m,
            "whisper-cli not found. Install whisper.cpp and add to PATH, or set whisper_path in config."
        ),
        other => panic!("unexpected {:?}", other),
    }
}

#[test]
fn binary_search_takes_first_line() {
    match WhisperEngine::binary_search_result(0, true, "  C:\\bin\\whisper-cli.exe \r\nC:\\other.exe\n") {
        BinaryLookup::Found(p) => assert_eq!(p, "C:\\bin\\whisper-cli.exe"),
        other => panic!("unexpected {:?}", other),
    }
}

#[test]
fn model_file_name_format() {
    assert_eq!(model_file_name("large-v3-turbo"), "ggml-large-v3-turbo.bin");
}

#[test]
fn model_candidates_count_and_first() {
    let with_dir = model_candidates("D:\\models", "base.en");
    assert_eq!(with_dir.len(), 3);
    assert!(with_dir[0].starts_with("D:\\models"));
    assert!(with_dir[0].ends_with("ggml-base.en.bin"));
    for c in &with_dir {
        assert!(c.ends_with("ggml-base.en.bin"));
    }
    assert!(with_dir[2].contains(".unmute"));
    let without = model_candidates("", "base.en");
    assert_eq!(without.len(), 2);
}

#[test]
fn resolve_model_picks_first_existing() {
    let c = vec!["a".to_string(), "b".to_string(), "c".to_string()];
    assert_eq!(WhisperEngine::resolve_model(&c, &vec![false, true, true], "x"), Ok("b".to_string()));
}

#[test]
fn resolve_model_reports_missing_model() {
    let c = vec!["a".to_string()];
    assert_eq!(
        WhisperEngine::resolve_model(&c, &vec![false], "small.en"),
        Err("Model 'small.en' not found. Download it and place in models directory.\nExpected file: ggml-small.en.bin\nDownload from: https://huggingface.co/ggerganov/whisper.cpp/tree/main".to_string())
    );
}

#[test]
fn launch_failure_message() {
    assert_eq!(unmute::asr::launch_failed("access denied"), "Failed to run whisper: access denied");
}
