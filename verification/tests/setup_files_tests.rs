use unmute::download::{download_step, start_download_run, DownloadAction, DownloadEvent, DownloadStage, HttpHead};
use unmute::setup::{setup_start, setup_step, SetupAction, SetupEvent, SetupRunStage};
use unmute::archive::entry_target;
use unmute::setup::{bin_dir_in, gpu_bin_dir_in, models_dir_in};
use std::io::Write;
use unmute::archive::extract_whisper_zip;
use unmute::config::Config;
use unmute::catalog::{collect_models, model_from_file_name, model_list_dirs, sort_strings};
use unmute::download::{download_error, on_chunk, start_download, DownloadFailure};
use unmute::order::{insert_sorted, str_less};
use unmute::overlay::{done_label, overlay_done_js, overlay_status_js, OverlayStatus};
use unmute::paste::{escape_single_quotes, paste_result, paste_script, powershell_args, PASTE_SCRIPT_HEAD, PASTE_SCRIPT_TAIL};
use unmute::paths::{or_dot, or_empty};
use unmute::recording::{needs_resampling, new_wav_path, recording_dir, TARGET_SAMPLE_RATE};
use unmute::setup::{
    app_dir, bin_dir, check, extracted_file_name, github_url, gpu_bin_dir, model_file_in, model_url, models_dir,
    setup_plan, whisper_exe_in, SetupKind, HF_BASE, WHISPER_VERSION,
};
use unmute::text::{is_whitespace, trim_string};

fn zip_of(entries: &[(&str, &[u8])]) -> Vec<u8> {
    let mut w = zip::ZipWriter::new(std::io::Cursor::new(Vec::new()));
    let opts = zip::write::SimpleFileOptions::default();
    for (name, data) in entries {
        w.start_file(*name, opts).unwrap();
        w.write_all(data).unwrap();
    }
    w.finish().unwrap().into_inner()
}

#[test]
fn github_release_url() {
    assert_eq!(WHISPER_VERSION, "v1.8.3");
    assert_eq!(
        github_url("whisper-bin-x64.zip"),
        "https://github.com/ggml-org/whisper.cpp/releases/download/v1.8.3/whisper-bin-x64.zip"
    );
}

#[test]
fn model_download_url() {
    assert_eq!(
        model_url("small.en"),
        format!("{}/ggml-small.en.bin", HF_BASE)
    );
    assert_eq!(model_url("base.en"), "https://huggingface.co/ggerganov/whisper.cpp/resolve/main/ggml-base.en.bin");
}

#[test]
fn install_directories() {
    let app = app_dir();
    assert!(app.ends_with("unmute"));
    assert!(bin_dir().starts_with(&app) && bin_dir().ends_with("bin"));
    assert!(gpu_bin_dir().starts_with(&app) && gpu_bin_dir().ends_with("bin-gpu"));
    assert!(models_dir().starts_with(&app) && models_dir().ends_with("models"));
    assert!(whisper_exe_in("dir").ends_with("whisper-cli.exe"));
    assert!(model_file_in("dir", "tiny").ends_with("ggml-tiny.bin"));
}

#[test]
fn setup_status() {
    let s = check("small.en", true, false, true);
    assert!(!s.needs_setup);
    assert_eq!(s.model_name, "small.en");
    assert!(check("small.en", false, true, true).needs_setup);
    assert!(check("small.en", true, true, false).needs_setup);
    assert!(!check("small.en", true, false, true).has_whisper_gpu);
}

#[test]
fn setup_plan_everything_missing() {
    let steps = setup_plan("tiny", true, false, false, false, "B", "G", "M");
    let kinds: Vec<SetupKind> = steps.iter().map(|s| s.kind).collect();
    assert_eq!(kinds, vec![SetupKind::WhisperCpu, SetupKind::WhisperCuda, SetupKind::Model]);
    assert_eq!(steps[0].url, github_url("whisper-bin-x64.zip"));
    assert_eq!(steps[0].archive_name.as_deref(), Some("unmute-whisper-cpu.zip"));
    assert_eq!(steps[0].destination, "B");
    assert_eq!(steps[0].download_status, "Downloading whisper.cpp (CPU)...");
    assert_eq!(steps[1].url, github_url("whisper-cublas-12.4.0-bin-x64.zip"));
    assert_eq!(steps[1].destination, "G");
    assert_eq!(steps[1].progress_step, "whisper-cuda");
    assert_eq!(steps[2].download_status, "Downloading model (tiny)...");
    assert_eq!(steps[2].url, model_url("tiny"));
    assert_eq!(steps[2].archive_name, None);
    assert!(steps[2].destination.starts_with('M') && steps[2].destination.ends_with("ggml-tiny.bin"));
}

#[test]
fn setup_plan_skips_installed_and_optional() {
    let steps = setup_plan("tiny", false, false, false, true, "B", "G", "M");
    assert_eq!(steps.len(), 1);
    assert_eq!(steps[0].kind, SetupKind::WhisperCpu);
    assert!(setup_plan("tiny", true, true, true, true, "B", "G", "M").is_empty());
}

#[test]
fn archive_entry_names() {
    assert_eq!(extracted_file_name("Release/whisper-cli.exe").as_deref(), Some("whisper-cli.exe"));
    assert_eq!(extracted_file_name("a/b/ggml.dll").as_deref(), Some("ggml.dll"));
    assert_eq!(extracted_file_name("main.exe").as_deref(), Some("main.exe"));
    assert_eq!(extracted_file_name("Release/README.md"), None);
    assert_eq!(extracted_file_name("Release/"), None);
    assert_eq!(extracted_file_name("Release\\whisper-cli.exe").as_deref(), Some("whisper-cli.exe"));
    assert_eq!(extracted_file_name("a/b\\c.dll").as_deref(), Some("c.dll"));
}

#[test]
fn extract_flattens_binaries() {
    let bytes = zip_of(&[
        ("Release/whisper-cli.exe", b"EXE"),
        ("Release/readme.txt", b"text"),
        ("Release/ggml.dll", b"DLL"),
    ]);
    let files = extract_whisper_zip(&bytes, "dest").unwrap();
    assert_eq!(files.len(), 2);
    assert!(files[0].path.starts_with("dest") && files[0].path.ends_with("whisper-cli.exe"));
    assert_eq!(files[0].contents, b"EXE".to_vec());
    assert!(files[1].path.ends_with("ggml.dll"));
    assert_eq!(files[1].contents, b"DLL".to_vec());
}

#[test]
fn extract_rejects_garbage() {
    assert!(extract_whisper_zip(b"not a zip archive", "dest").is_err());
}

#[test]
fn model_file_names() {
    assert_eq!(model_from_file_name("ggml-small.en.bin").as_deref(), Some("small.en"));
    assert_eq!(model_from_file_name("ggml-.bin").as_deref(), Some(""));
    assert_eq!(model_from_file_name("ggml.bin"), None);
    assert_eq!(model_from_file_name("small.en.bin"), None);
    assert_eq!(model_from_file_name("ggml-small.en.gguf"), None);
}

#[test]
fn models_are_collected_sorted_without_duplicates() {
    let names: Vec<String> = ["ggml-small.en.bin", "notes.txt", "ggml-base.en.bin", "ggml-small.en.bin", "ggml-large-v3-turbo.bin"]
        .iter()
        .map(|s| s.to_string())
        .collect();
    assert_eq!(collect_models(&names), vec!["base.en", "large-v3-turbo", "small.en"]);
}

#[test]
fn model_search_dirs() {
    let d = model_list_dirs("D:\\m");
    assert_eq!(d.len(), 2);
    assert_eq!(d[0], "D:\\m");
    assert!(d[1].ends_with("models"));
    assert_eq!(model_list_dirs("").len(), 1);
}

#[test]
fn string_order() {
    assert!(str_less("a", "b"));
    assert!(str_less("ab", "abc"));
    assert!(!str_less("b", "a"));
    assert!(!str_less("same", "same"));
    assert!(str_less("B", "a"));
    let mut v = vec!["a".to_string(), "c".to_string()];
    insert_sorted(&mut v, "b".to_string(), true);
    insert_sorted(&mut v, "b".to_string(), true);
    assert_eq!(v, vec!["a", "b", "c"]);
    insert_sorted(&mut v, "b".to_string(), false);
    assert_eq!(v, vec!["a", "b", "b", "c"]);
    assert_eq!(sort_strings(vec!["z".to_string(), "é".to_string(), "a".to_string()]), vec!["a", "z", "é"]);
}

#[test]
fn quotes_are_doubled() {
    assert_eq!(escape_single_quotes("it's Bob's"), "it''s Bob''s");
    assert_eq!(escape_single_quotes("plain"), "plain");
    assert_eq!(escape_single_quotes(""), "");
    assert_eq!(escape_single_quotes("it\u{2019}s \u{2018}x\u{201b}"), "it\u{2019}\u{2019}s \u{2018}\u{2018}x\u{201b}\u{201b}");
    assert_eq!(escape_single_quotes("\u{201a}"), "\u{201a}\u{201a}");
    assert_eq!(escape_single_quotes("\u{201c}"), "\u{201c}");
}

#[test]
fn paste_script_wraps_escaped_text() {
    let s = paste_script("don't");
    assert_eq!(s, format!("{}don''t{}", PASTE_SCRIPT_HEAD, PASTE_SCRIPT_TAIL));
    assert!(PASTE_SCRIPT_HEAD.ends_with("SetText('"));
    assert!(PASTE_SCRIPT_TAIL.starts_with("')"));
    assert!(PASTE_SCRIPT_HEAD.contains("GetImage()"));
    assert!(PASTE_SCRIPT_TAIL.contains("SendWait('^v')"));
    assert!(PASTE_SCRIPT_TAIL.contains("Clipboard]::Clear()"));
}

#[test]
fn overlay_scripts() {
    assert_eq!(
        overlay_status_js(OverlayStatus::Recording),
        "document.getElementById('pill').className = 'recording'; document.getElementById('timing').textContent = '';"
    );
    assert!(overlay_status_js(OverlayStatus::Error).contains("3000"));
    assert!(overlay_status_js(OverlayStatus::Processing).contains("'processing'"));
    assert!(overlay_status_js(OverlayStatus::Idle).starts_with("document.getElementById('pill').className = '';"));
    assert_eq!(done_label("GPU", "1.2s", None), "GPU ASR 1.2s | LLM \u{2014}");
    assert_eq!(done_label("CPU*", "3.7s", Some("0.4s")), "CPU* ASR 3.7s | LLM 0.4s");
    let js = overlay_done_js("X");
    assert!(js.contains("textContent = 'X';"));
    assert!(js.ends_with("}, 5000);"));
}

#[test]
fn download_progress() {
    let mut p = start_download("model", Some(1000));
    assert_eq!((p.downloaded, p.total), (0, 1000));
    assert!(!on_chunk(&mut p, 400, 50));
    assert!(on_chunk(&mut p, 100, 101));
    assert!(!on_chunk(&mut p, 0, 100));
    assert_eq!(p.downloaded, 500);
    assert_eq!(p.step, "model");
    assert_eq!(start_download("x", None).total, 0);
}

#[test]
fn download_errors() {
    assert_eq!(download_error(DownloadFailure::Request("dns".to_string())), "Download failed: dns");
    assert_eq!(download_error(DownloadFailure::Status("404 Not Found".to_string())), "HTTP 404 Not Found");
    assert_eq!(download_error(DownloadFailure::Body("reset".to_string())), "Download error: reset");
}

#[test]
fn recording_files() {
    let dir = recording_dir("tmp");
    assert!(dir.starts_with("tmp") && dir.ends_with("unmute"));
    let a = new_wav_path(&dir);
    let b = new_wav_path(&dir);
    assert!(a.starts_with(&dir) && a.ends_with(".wav"));
    assert_eq!(a.len(), dir.len() + 1 + 36 + 4);
    assert_ne!(a, b);
    assert!(needs_resampling(48000));
    assert!(!needs_resampling(TARGET_SAMPLE_RATE));
}

#[test]
fn paths_and_defaults() {
    let j = recording_dir("a");
    assert!(j == "a/unmute" || j == "a\\unmute");
    assert_eq!(unmute::setup::app_dir_in(Some(String::new())), "unmute");
    assert_eq!(or_empty(None), "");
    assert_eq!(or_dot(None), ".");
    assert_eq!(or_dot(Some("d".to_string())), "d");
    let c = Config::config_path();
    assert!(c.ends_with("config.json") && c.contains("unmute"));
}

#[test]
fn trimming() {
    assert_eq!(trim_string("  a b \n"), "a b");
    assert_eq!(trim_string("\u{2003}x\u{00a0}"), "x");
    assert!(is_whitespace('\u{3000}'));
    assert!(!is_whitespace('x'));
}

#[test]
fn escaped_text_reads_back() {
    for t in ["it's", "''", "no quotes", "a'b'c'", "it\u{2019}s", "\u{2018}'\u{201b}"] {
        let e = escape_single_quotes(t);
        // Read the literal back as PowerShell does: two quotes in a row stand for the second.
        let mut back = String::new();
        let mut chars = e.chars().peekable();
        while let Some(c) = chars.next() {
            let quote = c == '\'' || ('\u{2018}'..='\u{201b}').contains(&c);
            if quote {
                back.push(chars.next().expect("quote characters come in pairs"));
            } else {
                back.push(c);
            }
        }
        assert_eq!(back, t);
    }
}

#[test]
fn paste_command_and_result() {
    assert_eq!(powershell_args("S"), vec!["-NoProfile", "-NonInteractive", "-STA", "-Command", "S"]);
    assert_eq!(paste_result(Ok((true, String::new()))), Ok(()));
    assert_eq!(paste_result(Ok((false, "denied".to_string()))), Err("Paste failed: denied".to_string()));
    assert_eq!(paste_result(Err("no shell".to_string())), Err("Failed to paste: no shell".to_string()));
}

fn slashed(p: &str) -> String {
    p.replace('\\', "/")
}

#[test]
fn directories_under_given_bases() {
    assert_eq!(unmute::setup::app_dir_in(None), "unmute");
    assert_eq!(slashed(&unmute::setup::app_dir_in(Some("L".to_string()))), "L/unmute");
    assert_eq!(slashed(&unmute::logger::log_dir_in(None)), "./unmute/logs");
    assert_eq!(slashed(&unmute::logger::log_dir_in(Some("D".to_string()))), "D/unmute/logs");
    assert_eq!(slashed(&unmute::config::Config::config_path_in(Some("C".to_string()))), "C/unmute/config.json");
    assert_eq!(slashed(&unmute::config::Config::config_path_in(None)), "./unmute/config.json");
    let dirs = unmute::catalog::model_list_dirs_in("M", Some("D".to_string()));
    assert_eq!(dirs.iter().map(|d| slashed(d)).collect::<Vec<_>>(), vec!["M", "D/unmute/models"]);
    let paths = unmute::cleanup::ollama_install_paths_in(Some("L".to_string()));
    assert_eq!(slashed(&paths[0]), "L/Programs/Ollama/ollama.exe");
    let c = unmute::asr::model_candidates_in("M", "tiny", Some("D".to_string()), None);
    assert_eq!(
        c.iter().map(|p| slashed(p)).collect::<Vec<_>>(),
        vec!["M/ggml-tiny.bin", "D/unmute/models/ggml-tiny.bin", ".unmute/models/ggml-tiny.bin"]
    );
}

#[test]
fn entry_targets_flatten_both_separators() {
    assert_eq!(entry_target("bin/a.dll", "out").map(|p| slashed(&p)).as_deref(), Some("out/a.dll"));
    assert_eq!(entry_target("bin\\sub\\b.exe", "out").map(|p| slashed(&p)).as_deref(), Some("out/b.exe"));
    assert_eq!(entry_target("a\\b/c.exe", "out").map(|p| slashed(&p)).as_deref(), Some("out/c.exe"));
    assert_eq!(entry_target("bin/notes.txt", "out"), None);
    assert_eq!(entry_target("bin/", "out"), None);
}

#[test]
fn extract_skips_unreadable_other_entries() {
    // Only the contents of executables and libraries are read.
    let bytes = zip_of(&[("x/one.txt", b"1"), ("win\\two.exe", b"22")]);
    let files = extract_whisper_zip(&bytes, "d").unwrap();
    assert_eq!(files.len(), 1);
    assert_eq!(slashed(&files[0].path), "d/two.exe");
    assert_eq!(files[0].contents, b"22".to_vec());
    assert!(extract_whisper_zip(&[], "d").is_err());
}

#[test]
fn install_dirs_under_a_base() {
    assert_eq!(slashed(&bin_dir_in(Some("L".to_string()))), "L/unmute/bin");
    assert_eq!(slashed(&gpu_bin_dir_in(Some("L".to_string()))), "L/unmute/bin-gpu");
    assert_eq!(slashed(&models_dir_in(Some("L".to_string()))), "L/unmute/models");
    assert_eq!(slashed(&bin_dir_in(None)), "unmute/bin");
    assert_ne!(bin_dir_in(Some("L".to_string())), gpu_bin_dir_in(Some("L".to_string())));
    assert_eq!(slashed(&whisper_exe_in("B")), "B/whisper-cli.exe");
}

#[test]
fn installed_model_is_listed_by_name() {
    for m in ["tiny", "large-v3-turbo", "", "ggml-x.bin"] {
        let file = unmute::asr::model_file_name(m);
        assert_eq!(model_from_file_name(&file).as_deref(), Some(m));
    }
}

#[test]
fn setup_needed_iff_required_steps_planned() {
    for cpu in [false, true] {
        for gpu in [false, true] {
            for model in [false, true] {
                for cuda in [false, true] {
                    let needs = check("m", cpu, gpu, model).needs_setup;
                    let steps = setup_plan("m", cuda, cpu, gpu, model, "B", "G", "M");
                    let required = steps.iter().any(|s| s.kind == SetupKind::WhisperCpu || s.kind == SetupKind::Model);
                    assert_eq!(needs, required);
                }
            }
        }
    }
}

fn head(success: bool, status: &str, len: Option<u64>) -> HttpHead {
    HttpHead { success, status: status.to_string(), content_length: len }
}

#[test]
fn download_fails_on_status_before_the_file() {
    let s = start_download_run("model");
    let (s, a) = download_step(s, DownloadEvent::DirReady(Ok(())));
    assert!(matches!(a, DownloadAction::Request));
    let (s, a) = download_step(s, DownloadEvent::Responded(Ok(head(false, "404 Not Found", None))));
    assert!(matches!(s, DownloadStage::Done));
    assert!(matches!(&a, DownloadAction::Fail(e) if e == "HTTP 404 Not Found"));
    let (_, a) = download_step(start_download_run("m"), DownloadEvent::DirReady(Err("denied".to_string())));
    assert!(matches!(&a, DownloadAction::Fail(e) if e == "denied"));
}

#[test]
fn download_runs_to_a_final_report() {
    let s = start_download_run("model");
    let (s, _) = download_step(s, DownloadEvent::DirReady(Ok(())));
    let (s, a) = download_step(s, DownloadEvent::Responded(Ok(head(true, "200 OK", Some(10)))));
    assert!(matches!(a, DownloadAction::CreateFile));
    let (s, a) = download_step(s, DownloadEvent::FileCreated(Ok(())));
    assert!(matches!(a, DownloadAction::ReadChunk));
    let (s, a) = download_step(s, DownloadEvent::ChunkRead(Ok(Some(6))));
    assert!(matches!(a, DownloadAction::WriteChunk));
    let (s, a) = download_step(s, DownloadEvent::ChunkWritten(Ok(()), 20));
    assert!(matches!(a, DownloadAction::ReadChunk));
    let (s, _) = download_step(s, DownloadEvent::ChunkRead(Ok(Some(4))));
    let (s, a) = download_step(s, DownloadEvent::ChunkWritten(Ok(()), 150));
    assert!(matches!(&a, DownloadAction::Report { step, downloaded: 10, total: 10 } if step == "model"));
    let (s, a) = download_step(s, DownloadEvent::ChunkRead(Ok(None)));
    assert!(matches!(s, DownloadStage::Done));
    assert!(matches!(&a, DownloadAction::Succeed { step, downloaded: 10, total: 10 } if step == "model"));
}

#[test]
fn download_errors_in_the_body() {
    let s = start_download_run("x");
    let (s, _) = download_step(s, DownloadEvent::DirReady(Ok(())));
    let (_, a) = download_step(s, DownloadEvent::Responded(Err("dns".to_string())));
    assert!(matches!(&a, DownloadAction::Fail(e) if e == "Download failed: dns"));
    let s = start_download_run("x");
    let (s, _) = download_step(s, DownloadEvent::DirReady(Ok(())));
    let (s, _) = download_step(s, DownloadEvent::Responded(Ok(head(true, "200 OK", None))));
    let (s, _) = download_step(s, DownloadEvent::FileCreated(Ok(())));
    let (_, a) = download_step(s, DownloadEvent::ChunkRead(Err("reset".to_string())));
    assert!(matches!(&a, DownloadAction::Fail(e) if e == "Download error: reset"));
}

#[test]
fn setup_runs_steps_in_order_and_completes_last() {
    let steps = setup_plan("tiny", false, false, false, false, "B", "G", "M");
    let (s, a) = setup_start(&steps, "T");
    match &a {
        SetupAction::Download { status, url, to, progress_step } => {
            assert_eq!(status, "Downloading whisper.cpp (CPU)...");
            assert_eq!(url, &github_url("whisper-bin-x64.zip"));
            assert_eq!(slashed(to), "T/unmute-whisper-cpu.zip");
            assert_eq!(progress_step, "whisper-cpu");
        }
        _ => panic!("expected a download"),
    }
    let (s, a) = setup_step(&steps, "T", s, SetupEvent::Downloaded(Ok(())));
    assert!(matches!(&a, SetupAction::Extract { status, archive, into } if status == "Extracting whisper.cpp (CPU)..." && slashed(archive) == "T/unmute-whisper-cpu.zip" && into == "B"));
    let (s, a) = setup_step(&steps, "T", s, SetupEvent::Extracted(Ok(())));
    assert!(matches!(&a, SetupAction::RemoveArchive(p) if slashed(p) == "T/unmute-whisper-cpu.zip"));
    let (s, a) = setup_step(&steps, "T", s, SetupEvent::Removed);
    assert!(matches!(&a, SetupAction::Download { url, to, .. } if url == &model_url("tiny") && slashed(to) == "M/ggml-tiny.bin"));
    let (s, a) = setup_step(&steps, "T", s, SetupEvent::Downloaded(Ok(())));
    assert!(matches!(s, SetupRunStage::Done));
    assert!(matches!(a, SetupAction::Complete));
}

#[test]
fn setup_stops_at_first_failure() {
    let steps = setup_plan("tiny", true, false, false, false, "B", "G", "M");
    let (s, _) = setup_start(&steps, "T");
    let (s, a) = setup_step(&steps, "T", s, SetupEvent::Downloaded(Err("HTTP 500".to_string())));
    assert!(matches!(s, SetupRunStage::Done));
    assert!(matches!(&a, SetupAction::Fail(e) if e == "HTTP 500"));
    let (_, a) = setup_step(&steps, "T", s, SetupEvent::Removed);
    assert!(matches!(a, SetupAction::Nothing));
    let (_, a) = setup_start(&vec![], "T");
    assert!(matches!(a, SetupAction::Complete));
}

#[test]
fn archive_entries_one_by_one() {
    let bytes = zip_of(&[("x/one.txt", b"1"), ("bin/two.exe", b"22")]);
    assert_eq!(unmute::archive::zip_entries(&bytes), Ok(2));
    assert!(unmute::archive::extract_entry(&bytes, 0, "d").unwrap().is_none());
    let f = unmute::archive::extract_entry(&bytes, 1, "d").unwrap().unwrap();
    assert_eq!(slashed(&f.path), "d/two.exe");
    assert_eq!(f.contents, b"22".to_vec());
    assert!(unmute::archive::extract_entry(&bytes, 5, "d").is_err());
    assert!(unmute::archive::zip_entries(b"junk").is_err());
}
