use vstd::prelude::*;
use vstd::string::*;
use crate::asr::{lemma_model_file_relative, model_file_name, model_file_spec};
use crate::paths::{
    data_local_dir, dir_or_empty, is_name, is_relative_part, join_path, joins, joins2, lemma_join_plain, or_empty,
    plain_base,
};
use crate::text::{chars_end_with, chars_of, ends_with, string_from_chars, sub_chars};

verus! {

/// Release of the speech recogniser that is installed.
pub const WHISPER_VERSION: &'static str = "v1.8.3";
/// Where model files are downloaded from.
pub const HF_BASE: &'static str = "https://huggingface.co/ggerganov/whisper.cpp/resolve/main";

pub open spec fn github_url_spec(file: Seq<char>) -> Seq<char> {
    "https://github.com/ggml-org/whisper.cpp/releases/download/"@ + WHISPER_VERSION@ + "/"@ + file
}

/// The download address of a release file of the speech recogniser.
pub fn github_url(file: &str) -> (r: String)
    ensures
        r@ == github_url_spec(file@),
{
    String::from_str("https://github.com/ggml-org/whisper.cpp/releases/download/").concat(
        WHISPER_VERSION,
    ).concat("/").concat(file)
}

pub open spec fn model_url_spec(model: Seq<char>) -> Seq<char> {
    HF_BASE@ + "/"@ + model_file_spec(model)
}

/// The download address of a model file.
pub fn model_url(model: &str) -> (r: String)
    ensures
        r@ == model_url_spec(model@),
{
    let file = model_file_name(model);
    String::from_str(HF_BASE).concat("/").concat(file.as_str())
}

/// The application's directory under a base directory: `unmute` under it,
/// or relative to the working directory when there is none.
pub fn app_dir_in(base: Option<String>) -> (r: String)
    ensures
        plain_base(dir_or_empty(base)) ==> joins(dir_or_empty(base), "unmute"@, r@),
        plain_base(dir_or_empty(base)) ==> plain_base(r@),
        ends_with(r@, "unmute"@),
{
    proof {
        reveal_strlit("unmute");
        lemma_is_name_unmute();
    }
    let b = or_empty(base);
    let r = join_path(b.as_str(), "unmute");
    proof {
        if plain_base(b@) {
            lemma_join_plain(b@, "unmute"@, r@);
        }
    }
    r
}

proof fn lemma_is_name_unmute()
    ensures
        is_name("unmute"@),
{
    reveal_strlit("unmute");
    assert("unmute"@ != "."@ && "unmute"@ != ".."@) by {
        reveal_strlit(".");
        reveal_strlit("..");
        assert("unmute"@.len() != "."@.len());
        assert("unmute"@.len() != ".."@.len());
    }
}

/// The application's directory, `unmute` under the user's local data
/// directory (`app_dir_in` of that directory).
pub fn app_dir() -> (r: String)
    ensures
        ends_with(r@, "unmute"@),
{
    app_dir_in(data_local_dir())
}

/// A directory inside the application directory under a base directory.
fn app_subdir_in(base: Option<String>, sub: &str) -> (r: String)
    requires
        is_name(sub@),
        sub@[0] != '?',
    ensures
        plain_base(dir_or_empty(base)) ==> joins2(dir_or_empty(base), "unmute"@, sub@, r@),
        ends_with(r@, sub@),
{
    let ghost b = dir_or_empty(base);
    let app = app_dir_in(base);
    let r = join_path(app.as_str(), sub);
    proof {
        if plain_base(b) {
            assert(joins(b, "unmute"@, app@) && joins(app@, sub@, r@));
        }
    }
    r
}

proof fn lemma_names()
    ensures
        is_name("bin"@) && "bin"@[0] != '?',
        is_name("bin-gpu"@) && "bin-gpu"@[0] != '?',
        is_name("models"@) && "models"@[0] != '?',
        is_name("whisper-cli.exe"@),
{
    reveal_strlit("bin");
    reveal_strlit("bin-gpu");
    reveal_strlit("models");
    reveal_strlit("whisper-cli.exe");
    reveal_strlit(".");
    reveal_strlit("..");
    assert("bin"@.len() != "."@.len() && "bin"@.len() != ".."@.len());
    assert("bin-gpu"@.len() != "."@.len() && "bin-gpu"@.len() != ".."@.len());
    assert("models"@.len() != "."@.len() && "models"@.len() != ".."@.len());
    assert("whisper-cli.exe"@.len() != "."@.len() && "whisper-cli.exe"@.len() != ".."@.len());
}

/// Where the CPU build of the recogniser is installed under a local data
/// directory: `unmute/bin` under it.
pub fn bin_dir_in(local: Option<String>) -> (r: String)
    ensures
        plain_base(dir_or_empty(local)) ==> joins2(dir_or_empty(local), "unmute"@, "bin"@, r@),
        ends_with(r@, "bin"@),
{
    proof {
        lemma_names();
    }
    app_subdir_in(local, "bin")
}

/// Where the CPU build of the recogniser is installed: `bin_dir_in` of the
/// user's local data directory.
pub fn bin_dir() -> (r: String)
    ensures
        ends_with(r@, "bin"@),
{
    bin_dir_in(data_local_dir())
}

/// Where the CUDA build of the recogniser is installed under a local data
/// directory: `unmute/bin-gpu` under it.
pub fn gpu_bin_dir_in(local: Option<String>) -> (r: String)
    ensures
        plain_base(dir_or_empty(local)) ==> joins2(dir_or_empty(local), "unmute"@, "bin-gpu"@, r@),
        ends_with(r@, "bin-gpu"@),
{
    proof {
        lemma_names();
    }
    app_subdir_in(local, "bin-gpu")
}

/// Where the CUDA build of the recogniser is installed: `gpu_bin_dir_in` of
/// the user's local data directory.
pub fn gpu_bin_dir() -> (r: String)
    ensures
        ends_with(r@, "bin-gpu"@),
{
    gpu_bin_dir_in(data_local_dir())
}

/// Where models are installed under a local data directory: `unmute/models`
/// under it.
pub fn models_dir_in(local: Option<String>) -> (r: String)
    ensures
        plain_base(dir_or_empty(local)) ==> joins2(dir_or_empty(local), "unmute"@, "models"@, r@),
        ends_with(r@, "models"@),
{
    proof {
        lemma_names();
    }
    app_subdir_in(local, "models")
}

/// Where models are installed: `models_dir_in` of the user's local data
/// directory.
pub fn models_dir() -> (r: String)
    ensures
        ends_with(r@, "models"@),
{
    models_dir_in(data_local_dir())
}

/// Under one base directory the CUDA build's directory is never the CPU
/// build's: they are the siblings `unmute/bin-gpu` and `unmute/bin`.
pub proof fn law_gpu_bin_dir_distinct(d: Seq<char>, cpu: Seq<char>, gpu: Seq<char>)
    requires
        joins2(d, "unmute"@, "bin"@, cpu),
        joins2(d, "unmute"@, "bin-gpu"@, gpu),
    ensures
        cpu != gpu,
{
    reveal_strlit("bin");
    reveal_strlit("bin-gpu");
    let a = choose|a: Seq<char>| joins(d, "unmute"@, a) && joins(a, "bin"@, cpu);
    let b = choose|b: Seq<char>| joins(d, "unmute"@, b) && joins(b, "bin-gpu"@, gpu);
    assert(cpu.last() == 'n');
    assert(gpu.last() == 'u');
}

/// The recogniser executable inside an installation directory.
pub fn whisper_exe_in(dir: &str) -> (r: String)
    ensures
        plain_base(dir@) ==> joins(dir@, "whisper-cli.exe"@, r@),
        ends_with(r@, "whisper-cli.exe"@),
{
    proof {
        lemma_names();
    }
    join_path(dir, "whisper-cli.exe")
}

/// A model's file inside a models directory.
pub fn model_file_in(dir: &str, model: &str) -> (r: String)
    ensures
        plain_base(dir@) ==> joins(dir@, model_file_spec(model@), r@),
{
    let file = model_file_name(model);
    proof {
        lemma_model_file_relative(model@);
    }
    join_path(dir, file.as_str())
}

/// What is installed, and whether setup still has to run.
#[derive(Debug, Clone)]
pub struct SetupStatus {
    pub has_whisper_cpu: bool,
    pub has_whisper_gpu: bool,
    pub has_model: bool,
    pub model_name: String,
    pub needs_setup: bool,
}

/// The installation state from what was found on disk: setup is needed
/// when the CPU recogniser or the model is missing (the CUDA build is
/// optional).
pub fn check(model: &str, has_whisper_cpu: bool, has_whisper_gpu: bool, has_model: bool) -> (r: SetupStatus)
    ensures
        r.has_whisper_cpu == has_whisper_cpu,
        r.has_whisper_gpu == has_whisper_gpu,
        r.has_model == has_model,
        r.model_name@ == model@,
        r.needs_setup == (!has_whisper_cpu || !has_model),
{
    SetupStatus {
        has_whisper_cpu,
        has_whisper_gpu,
        has_model,
        model_name: String::from_str(model),
        needs_setup: !has_whisper_cpu || !has_model,
    }
}

/// The three things setup can install.
#[derive(Debug, Clone, Copy, PartialEq, Eq, Structural)]
pub enum SetupKind {
    WhisperCpu,
    WhisperCuda,
    Model,
}

/// One installation step: announce `download_status`, download `url`
/// (reporting progress under `progress_step`); an archive goes to the
/// temporary file `archive_name` and is then, after `extract_status`,
/// unpacked into the directory `destination` and deleted; a model is
/// written to the file `destination`.
#[derive(Debug, Clone)]
pub struct SetupStep {
    pub kind: SetupKind,
    pub progress_step: String,
    pub download_status: String,
    pub url: String,
    pub archive_name: Option<String>,
    pub extract_status: Option<String>,
    pub destination: String,
}

pub open spec fn opt_view(o: Option<String>) -> Option<Seq<char>> {
    match o {
        Some(s) => Some(s@),
        None => None,
    }
}

/// The steps setup takes, in order: the CPU recogniser when missing, the
/// CUDA recogniser when asked for and missing, the model when missing.
pub open spec fn planned_kinds(include_cuda: bool, has_cpu: bool, has_gpu: bool, has_model: bool) -> Seq<SetupKind> {
    (if !has_cpu { seq![SetupKind::WhisperCpu] } else { Seq::empty() })
    + (if include_cuda && !has_gpu { seq![SetupKind::WhisperCuda] } else { Seq::empty() })
    + (if !has_model { seq![SetupKind::Model] } else { Seq::empty() })
}

/// Setup is needed exactly when the plan installs something that the
/// application cannot do without: the CPU recogniser or the model.
pub proof fn law_setup_needed_iff_required_step(include_cuda: bool, has_cpu: bool, has_gpu: bool, has_model: bool)
    ensures
        (!has_cpu || !has_model) <==> (planned_kinds(include_cuda, has_cpu, has_gpu, has_model).contains(
            SetupKind::WhisperCpu,
        ) || planned_kinds(include_cuda, has_cpu, has_gpu, has_model).contains(SetupKind::Model)),
        planned_kinds(include_cuda, true, true, true).len() == 0,
{
    let k = planned_kinds(include_cuda, has_cpu, has_gpu, has_model);
    if !has_cpu {
        assert(k[0] == SetupKind::WhisperCpu);
    } else if !has_model {
        assert(k[k.len() - 1] == SetupKind::Model);
    } else {
        if k.contains(SetupKind::WhisperCpu) || k.contains(SetupKind::Model) {
            let i = choose|i: int| 0 <= i < k.len() && (k[i] == SetupKind::WhisperCpu || k[i] == SetupKind::Model);
            assert(k[i] == SetupKind::WhisperCuda);
        }
    }
    assert(planned_kinds(include_cuda, true, true, true) =~= Seq::<SetupKind>::empty());
}

/// What a step of each kind holds.
pub open spec fn step_is(st: SetupStep, model: Seq<char>, bin_dir: Seq<char>, gpu_bin_dir: Seq<char>, models_dir: Seq<char>) -> bool {
    match st.kind {
        SetupKind::WhisperCpu => {
            &&& st.progress_step@ == "whisper-cpu"@
            &&& st.download_status@ == "Downloading whisper.cpp (CPU)..."@
            &&& st.url@ == github_url_spec("whisper-bin-x64.zip"@)
            &&& opt_view(st.archive_name) == Some("unmute-whisper-cpu.zip"@)
            &&& opt_view(st.extract_status) == Some("Extracting whisper.cpp (CPU)..."@)
            &&& st.destination@ == bin_dir
        },
        SetupKind::WhisperCuda => {
            &&& st.progress_step@ == "whisper-cuda"@
            &&& st.download_status@ == "Downloading whisper.cpp (CUDA)..."@
            &&& st.url@ == github_url_spec("whisper-cublas-12.4.0-bin-x64.zip"@)
            &&& opt_view(st.archive_name) == Some("unmute-whisper-cuda.zip"@)
            &&& opt_view(st.extract_status) == Some("Extracting whisper.cpp (CUDA)..."@)
            &&& st.destination@ == gpu_bin_dir
        },
        SetupKind::Model => {
            &&& st.progress_step@ == "model"@
            &&& st.download_status@ == "Downloading model ("@ + model + ")..."@
            &&& st.url@ == model_url_spec(model)
            &&& st.archive_name is None
            &&& st.extract_status is None
            &&& plain_base(models_dir) ==> joins(models_dir, model_file_spec(model), st.destination@)
        },
    }
}

/// The installation steps still to take, given what is already installed
/// and the installation directories.
pub fn setup_plan(
    model: &str,
    include_cuda: bool,
    has_whisper_cpu: bool,
    has_whisper_gpu: bool,
    has_model: bool,
    bin_dir: &str,
    gpu_bin_dir: &str,
    models_dir: &str,
) -> (r: Vec<SetupStep>)
    ensures
        r@.map_values(|st: SetupStep| st.kind) == planned_kinds(include_cuda, has_whisper_cpu, has_whisper_gpu, has_model),
        forall|i: int| 0 <= i < r@.len() ==> step_is(#[trigger] r@[i], model@, bin_dir@, gpu_bin_dir@, models_dir@),
{
    let mut r: Vec<SetupStep> = Vec::new();
    if !has_whisper_cpu {
        r.push(SetupStep {
            kind: SetupKind::WhisperCpu,
            progress_step: String::from_str("whisper-cpu"),
            download_status: String::from_str("Downloading whisper.cpp (CPU)..."),
            url: github_url("whisper-bin-x64.zip"),
            archive_name: Some(String::from_str("unmute-whisper-cpu.zip")),
            extract_status: Some(String::from_str("Extracting whisper.cpp (CPU)...")),
            destination: String::from_str(bin_dir),
        });
    }
    if include_cuda && !has_whisper_gpu {
        r.push(SetupStep {
            kind: SetupKind::WhisperCuda,
            progress_step: String::from_str("whisper-cuda"),
            download_status: String::from_str("Downloading whisper.cpp (CUDA)..."),
            url: github_url("whisper-cublas-12.4.0-bin-x64.zip"),
            archive_name: Some(String::from_str("unmute-whisper-cuda.zip")),
            extract_status: Some(String::from_str("Extracting whisper.cpp (CUDA)...")),
            destination: String::from_str(gpu_bin_dir),
        });
    }
    if !has_model {
        r.push(SetupStep {
            kind: SetupKind::Model,
            progress_step: String::from_str("model"),
            download_status: String::from_str("Downloading model (").concat(model).concat(")..."),
            url: model_url(model),
            archive_name: None,
            extract_status: None,
            destination: model_file_in(models_dir, model),
        });
    }
    assert(r@.map_values(|st: SetupStep| st.kind) =~= planned_kinds(include_cuda, has_whisper_cpu, has_whisper_gpu, has_model));
    r
}

/// Where carrying out the installation plan stands.
pub enum SetupRunStage {
    /// Step `index` is downloading to `to`.
    Downloading { index: usize, to: String },
    /// Step `index` is unpacking the archive `archive`.
    Extracting { index: usize, archive: String },
    /// Step `index` is deleting the unpacked archive `archive`.
    Removing { index: usize, archive: String },
    /// Nothing more to do.
    Done,
}

/// The outcome of the last action, reported back to `setup_step`.
pub enum SetupEvent {
    Downloaded(Result<(), String>),
    Extracted(Result<(), String>),
    Removed,
}

/// What to do next.
pub enum SetupAction {
    /// The event does not belong to the stage: nothing to do.
    Nothing,
    /// Announce `status`, then download `url` to the file `to`, reporting
    /// progress under `progress_step`.
    Download { status: String, url: String, to: String, progress_step: String },
    /// Announce `status`, then unpack the archive into the directory `into`.
    Extract { status: String, archive: String, into: String },
    /// Delete the unpacked archive (a failure is ignored).
    RemoveArchive(String),
    /// Announce "Setup complete!" and succeed.
    Complete,
    /// Fail with this message; later steps are not taken.
    Fail(String),
}

/// `r` starts step `j` of the plan, or completes setup after the last step.
/// An archive is downloaded to its name in the temporary directory, a model
/// straight to its destination.
pub open spec fn starts_step(r: (SetupRunStage, SetupAction), steps: Seq<SetupStep>, temp: Seq<char>, j: int) -> bool {
    if 0 <= j < steps.len() {
        let st = steps[j];
        &&& r.0 matches SetupRunStage::Downloading { index, to } && index == j
        &&& r.1 matches SetupAction::Download { status, url, to: t, progress_step } && status@
            == st.download_status@ && url@ == st.url@ && progress_step@ == st.progress_step@ && r.0->to@
            == t@ && match st.archive_name {
            Some(a) => plain_base(temp) && is_relative_part(a@) ==> joins(temp, a@, t@),
            None => t@ == st.destination@,
        }
    } else {
        &&& r.0 is Done
        &&& r.1 is Complete
    }
}

/// Starts step `j` of the plan, or completes setup.
fn start_step(steps: &Vec<SetupStep>, temp_dir: &str, j: usize) -> (r: (SetupRunStage, SetupAction))
    ensures
        starts_step(r, steps@, temp_dir@, j as int),
{
    if j < steps.len() {
        let st = &steps[j];
        let to = match &st.archive_name {
            Some(a) => join_path(temp_dir, a.as_str()),
            None => st.destination.clone(),
        };
        let t = to.clone();
        (
            SetupRunStage::Downloading { index: j, to },
            SetupAction::Download {
                status: st.download_status.clone(),
                url: st.url.clone(),
                to: t,
                progress_step: st.progress_step.clone(),
            },
        )
    } else {
        (SetupRunStage::Done, SetupAction::Complete)
    }
}

/// The start of carrying out the plan: its first step, or completion when
/// there is nothing to install.
pub fn setup_start(steps: &Vec<SetupStep>, temp_dir: &str) -> (r: (SetupRunStage, SetupAction))
    ensures
        starts_step(r, steps@, temp_dir@, 0),
{
    start_step(steps, temp_dir, 0)
}

/// One step of carrying out the plan: the steps run in order; a step with
/// an archive downloads it, unpacks it and deletes it; the first failure
/// ends setup with its message; "Setup complete!" comes only after the last
/// step succeeded.
pub open spec fn is_setup_step(
    steps: Seq<SetupStep>,
    temp: Seq<char>,
    stage: SetupRunStage,
    event: SetupEvent,
    r: (SetupRunStage, SetupAction),
) -> bool {
    match (stage, event) {
        (SetupRunStage::Downloading { .. }, SetupEvent::Downloaded(Err(e))) => {
            &&& r.0 is Done
            &&& r.1 matches SetupAction::Fail(m) && m@ == e@
        },
        (SetupRunStage::Downloading { index, to }, SetupEvent::Downloaded(Ok(_))) => {
            if index < steps.len() && steps[index as int].archive_name is Some
                && steps[index as int].extract_status is Some {
                &&& r.0 matches SetupRunStage::Extracting { index: i, archive } && i == index && archive@ == to@
                &&& r.1 matches SetupAction::Extract { status, archive, into } && status@
                    == steps[index as int].extract_status->0@ && archive@ == to@ && into@
                    == steps[index as int].destination@
            } else {
                starts_step(r, steps, temp, index + 1)
            }
        },
        (SetupRunStage::Extracting { .. }, SetupEvent::Extracted(Err(e))) => {
            &&& r.0 is Done
            &&& r.1 matches SetupAction::Fail(m) && m@ == e@
        },
        (SetupRunStage::Extracting { index, archive }, SetupEvent::Extracted(Ok(_))) => {
            &&& r.0 matches SetupRunStage::Removing { index: i, archive: a } && i == index && a@ == archive@
            &&& r.1 matches SetupAction::RemoveArchive(a) && a@ == archive@
        },
        (SetupRunStage::Removing { index, .. }, SetupEvent::Removed) => starts_step(r, steps, temp, index + 1),
        (s, _) => r.0 == s && r.1 is Nothing,
    }
}

/// Every archive in the plan is unpacked once downloaded, whichever step it
/// is: after a successful download at step `i` of a step that has an
/// archive, the archive just downloaded is unpacked into that step's
/// destination under its extraction status.
pub proof fn law_every_archive_unpacked(
    steps: Seq<SetupStep>,
    temp: Seq<char>,
    i: usize,
    to: String,
    done: Result<(), String>,
    r: (SetupRunStage, SetupAction),
)
    requires
        i < steps.len(),
        steps[i as int].archive_name is Some,
        steps[i as int].extract_status is Some,
        done is Ok,
        is_setup_step(steps, temp, SetupRunStage::Downloading { index: i, to }, SetupEvent::Downloaded(done), r),
    ensures
        r.1 matches SetupAction::Extract { status, archive, into } && status@ == steps[i as int].extract_status->0@
            && archive@ == to@ && into@ == steps[i as int].destination@,
        r.0 matches SetupRunStage::Extracting { index, .. } && index == i,
{
}

/// One step of carrying out the installation plan `steps`, with archives
/// downloaded into `temp_dir`.
pub fn setup_step(steps: &Vec<SetupStep>, temp_dir: &str, stage: SetupRunStage, event: SetupEvent) -> (r: (
    SetupRunStage,
    SetupAction,
))
    ensures
        is_setup_step(steps@, temp_dir@, stage, event, r),
{
    assert(steps@.len() == steps.len());
    match (stage, event) {
        (SetupRunStage::Downloading { index, to }, SetupEvent::Downloaded(done)) => match done {
            Err(e) => (SetupRunStage::Done, SetupAction::Fail(e)),
            Ok(_) => {
                if index < steps.len() {
                    let st = &steps[index];
                    match (&st.archive_name, &st.extract_status) {
                        (Some(_), Some(status)) => {
                            let archive = to.clone();
                            let into = st.destination.clone();
                            return (
                                SetupRunStage::Extracting { index, archive: to },
                                SetupAction::Extract { status: status.clone(), archive, into },
                            );
                        },
                        _ => {},
                    }
                }
                if index < usize::MAX {
                    start_step(steps, temp_dir, index + 1)
                } else {
                    (SetupRunStage::Done, SetupAction::Complete)
                }
            },
        },
        (SetupRunStage::Extracting { index, archive }, SetupEvent::Extracted(done)) => match done {
            Err(e) => (SetupRunStage::Done, SetupAction::Fail(e)),
            Ok(_) => {
                let a = archive.clone();
                (SetupRunStage::Removing { index, archive }, SetupAction::RemoveArchive(a))
            },
        },
        (SetupRunStage::Removing { index, archive }, SetupEvent::Removed) => if index < usize::MAX {
            start_step(steps, temp_dir, index + 1)
        } else {
            (SetupRunStage::Done, SetupAction::Complete)
        },
        (s, _) => (s, SetupAction::Nothing),
    }
}

/// A path separator: `/` or `\\`.
pub open spec fn is_path_sep(c: char) -> bool {
    c == '/' || c == '\\'
}

/// The part of `s` after its last path separator (all of `s` when there is
/// none).
pub open spec fn file_part(s: Seq<char>) -> Seq<char>
    decreases s.len(),
{
    if s.len() == 0 {
        s
    } else if is_path_sep(s.last()) {
        Seq::empty()
    } else {
        file_part(s.drop_last()).push(s.last())
    }
}

/// What comes after the last separator holds no separator.
pub proof fn lemma_file_part_plain(s: Seq<char>)
    ensures
        !file_part(s).contains('/'),
        !file_part(s).contains('\\'),
    decreases s.len(),
{
    if s.len() > 0 && !is_path_sep(s.last()) {
        lemma_file_part_plain(s.drop_last());
        let a = file_part(s.drop_last());
        assert forall|i: int| 0 <= i < a.push(s.last()).len() implies !is_path_sep(a.push(s.last())[i]) by {
            if i < a.len() {
                assert(a.push(s.last())[i] == a[i]);
                if is_path_sep(a[i]) {
                    assert(a.contains(a[i]));
                }
            }
        }
    }
}

/// The file an archive entry is unpacked to: the part of its name after
/// the last `/` or `\\`, when that names an executable or a library.
pub open spec fn extracted_name_spec(entry: Seq<char>) -> Option<Seq<char>> {
    let f = file_part(entry);
    if ends_with(f, ".exe"@) || ends_with(f, ".dll"@) {
        Some(f)
    } else {
        None
    }
}

/// The file name an archive entry is unpacked to, or `None` when the entry
/// is neither an executable nor a library.
pub fn extracted_file_name(entry_name: &str) -> (r: Option<String>)
    ensures
        opt_view(r) == extracted_name_spec(entry_name@),
{
    let v = chars_of(entry_name);
    let n = v.len();
    let mut k: usize = n;
    assert(v@.take(n as int) =~= v@);
    assert(v@.subrange(n as int, n as int) =~= Seq::<char>::empty());
    assert(file_part(v@) =~= file_part(v@.take(n as int)) + v@.subrange(n as int, n as int));
    while k > 0 && v[k - 1] != '/' && v[k - 1] != '\\'
        invariant
            k <= n,
            n == v@.len(),
            file_part(v@) == file_part(v@.take(k as int)) + v@.subrange(k as int, n as int),
        decreases k,
    {
        proof {
            assert(v@.take(k as int).drop_last() =~= v@.take(k - 1));
            assert(v@.take(k as int).last() == v@[k - 1]);
            assert(v@.subrange(k - 1, n as int) =~= seq![v@[k - 1]] + v@.subrange(k as int, n as int));
            assert(file_part(v@.take(k - 1)).push(v@[k - 1]) + v@.subrange(k as int, n as int)
                =~= file_part(v@.take(k - 1)) + v@.subrange(k - 1, n as int));
        }
        k = k - 1;
    }
    proof {
        if k > 0 {
            assert(v@.take(k as int).last() == v@[k - 1]);
        }
        assert(file_part(v@) =~= v@.subrange(k as int, n as int));
        assert(v@.take(n as int) =~= v@);
    }
    let f = sub_chars(v.as_slice(), k, n);
    if chars_end_with(f.as_slice(), ".exe") || chars_end_with(f.as_slice(), ".dll") {
        Some(string_from_chars(f.as_slice()))
    } else {
        None
    }
}

} // verus!
