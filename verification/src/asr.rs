use vstd::prelude::*;
use vstd::string::*;
use crate::text::{
    chars_of, contains_char, find_pair, find_pair_from, first_line, first_line_trimmed, is_trimmed,
    lead_ws, lemma_find_pair, lemma_lead_bounds, lemma_trail_bounds, lemma_trim_is_trimmed, remove_range,
    trail_ws, trim, trim_string, trimmed_string,
};
use crate::paths::{data_dir, dir_or_empty, home_dir, join_path, joins, joins3, lemma_join_plain, or_empty, plain_base};

verus! {

/// `s` with every whisper special token `<|...|>` cut out, repeatedly taking
/// the first `<|` and the first `|>` at or after it; an unterminated `<|`
/// stops the process.
pub open spec fn strip_tokens(s: Seq<char>) -> Seq<char>
    decreases s.len(),
{
    match find_pair(s, '<', '|', 0) {
        None => s,
        Some(i) => match find_pair(s, '|', '>', i) {
            None => s,
            Some(j) => {
                proof {
                    lemma_find_pair(s, '<', '|', 0);
                    lemma_find_pair(s, '|', '>', i);
                }
                strip_tokens(s.subrange(0, i) + s.subrange(j + 2, s.len() as int))
            },
        },
    }
}

/// `s` holds a whole special token: a `<|` with a `|>` at or after it.
pub open spec fn has_token(s: Seq<char>) -> bool {
    match find_pair(s, '<', '|', 0) {
        Some(i) => find_pair(s, '|', '>', i) is Some,
        None => false,
    }
}

/// No whole special token survives stripping, so stripping twice strips
/// nothing more.
pub proof fn law_strip_leaves_no_token(s: Seq<char>)
    ensures
        !has_token(strip_tokens(s)),
        strip_tokens(strip_tokens(s)) == strip_tokens(s),
    decreases s.len(),
{
    match find_pair(s, '<', '|', 0) {
        None => {},
        Some(i) => match find_pair(s, '|', '>', i) {
            None => {},
            Some(j) => {
                lemma_find_pair(s, '<', '|', 0);
                lemma_find_pair(s, '|', '>', i);
                law_strip_leaves_no_token(s.subrange(0, i) + s.subrange(j + 2, s.len() as int));
            },
        },
    }
}

/// A piece of a text without a whole special token has none either.
pub proof fn lemma_no_token_in_piece(t: Seq<char>, a: int, b: int)
    requires
        0 <= a <= b <= t.len(),
        !has_token(t),
    ensures
        !has_token(t.subrange(a, b)),
{
    let u = t.subrange(a, b);
    lemma_find_pair(t, '<', '|', 0);
    lemma_find_pair(u, '<', '|', 0);
    if let Some(p) = find_pair(u, '<', '|', 0) {
        assert(t[a + p] == '<' && t[a + p + 1] == '|');
        let i = find_pair(t, '<', '|', 0)->0;
        assert(i <= a + p) by {
            if a + p < i {
                assert(u[p + 1] == t[a + p + 1]);
            }
        }
        lemma_find_pair(u, '|', '>', p);
        lemma_find_pair(t, '|', '>', i);
        if let Some(q) = find_pair(u, '|', '>', p) {
            assert(u[q + 1] == t[a + q + 1]);
            assert(t[a + q] == '|' && t[a + q + 1] == '>');
        }
    }
}

/// Removes whisper special tokens such as `<|endoftext|>` and trims the rest.
pub fn strip_special_tokens(text: &str) -> (r: String)
    ensures
        r@ == trim(strip_tokens(text@)),
        is_trimmed(r@),
        !has_token(r@),
{
    proof {
        let t = strip_tokens(text@);
        law_strip_leaves_no_token(text@);
        lemma_trim_is_trimmed(t);
        if lead_ws(t) < t.len() {
            lemma_lead_bounds(t);
            lemma_trail_bounds(t);
            lemma_no_token_in_piece(t, lead_ws(t) as int, t.len() - trail_ws(t));
        }
    }

    let mut v = chars_of(text);
    loop
        invariant
            strip_tokens(v@) == strip_tokens(text@),
        ensures
            strip_tokens(v@) == v@,
            strip_tokens(v@) == strip_tokens(text@),
        decreases v@.len(),
    {
        match find_pair_from(v.as_slice(), '<', '|', 0) {
            None => break,
            Some(i) => match find_pair_from(v.as_slice(), '|', '>', i) {
                None => break,
                Some(j) => {
                    proof {
                        lemma_find_pair(v@, '<', '|', 0);
                        lemma_find_pair(v@, '|', '>', i as int);
                    }
                    v = remove_range(v.as_slice(), i, j + 2);
                },
            },
        }
    }
    trimmed_string(v.as_slice())
}


/// A finished transcription.
#[derive(Debug, Clone)]
pub struct Transcript {
    pub text: String,
    pub language: Option<String>,
    pub duration_ms: u64,
    pub device_used: String,
}

/// How to run the speech recogniser: the binary, an optional fallback
/// binary tried when the first fails, the model, the spoken language, and
/// whether to translate to English.
#[derive(Debug, Clone)]
pub struct WhisperEngine {
    pub binary_path: String,
    pub fallback_binary_path: Option<String>,
    pub model_path: String,
    pub language: String,
    pub translate: bool,
}

pub open spec fn opt_view(o: Option<String>) -> Option<Seq<char>> {
    match o {
        Some(s) => Some(s@),
        None => None,
    }
}

pub open spec fn opt_str_view(o: Option<&str>) -> Option<Seq<char>> {
    match o {
        Some(s) => Some(s@),
        None => None,
    }
}

/// `t` holds the given text, language, duration and device label.
pub open spec fn transcript_is(
    t: Transcript,
    text: Seq<char>,
    language: Seq<char>,
    duration_ms: u64,
    device: Seq<char>,
) -> bool {
    &&& t.text@ == text
    &&& opt_view(t.language) == Some(language)
    &&& t.duration_ms == duration_ms
    &&& t.device_used@ == device
}

/// Where the recogniser stands while transcribing.
#[derive(Debug, Clone)]
pub enum AsrPhase {
    /// The configured binary is running.
    Primary,
    /// The fallback binary is running after the configured one failed.
    Fallback { primary_error: String },
}

/// The next step of a transcription.
#[derive(Debug)]
pub enum AsrStep {
    /// Run the recogniser binary and report its outcome to `whisper_finished`.
    RunWhisper { binary: String, phase: AsrPhase },
    /// The transcription is over.
    Done(Result<Transcript, String>),
}

/// The arguments given to the recogniser for one audio file.
pub open spec fn whisper_args_spec(model: Seq<char>, audio: Seq<char>, language: Seq<char>, translate: bool) -> Seq<Seq<char>> {
    let base = seq![
        "-m"@,
        model,
        "-f"@,
        audio,
        "--no-timestamps"@,
        "-l"@,
        language,
        "--no-prints"@,
    ];
    if translate {
        base.push("--translate"@)
    } else {
        base
    }
}

/// The recogniser is always told the configured language right after `-l`,
/// and translation only adds `--translate` at the end of the arguments.
pub proof fn law_language_always_passed(model: Seq<char>, audio: Seq<char>, language: Seq<char>, translate: bool)
    ensures
        whisper_args_spec(model, audio, language, translate)[5] == "-l"@,
        whisper_args_spec(model, audio, language, translate)[6] == language,
        whisper_args_spec(model, audio, language, true) == whisper_args_spec(model, audio, language, false).push(
            "--translate"@,
        ),
        whisper_args_spec(model, audio, language, false).len() == 8,
        !whisper_args_spec(model, audio, language, false).contains("--translate"@) || model == "--translate"@
            || audio == "--translate"@ || language == "--translate"@,
{
    let a = whisper_args_spec(model, audio, language, false);
    if a.contains("--translate"@) {
        let i = choose|i: int| 0 <= i < a.len() && a[i] == "--translate"@;
        reveal_strlit("--translate");
        reveal_strlit("-m");
        reveal_strlit("-f");
        reveal_strlit("-l");
        reveal_strlit("--no-timestamps");
        reveal_strlit("--no-prints");
        assert("--translate"@.len() != "-m"@.len());
        assert("--translate"@.len() != "-f"@.len());
        assert("--translate"@.len() != "-l"@.len());
        assert("--translate"@[2] != "--no-timestamps"@[2]);
        assert("--translate"@[2] != "--no-prints"@[2]);
    }
}

pub open spec fn views(v: Seq<String>) -> Seq<Seq<char>> {
    v.map_values(|s: String| s@)
}

pub open spec fn both_failed_message(gpu: Seq<char>, cpu: Seq<char>) -> Seq<char> {
    "ASR failed on both GPU and CPU.\nGPU: "@ + gpu + "\nCPU: "@ + cpu
}

impl WhisperEngine {
    /// Builds an engine from its settings.
    pub fn new(
        binary_path: &str,
        model_path: &str,
        language: &str,
        fallback_binary_path: Option<&str>,
        translate: bool,
    ) -> (r: Self)
        ensures
            r.binary_path@ == binary_path@,
            r.model_path@ == model_path@,
            r.language@ == language@,
            opt_view(r.fallback_binary_path) == opt_str_view(fallback_binary_path),
            r.translate == translate,
    {
        WhisperEngine {
            binary_path: String::from_str(binary_path),
            fallback_binary_path: match fallback_binary_path {
                Some(f) => Some(String::from_str(f)),
                None => None,
            },
            model_path: String::from_str(model_path),
            language: String::from_str(language),
            translate,
        }
    }

    /// The command-line arguments for transcribing `audio_path`.
    pub fn whisper_args(&self, audio_path: &str) -> (r: Vec<String>)
        ensures
            views(r@) == whisper_args_spec(self.model_path@, audio_path@, self.language@, self.translate),
    {
        let mut r: Vec<String> = Vec::new();
        r.push(String::from_str("-m"));
        r.push(self.model_path.clone());
        r.push(String::from_str("-f"));
        r.push(String::from_str(audio_path));
        r.push(String::from_str("--no-timestamps"));
        r.push(String::from_str("-l"));
        r.push(self.language.clone());
        r.push(String::from_str("--no-prints"));
        if self.translate {
            r.push(String::from_str("--translate"));
        }
        assert(views(r@) == whisper_args_spec(self.model_path@, audio_path@, self.language@, self.translate));
        r
    }

    /// Starts a transcription: it fails at once when the model file is
    /// missing, and otherwise runs the configured binary.
    pub fn transcribe(&self, model_exists: bool) -> (r: AsrStep)
        ensures
            !model_exists ==> (r matches AsrStep::Done(Err(e)) && e@ == "Whisper model not found: "@
                + self.model_path@),
            model_exists ==> (r matches AsrStep::RunWhisper { binary, phase: AsrPhase::Primary }
                && binary@ == self.binary_path@),
    {
        if !model_exists {
            return AsrStep::Done(
                Err(String::from_str("Whisper model not found: ").concat(self.model_path.as_str())),
            );
        }
        AsrStep::RunWhisper { binary: self.binary_path.clone(), phase: AsrPhase::Primary }
    }

    /// Takes the outcome of one recogniser run (text and duration, or an
    /// error message). A success finishes with a transcript labelled with
    /// `device_label`, or `CPU*` when it came from the fallback; a failure of
    /// the configured binary runs the fallback when there is one; a failure of
    /// the fallback reports both errors.
    pub fn whisper_finished(
        &self,
        phase: AsrPhase,
        device_label: &str,
        outcome: Result<(String, u64), String>,
    ) -> (r: AsrStep)
        ensures
            match (phase, outcome) {
                (AsrPhase::Primary, Ok((text, ms))) => r matches AsrStep::Done(Ok(t)) && transcript_is(
                    t,
                    text@,
                    self.language@,
                    ms,
                    device_label@,
                ),
                (AsrPhase::Fallback { .. }, Ok((text, ms))) => r matches AsrStep::Done(Ok(t))
                    && transcript_is(t, text@, self.language@, ms, "CPU*"@),
                (AsrPhase::Primary, Err(e)) => match self.fallback_binary_path {
                    Some(f) => r matches AsrStep::RunWhisper {
                        binary,
                        phase: AsrPhase::Fallback { primary_error },
                    } && binary@ == f@ && primary_error@ == e@,
                    None => r matches AsrStep::Done(Err(m)) && m@ == e@,
                },
                (AsrPhase::Fallback { primary_error }, Err(e)) => r matches AsrStep::Done(Err(m))
                    && m@ == both_failed_message(primary_error@, e@),
            },
    {
        match outcome {
            Ok((text, ms)) => {
                let device = match phase {
                    AsrPhase::Primary => String::from_str(device_label),
                    AsrPhase::Fallback { .. } => String::from_str("CPU*"),
                };
                AsrStep::Done(
                    Ok(
                        Transcript {
                            text,
                            language: Some(self.language.clone()),
                            duration_ms: ms,
                            device_used: device,
                        },
                    ),
                )
            },
            Err(e) => match phase {
                AsrPhase::Primary => match &self.fallback_binary_path {
                    Some(f) => AsrStep::RunWhisper {
                        binary: f.clone(),
                        phase: AsrPhase::Fallback { primary_error: e },
                    },
                    None => AsrStep::Done(Err(e)),
                },
                AsrPhase::Fallback { primary_error } => {
                    let m = String::from_str("ASR failed on both GPU and CPU.\nGPU: ").concat(
                        primary_error.as_str(),
                    ).concat("\nCPU: ").concat(e.as_str());
                    AsrStep::Done(Err(m))
                },
            },
        }
    }
}

/// A binary path is refused before running when it names a file (it holds
/// a backslash) that does not exist, or whenever it holds a forward slash.
pub open spec fn binary_refused(path: Seq<char>, exists: bool) -> bool {
    (!exists && path.contains('\\')) || path.contains('/')
}

/// Whether the recogniser binary may be run: a refused path gives the
/// error that names it.
pub fn check_binary(binary_path: &str, exists: bool) -> (r: Result<(), String>)
    ensures
        r is Err <==> binary_refused(binary_path@, exists),
        r matches Err(e) ==> e@ == "Whisper binary not found: "@ + binary_path@,
{
    if (!exists && contains_char(binary_path, '\\')) || contains_char(binary_path, '/') {
        Err(String::from_str("Whisper binary not found: ").concat(binary_path))
    } else {
        Ok(())
    }
}

/// The outcome of a recogniser run that could not be started.
pub fn launch_failed(error: &str) -> (r: String)
    ensures
        r@ == "Failed to run whisper: "@ + error@,
{
    String::from_str("Failed to run whisper: ").concat(error)
}

/// The outcome of one recogniser run from its exit status and output:
/// on success the text is the trimmed output with special tokens removed;
/// otherwise the error holds the error output.
pub fn finish_run(success: bool, stdout: &str, stderr: &str, duration_ms: u64) -> (r: Result<
    (String, u64),
    String,
>)
    ensures
        success ==> (r matches Ok((t, ms)) && t@ == trim(strip_tokens(trim(stdout@))) && ms
            == duration_ms),
        !success ==> (r matches Err(e) && e@ == "Whisper failed: "@ + stderr@),
{
    if !success {
        return Err(String::from_str("Whisper failed: ").concat(stderr));
    }
    let raw = trim_string(stdout);
    let text = strip_special_tokens(raw.as_str());
    Ok((text, duration_ms))
}

/// Names looked up on the search path when no binary is configured.
pub open spec fn binary_name(i: int) -> Seq<char> {
    if i == 0 {
        "whisper-cli"@
    } else if i == 1 {
        "whisper-cpp"@
    } else {
        "main"@
    }
}

fn binary_name_at(i: usize) -> (r: String)
    requires
        i < 3,
    ensures
        r@ == binary_name(i as int),
{
    if i == 0 {
        String::from_str("whisper-cli")
    } else if i == 1 {
        String::from_str("whisper-cpp")
    } else {
        String::from_str("main")
    }
}

/// The next step of finding the recogniser binary.
#[derive(Debug, Clone)]
pub enum BinaryLookup {
    /// The binary to use.
    Found(String),
    /// Look `name` up on the search path (`where name`) and report the
    /// outcome to `binary_search_result` with the same index.
    Search { index: usize, name: String },
    /// No binary was found.
    NotFound(String),
}

pub open spec fn binary_not_found_message() -> Seq<char> {
    "whisper-cli not found. Install whisper.cpp and add to PATH, or set whisper_path in config."@
}

impl WhisperEngine {
    /// Starts looking for the recogniser: a configured path that exists is
    /// used as it is; otherwise the search path is asked for the first name.
    pub fn resolve_binary(configured_path: &str, configured_exists: bool) -> (r: BinaryLookup)
        ensures
            configured_path@.len() > 0 && configured_exists ==> (r matches BinaryLookup::Found(p)
                && p@ == configured_path@),
            !(configured_path@.len() > 0 && configured_exists) ==> (r matches BinaryLookup::Search {
                index,
                name,
            } && index == 0 && name@ == binary_name(0)),
    {
        if !configured_path.is_empty() && configured_exists {
            BinaryLookup::Found(String::from_str(configured_path))
        } else {
            BinaryLookup::Search { index: 0, name: binary_name_at(0) }
        }
    }

    /// Takes the outcome of one search-path lookup: a successful lookup whose
    /// first output line is not blank gives that line, trimmed; otherwise the
    /// next name is tried, and after the last one the binary is not found.
    pub fn binary_search_result(index: usize, success: bool, stdout: &str) -> (r: BinaryLookup)
        requires
            index < 3,
        ensures
            ({
                let line = trim(
                    match first_line(stdout@) {
                        Some(l) => l,
                        None => Seq::<char>::empty(),
                    },
                );
                if success && line.len() > 0 {
                    r matches BinaryLookup::Found(p) && p@ == line
                } else if index + 1 < 3 {
                    r matches BinaryLookup::Search { index: i, name } && i == index + 1 && name@
                        == binary_name(index + 1)
                } else {
                    r matches BinaryLookup::NotFound(m) && m@ == binary_not_found_message()
                }
            }),
    {
        if success {
            let line = first_line_trimmed(stdout);
            if !line.as_str().is_empty() {
                return BinaryLookup::Found(line);
            }
        }
        if index + 1 < 3 {
            BinaryLookup::Search { index: index + 1, name: binary_name_at(index + 1) }
        } else {
            BinaryLookup::NotFound(
                String::from_str(
                    "whisper-cli not found. Install whisper.cpp and add to PATH, or set whisper_path in config.",
                ),
            )
        }
    }
}


/// The model file name: `ggml-NAME.bin`.
pub open spec fn model_file_spec(model_name: Seq<char>) -> Seq<char> {
    "ggml-"@ + model_name + ".bin"@
}

/// The file name under which a model is stored.
pub fn model_file_name(model_name: &str) -> (r: String)
    ensures
        r@ == model_file_spec(model_name@),
{
    String::from_str("ggml-").concat(model_name).concat(".bin")
}

pub proof fn lemma_model_file_relative(model_name: Seq<char>)
    ensures
        crate::paths::is_relative_part(model_file_spec(model_name)),
{
    reveal_strlit("ggml-");
    assert(model_file_spec(model_name)[0] == 'g');
    assert(model_file_spec(model_name)[1] == 'g');
}

/// Where a model is looked for, given the user's data and home
/// directories, in order: in the configured models directory when one is
/// set, then under `unmute/models` in the data directory, then under
/// `.unmute/models` in the home directory.
pub fn model_candidates_in(models_dir: &str, model_name: &str, data: Option<String>, home: Option<String>) -> (r: Vec<String>)
    ensures
        ({
            let f = model_file_spec(model_name@);
            let k: int = if models_dir@.len() > 0 { 1 } else { 0 };
            &&& r@.len() == k + 2
            &&& models_dir@.len() > 0 && plain_base(models_dir@) ==> joins(models_dir@, f, r@[0]@)
            &&& plain_base(dir_or_empty(data)) ==> joins3(dir_or_empty(data), "unmute"@, "models"@, f, r@[k]@)
            &&& plain_base(dir_or_empty(home)) ==> joins3(dir_or_empty(home), ".unmute"@, "models"@, f, r@[k + 1]@)
        }),
{
    let file = model_file_name(model_name);
    proof {
        lemma_model_file_relative(model_name@);
        reveal_strlit("unmute");
        reveal_strlit(".unmute");
        reveal_strlit("models");
    }
    let mut r: Vec<String> = Vec::new();
    if !models_dir.is_empty() {
        r.push(join_path(models_dir, file.as_str()));
    }
    let data = or_empty(data);
    let home = or_empty(home);
    let a1 = join_path(data.as_str(), "unmute");
    let b1 = join_path(a1.as_str(), "models");
    let p1 = join_path(b1.as_str(), file.as_str());
    let a2 = join_path(home.as_str(), ".unmute");
    let b2 = join_path(a2.as_str(), "models");
    let p2 = join_path(b2.as_str(), file.as_str());
    proof {
        if plain_base(data@) {
            lemma_join_plain(data@, "unmute"@, a1@);
            lemma_join_plain(a1@, "models"@, b1@);
        }
        if plain_base(home@) {
            lemma_join_plain(home@, ".unmute"@, a2@);
            lemma_join_plain(a2@, "models"@, b2@);
        }
    }
    r.push(p1);
    r.push(p2);
    r
}

/// Where a model is looked for, in order: `model_candidates_in` of the
/// user's data and home directories.
pub fn model_candidates(models_dir: &str, model_name: &str) -> (r: Vec<String>)
    ensures
        ({
            let f = model_file_spec(model_name@);
            let k: int = if models_dir@.len() > 0 { 1 } else { 0 };
            &&& r@.len() == k + 2
            &&& models_dir@.len() > 0 && plain_base(models_dir@) ==> joins(models_dir@, f, r@[0]@)
        }),
{
    model_candidates_in(models_dir, model_name, data_dir(), home_dir())
}

/// Index of the first `true`.
pub open spec fn first_true(s: Seq<bool>) -> Option<int>
    decreases s.len(),
{
    if s.len() == 0 {
        None
    } else if s.last() {
        match first_true(s.drop_last()) {
            Some(i) => Some(i),
            None => Some(s.len() - 1),
        }
    } else {
        first_true(s.drop_last())
    }
}

pub open spec fn model_not_found_message(model_name: Seq<char>) -> Seq<char> {
    "Model '"@ + model_name + "' not found. Download it and place in models directory.\nExpected file: "@
        + model_file_spec(model_name) + "\nDownload from: https://huggingface.co/ggerganov/whisper.cpp/tree/main"@
}

impl WhisperEngine {
    /// Picks the first candidate path that exists; when none does, the error
    /// says which file was expected and where to get it.
    pub fn resolve_model(candidates: &Vec<String>, exists: &Vec<bool>, model_name: &str) -> (r: Result<String, String>)
        requires
            candidates@.len() == exists@.len(),
        ensures
            match first_true(exists@) {
                Some(i) => r matches Ok(p) && p@ == candidates@[i]@,
                None => r matches Err(e) && e@ == model_not_found_message(model_name@),
            },
    {
        let n = exists.len();
        let mut k: usize = 0;
        while k < n
            invariant
                k <= n,
                n == exists@.len(),
                n == candidates@.len(),
                first_true(exists@.take(k as int)) is None,
            decreases n - k,
        {
            assert(exists@.take(k + 1).drop_last() =~= exists@.take(k as int));
            if exists[k] {
                proof {
                    lemma_first_true_prefix(exists@, k as int);
                }
                return Ok(candidates[k].clone());
            }
            k = k + 1;
        }
        assert(exists@.take(n as int) =~= exists@);
        let file = model_file_name(model_name);
        Err(
            String::from_str("Model '").concat(model_name).concat(
                "' not found. Download it and place in models directory.\nExpected file: ",
            ).concat(file.as_str()).concat(
                "\nDownload from: https://huggingface.co/ggerganov/whisper.cpp/tree/main",
            ),
        )
    }
}

proof fn lemma_first_true_prefix(s: Seq<bool>, k: int)
    requires
        0 <= k < s.len(),
        s[k],
        first_true(s.take(k)) is None,
    ensures
        first_true(s) == Some(k),
    decreases s.len(),
{
    if k < s.len() - 1 {
        assert(s.drop_last().take(k) =~= s.take(k));
        lemma_first_true_prefix(s.drop_last(), k);
    } else {
        assert(s.drop_last() =~= s.take(k));
    }
}

} // verus!
