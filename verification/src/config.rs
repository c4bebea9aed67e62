use vstd::prelude::*;
use vstd::string::*;
use crate::paths::{config_dir, dir_or_dot, join_path, joins, joins2, lemma_join_plain, lemma_long_name, or_dot, plain_base};
use crate::text::ends_with;

verus! {

/// Which build of the speech recogniser runs.
#[derive(Debug, Clone, Copy, PartialEq, Eq, Structural)]
pub enum AsrDevice {
    Cpu,
    Gpu,
}

/// How the raw transcript is cleaned up by the language model.
#[derive(Debug, Clone, Copy, PartialEq, Eq, Structural)]
pub enum CleanupMode {
    Off,
    Light,
    Rewrite,
}

/// Which device the clean-up model runs on.
#[derive(Debug, Clone, Copy, PartialEq, Eq, Structural)]
pub enum CleanupDevice {
    Gpu,
    Cpu,
}

/// The user's settings.
#[derive(Debug, Clone)]
pub struct Config {
    pub asr_model: String,
    pub asr_language: String,
    pub asr_device: AsrDevice,
    pub whisper_path: String,
    pub whisper_gpu_path: String,
    pub models_dir: String,
    pub cleanup_mode: CleanupMode,
    pub cleanup_device: CleanupDevice,
    pub cleanup_model: String,
    pub ollama_url: String,
    pub translate_to_english: bool,
    pub auto_paste: bool,
    pub max_recording_secs: u64,
}

impl Default for Config {
    fn default() -> (r: Self)
        ensures
            r.asr_model@ == "small.en"@,
            r.asr_language@ == "en"@,
            r.asr_device == AsrDevice::Cpu,
            r.whisper_path@ == Seq::<char>::empty(),
            r.whisper_gpu_path@ == Seq::<char>::empty(),
            r.models_dir@ == Seq::<char>::empty(),
            r.cleanup_mode == CleanupMode::Off,
            r.cleanup_device == CleanupDevice::Gpu,
            r.cleanup_model@ == "qwen2.5:3b"@,
            r.ollama_url@ == "http://localhost:11434"@,
            !r.translate_to_english,
            r.auto_paste,
            r.max_recording_secs == 120,
    {
        Config {
            asr_model: String::from_str("small.en"),
            asr_language: String::from_str("en"),
            asr_device: AsrDevice::Cpu,
            whisper_path: String::new(),
            whisper_gpu_path: String::new(),
            models_dir: String::new(),
            cleanup_mode: CleanupMode::Off,
            cleanup_device: CleanupDevice::Gpu,
            cleanup_model: String::from_str("qwen2.5:3b"),
            ollama_url: String::from_str("http://localhost:11434"),
            translate_to_english: false,
            auto_paste: true,
            max_recording_secs: 120,
        }
    }
}

impl Config {
    /// Where the settings are stored under a configuration directory:
    /// `unmute/config.json` under it, or under the working directory when there
    /// is none.
    pub fn config_path_in(base: Option<String>) -> (r: String)
        ensures
            plain_base(dir_or_dot(base)) ==> joins2(dir_or_dot(base), "unmute"@, "config.json"@, r@),
            ends_with(r@, "config.json"@),
    {
        proof {
            reveal_strlit("unmute");
            reveal_strlit("config.json");
            lemma_long_name("unmute"@);
            lemma_long_name("config.json"@);
        }
        let b = or_dot(base);
        let dir = join_path(b.as_str(), "unmute");
        let r = join_path(dir.as_str(), "config.json");
        proof {
            if plain_base(b@) {
                lemma_join_plain(b@, "unmute"@, dir@);
                assert(joins(b@, "unmute"@, dir@) && joins(dir@, "config.json"@, r@));
            }
        }
        r
    }

    /// Where the settings are stored: `config_path_in` of the user's
    /// configuration directory.
    pub fn config_path() -> (r: String)
        ensures
            ends_with(r@, "config.json"@),
    {
        Config::config_path_in(config_dir())
    }
}

} // verus!
