use vstd::prelude::*;
use vstd::string::*;
use crate::cleanup::{tags_url, tags_url_spec};
use crate::config::{CleanupMode, Config};

verus! {

/// How long to wait after starting the clean-up server, in milliseconds.
pub const OLLAMA_START_WAIT_MS: u64 = 3000;

/// Where starting the clean-up server stands.
#[derive(Debug, Clone, Copy, PartialEq, Eq, Structural)]
pub enum OllamaStage {
    /// Nothing has happened yet.
    Idle,
    /// The server's model list endpoint is being probed.
    Probing,
    /// Install location `index` is being looked at.
    TryPath { index: usize },
    /// The server is being started from install location `index`.
    Spawning { index: usize },
    /// Nothing more to do.
    Done,
}

/// The outcome of the last action, reported back to `ensure_ollama_step`.
#[derive(Debug)]
pub enum OllamaEvent {
    /// Starting up.
    Start,
    /// Whether the server answered the probe.
    Reachable(bool),
    /// Whether the install location exists.
    PathExists(bool),
    /// Whether `ollama serve` could be started from it.
    Spawned(Result<(), String>),
}

/// What to do next.
#[derive(Debug, Clone)]
pub enum OllamaAction {
    /// Nothing.
    Nothing,
    /// Ask the server's model list endpoint at this address.
    Probe(String),
    /// See whether this install location exists.
    CheckPath(String),
    /// Start `serve` from this executable, with no standard input or output.
    Spawn(String),
    /// Wait this many milliseconds for the started server; then done.
    WaitThenDone(u64),
    /// No install location worked: give up.
    GiveUp,
}

/// Looking at install location `j` next, or giving up after the last one.
pub open spec fn is_next_path(r: (OllamaStage, OllamaAction), paths: Seq<String>, j: int) -> bool {
    if j < paths.len() {
        &&& r.0 matches OllamaStage::TryPath { index } && index == j
        &&& r.1 matches OllamaAction::CheckPath(p) && p@ == paths[j]@
    } else {
        &&& r.0 == OllamaStage::Done
        &&& r.1 is GiveUp
    }
}

/// One step of starting the clean-up server: nothing when clean-up is off;
/// otherwise probe it, and when it does not answer try the install
/// locations in order, starting it from the first one that exists and
/// moving on when starting fails; once started, wait for it. An event that
/// does not belong to the stage changes nothing.
pub open spec fn is_ollama_step(
    config: Config,
    paths: Seq<String>,
    stage: OllamaStage,
    event: OllamaEvent,
    r: (OllamaStage, OllamaAction),
) -> bool {
    match (stage, event) {
        (OllamaStage::Idle, OllamaEvent::Start) => if config.cleanup_mode == CleanupMode::Off {
            r.0 == OllamaStage::Done && r.1 is Nothing
        } else {
            &&& r.0 == OllamaStage::Probing
            &&& r.1 matches OllamaAction::Probe(u) && u@ == tags_url_spec(config.ollama_url@)
        },
        (OllamaStage::Probing, OllamaEvent::Reachable(true)) => r.0 == OllamaStage::Done && r.1 is Nothing,
        (OllamaStage::Probing, OllamaEvent::Reachable(false)) => is_next_path(r, paths, 0),
        (OllamaStage::TryPath { index }, OllamaEvent::PathExists(true)) => if index < paths.len() {
            &&& r.0 == OllamaStage::Spawning { index }
            &&& r.1 matches OllamaAction::Spawn(p) && p@ == paths[index as int]@
        } else {
            r.0 == OllamaStage::Done && r.1 is GiveUp
        },
        (OllamaStage::TryPath { index }, OllamaEvent::PathExists(false)) => is_next_path(r, paths, index + 1),
        (OllamaStage::Spawning { index }, OllamaEvent::Spawned(Err(_))) => is_next_path(r, paths, index + 1),
        (OllamaStage::Spawning { .. }, OllamaEvent::Spawned(Ok(_))) => {
            &&& r.0 == OllamaStage::Done
            &&& r.1 matches OllamaAction::WaitThenDone(ms) && ms == OLLAMA_START_WAIT_MS
        },
        (s, _) => r.0 == s && r.1 is Nothing,
    }
}

fn next_path(paths: &Vec<String>, j: usize) -> (r: (OllamaStage, OllamaAction))
    ensures
        is_next_path(r, paths@, j as int),
{
    if j < paths.len() {
        (OllamaStage::TryPath { index: j }, OllamaAction::CheckPath(paths[j].clone()))
    } else {
        (OllamaStage::Done, OllamaAction::GiveUp)
    }
}

/// One step of making sure the clean-up server runs, given the install
/// locations to try.
pub fn ensure_ollama_step(config: &Config, paths: &Vec<String>, stage: OllamaStage, event: OllamaEvent) -> (r: (
    OllamaStage,
    OllamaAction,
))
    ensures
        is_ollama_step(*config, paths@, stage, event, r),
{
    assert(paths@.len() == paths.len());
    match (stage, event) {
        (OllamaStage::Idle, OllamaEvent::Start) => match config.cleanup_mode {
            CleanupMode::Off => (OllamaStage::Done, OllamaAction::Nothing),
            _ => (OllamaStage::Probing, OllamaAction::Probe(tags_url(config.ollama_url.as_str()))),
        },
        (OllamaStage::Probing, OllamaEvent::Reachable(reachable)) => if reachable {
            (OllamaStage::Done, OllamaAction::Nothing)
        } else {
            next_path(paths, 0)
        },
        (OllamaStage::TryPath { index }, OllamaEvent::PathExists(exists)) => if exists {
            if index < paths.len() {
                (OllamaStage::Spawning { index }, OllamaAction::Spawn(paths[index].clone()))
            } else {
                (OllamaStage::Done, OllamaAction::GiveUp)
            }
        } else if index < usize::MAX {
            next_path(paths, index + 1)
        } else {
            (OllamaStage::Done, OllamaAction::GiveUp)
        },
        (OllamaStage::Spawning { index }, OllamaEvent::Spawned(spawned)) => match spawned {
            Ok(_) => (OllamaStage::Done, OllamaAction::WaitThenDone(OLLAMA_START_WAIT_MS)),
            Err(_) => if index < usize::MAX {
                next_path(paths, index + 1)
            } else {
                (OllamaStage::Done, OllamaAction::GiveUp)
            },
        },
        (s, _) => (s, OllamaAction::Nothing),
    }
}

/// A run of steps from `Idle`: `stages[k + 1]` and `actions[k]` are what
/// step `k` gave for event `k`.
pub open spec fn is_ollama_run(
    config: Config,
    paths: Seq<String>,
    stages: Seq<OllamaStage>,
    events: Seq<OllamaEvent>,
    actions: Seq<OllamaAction>,
) -> bool {
    &&& stages.len() == events.len() + 1
    &&& actions.len() == events.len()
    &&& stages[0] == OllamaStage::Idle
    &&& forall|k: int|
        0 <= k < events.len() ==> #[trigger] is_ollama_step(config, paths, stages[k], events[k], (stages[k + 1], actions[k]))
}

/// Some earlier probe found the server silent.
pub open spec fn silent_before(stages: Seq<OllamaStage>, events: Seq<OllamaEvent>, k: int) -> bool {
    exists|j: int| 0 <= j < k && stages[j] == OllamaStage::Probing && #[trigger] events[j] == OllamaEvent::Reachable(false)
}

proof fn lemma_tries_follow_silence(
    config: Config,
    paths: Seq<String>,
    stages: Seq<OllamaStage>,
    events: Seq<OllamaEvent>,
    actions: Seq<OllamaAction>,
    k: int,
)
    requires
        is_ollama_run(config, paths, stages, events, actions),
        0 <= k <= events.len(),
    ensures
        (stages[k] is TryPath || stages[k] is Spawning) ==> silent_before(stages, events, k),
        config.cleanup_mode == CleanupMode::Off ==> (stages[k] is Idle || stages[k] is Done),
    decreases k,
{
    if k > 0 {
        lemma_tries_follow_silence(config, paths, stages, events, actions, k - 1);
        let j = k - 1;
        assert(is_ollama_step(config, paths, stages[j], events[j], (stages[j + 1], actions[j])));
        if (stages[k] is TryPath || stages[k] is Spawning) && !(stages[j] is TryPath || stages[j] is Spawning) {
            assert(stages[j] == OllamaStage::Probing);
            assert(events[j] == OllamaEvent::Reachable(false));
        }
        if silent_before(stages, events, j) {
            let w = choose|w: int| 0 <= w < j && stages[w] == OllamaStage::Probing && #[trigger] events[w] == OllamaEvent::Reachable(false);
            assert(events[w] == OllamaEvent::Reachable(false));
        }
    }
}

/// `s` is still the start from location `i`, finished, or at a later
/// location.
pub open spec fn at_or_after(s: OllamaStage, i: usize) -> bool {
    match s {
        OllamaStage::Spawning { index } => index >= i,
        OllamaStage::TryPath { index } => index > i,
        OllamaStage::Done => true,
        _ => false,
    }
}

/// Two starts in one run, at steps `k1 < k2`, are from locations in
/// increasing order.
pub open spec fn later_start_later_location(stages: Seq<OllamaStage>, k1: int, k2: int) -> bool {
    match (stages[k1 + 1], stages[k2 + 1]) {
        (OllamaStage::Spawning { index: i1 }, OllamaStage::Spawning { index: i2 }) => i1 < i2,
        _ => false,
    }
}

/// Once the server is being started from location `i`, every later stage is
/// still that start, finished, or at a later location.
proof fn lemma_later_locations(
    config: Config,
    paths: Seq<String>,
    stages: Seq<OllamaStage>,
    events: Seq<OllamaEvent>,
    actions: Seq<OllamaAction>,
    k1: int,
    i: usize,
    m: int,
)
    requires
        is_ollama_run(config, paths, stages, events, actions),
        0 <= k1 < m <= events.len(),
        stages[k1 + 1] == (OllamaStage::Spawning { index: i }),
    ensures
        at_or_after(stages[m], i),
    decreases m,
{
    if m > k1 + 1 {
        lemma_later_locations(config, paths, stages, events, actions, k1, i, m - 1);
        let j = m - 1;
        assert(is_ollama_step(config, paths, stages[j], events[j], (stages[j + 1], actions[j])));
    }
}

/// In one run the server is started only after a probe found it silent,
/// each install location is tried at most once and in order, a started
/// server ends the run, and nothing is probed or started when clean-up is
/// off.
pub proof fn law_ollama_started_once(
    config: Config,
    paths: Seq<String>,
    stages: Seq<OllamaStage>,
    events: Seq<OllamaEvent>,
    actions: Seq<OllamaAction>,
    k1: int,
    k2: int,
)
    requires
        is_ollama_run(config, paths, stages, events, actions),
        0 <= k1 < events.len(),
        (actions[k1] is Spawn),
    ensures
        silent_before(stages, events, k1),
        config.cleanup_mode != CleanupMode::Off,
        k1 < k2 < events.len() && (actions[k2] is Spawn) ==> later_start_later_location(stages, k1, k2),
        (events[k1] is PathExists),
{
    assert(is_ollama_step(config, paths, stages[k1], events[k1], (stages[k1 + 1], actions[k1])));
    lemma_tries_follow_silence(config, paths, stages, events, actions, k1);
    if k1 < k2 < events.len() && actions[k2] is Spawn {
        assert(is_ollama_step(config, paths, stages[k2], events[k2], (stages[k2 + 1], actions[k2])));
        if let OllamaStage::Spawning { index: i1 } = stages[k1 + 1] {
            lemma_later_locations(config, paths, stages, events, actions, k1, i1, k2);
        }
    }
}

} // verus!
