//! The training pipeline: command-line settings, checkpoint and data paths,
//! which generations of self-play data are mixed, whether a version is
//! skipped, and the sequence of steps of a training run.
use vstd::prelude::*;
use vstd::string::*;
use crate::model::{DeviceKind, ModelType, StoreType};
use crate::sync::{decimal, decimal_string};

verus! {

/// Settings of `train`.
pub struct TrainArgs {
    pub games: u32,
    pub iterations: u32,
    pub runs: u32,
    pub start_version: usize,
    pub epochs: usize,
    pub batch_size: usize,
    pub no_skip: bool,
    pub store_type: StoreType,
    pub force_save: bool,
    pub model_type: ModelType,
    pub reuse_data: bool,
    pub no_eval: bool,
    pub infer_size: usize,
    pub infer_device: DeviceKind,
}

/// Settings of `evaluate`.
pub struct EvaluateArgs {
    pub candidate: String,
    pub baseline: String,
    pub games: u32,
    pub iterations: u32,
    pub infer_size: usize,
    pub infer_device: DeviceKind,
}

/// Settings of `convert`.
pub struct ConvertArgs {
    pub input: String,
    pub output: String,
}

/// Settings of `play`.
pub struct PlayArgs {
    pub model: String,
    pub output: String,
    pub games: u32,
    pub iterations: u32,
    pub model_type: ModelType,
    pub infer_size: usize,
    pub infer_device: DeviceKind,
    pub train_device: DeviceKind,
}

/// What an evaluation match needs.
pub struct EvaluationConfig {
    pub candidate: String,
    pub baseline: String,
    pub games: usize,
    pub iterations: usize,
    pub batch_size: usize,
}

impl EvaluationConfig {
    /// The match described by the command line; the inference batch size
    /// becomes the batch size.
    pub fn from(args: EvaluateArgs) -> (c: EvaluationConfig)
        ensures
            c.candidate@ == args.candidate@,
            c.baseline@ == args.baseline@,
            c.games == args.games,
            c.iterations == args.iterations,
            c.batch_size == args.infer_size,
    {
        EvaluationConfig {
            candidate: args.candidate,
            baseline: args.baseline,
            games: args.games as usize,
            iterations: args.iterations as usize,
            batch_size: args.infer_size,
        }
    }
}

/// What a training run needs.
pub struct TrainingConfig {
    pub games: usize,
    pub iterations: usize,
    pub runs: usize,
    pub start_version: usize,
    pub epochs: usize,
    pub batch_size: usize,
    pub no_skip: bool,
    pub store_type: StoreType,
    pub force_save: bool,
    pub model_type: ModelType,
    pub reuse_data: bool,
    pub no_eval: bool,
    pub infer_size: usize,
}

impl TrainingConfig {
    /// The run described by the command line.
    pub fn from(args: TrainArgs) -> (c: TrainingConfig)
        ensures
            c.games == args.games,
            c.iterations == args.iterations,
            c.runs == args.runs,
            c.start_version == args.start_version,
            c.epochs == args.epochs,
            c.batch_size == args.batch_size,
            c.no_skip == args.no_skip,
            c.store_type == args.store_type,
            c.force_save == args.force_save,
            c.model_type == args.model_type,
            c.reuse_data == args.reuse_data,
            c.no_eval == args.no_eval,
            c.infer_size == args.infer_size,
    {
        TrainingConfig {
            games: args.games as usize,
            iterations: args.iterations as usize,
            runs: args.runs as usize,
            start_version: args.start_version,
            epochs: args.epochs,
            batch_size: args.batch_size,
            no_skip: args.no_skip,
            store_type: args.store_type,
            force_save: args.force_save,
            model_type: args.model_type,
            reuse_data: args.reuse_data,
            no_eval: args.no_eval,
            infer_size: args.infer_size,
        }
    }
}

/// A training pipeline and the version it is at.
pub struct Pipeline {
    pub config: TrainingConfig,
    pub current_version: usize,
}

impl Pipeline {
    /// A pipeline starting at the configured version.
    pub fn new(config: TrainingConfig) -> (p: Pipeline)
        ensures
            p.current_version == config.start_version,
            p.config == config,
    {
        let v = config.start_version;
        Pipeline { current_version: v, config }
    }
}

/// Appends `s` to `out`.
fn append_str(out: &mut String, s: &str)
    ensures
        final(out)@ == old(out)@ + s@,
{
    out.append(s);
}

/// `<root>/<model type>/v<version>/<file>`.
pub open spec fn versioned_path(
    root: Seq<char>,
    model_type: ModelType,
    version: nat,
    file: Seq<char>,
) -> Seq<char> {
    root + "/"@ + model_type.spec_as_str() + "/v"@ + decimal(version) + "/"@ + file
}

/// Builds `<root>/<model type>/v<version>/<file>`.
pub fn versioned_path_string(root: &str, model_type: ModelType, version: usize, file: &str) -> (p:
    String)
    ensures
        p@ == versioned_path(root@, model_type, version as nat, file@),
{
    let mut p = root.to_owned();
    append_str(&mut p, "/");
    append_str(&mut p, model_type.as_str());
    append_str(&mut p, "/v");
    let v = decimal_string(version);
    append_str(&mut p, v.as_str());
    append_str(&mut p, "/");
    append_str(&mut p, file);
    p
}

/// The checkpoint base path of a version, `checkpoints/<type>/v<version>/model`.
pub fn checkpoint_path(model_type: ModelType, version: usize) -> (p: String)
    ensures
        p@ == versioned_path("checkpoints"@, model_type, version as nat, "model"@),
{
    versioned_path_string("checkpoints", model_type, version, "model")
}

/// The self-play data file of a version, `data/<type>/v<version>/self_play.bin.zst`.
pub fn samples_path(model_type: ModelType, version: usize) -> (p: String)
    ensures
        p@ == versioned_path("data"@, model_type, version as nat, "self_play.bin.zst"@),
{
    versioned_path_string("data", model_type, version, "self_play.bin.zst")
}

pub open spec fn spec_checkpoint_suffix(i: int) -> Seq<char> {
    if i == 0 {
        "mpk"@
    } else {
        "bpk"@
    }
}

/// Number of checkpoint formats probed for an existing checkpoint.
pub const CHECKPOINT_SUFFIXES: usize = 2;

/// The checkpoint file extensions, in the order they are probed.
pub fn checkpoint_suffix(i: usize) -> (s: &'static str)
    requires
        i < CHECKPOINT_SUFFIXES,
    ensures
        s@ == spec_checkpoint_suffix(i as int),
{
    if i == 0 {
        "mpk"
    } else {
        "bpk"
    }
}

/// The checkpoint file of a version in a format, `checkpoints/<type>/v<version>/model.<suffix>`.
pub fn checkpoint_file_path(model_type: ModelType, version: usize, suffix: usize) -> (p: String)
    requires
        suffix < CHECKPOINT_SUFFIXES,
    ensures
        p@ == versioned_path("checkpoints"@, model_type, version as nat, "model"@) + "."@
            + spec_checkpoint_suffix(suffix as int),
{
    let mut p = checkpoint_path(model_type, version);
    append_str(&mut p, ".");
    append_str(&mut p, checkpoint_suffix(suffix));
    p
}

/// What probing for a checkpoint file found.
#[derive(Debug, Clone, Copy, PartialEq, Eq, Structural)]
pub enum ProbeResult {
    Exists,
    Absent,
    Failed,
}

/// Whether a version is trained.
#[derive(Debug, Clone, Copy, PartialEq, Eq, Structural)]
pub enum SkipDecision {
    /// Train the version.
    Proceed,
    /// A checkpoint in the format with this index exists: skip the version.
    Skip(usize),
    /// Probing the format with this index failed: the run stops.
    Fail(usize),
}

/// The decision from the probes of the formats taken in order, from index `i` on.
pub open spec fn probe_decision(probes: Seq<ProbeResult>, i: int) -> SkipDecision
    decreases probes.len() - i,
{
    if i < 0 || i >= probes.len() {
        SkipDecision::Proceed
    } else {
        match probes[i] {
            ProbeResult::Exists => SkipDecision::Skip(i as usize),
            ProbeResult::Failed => SkipDecision::Fail(i as usize),
            ProbeResult::Absent => probe_decision(probes, i + 1),
        }
    }
}

/// Whether a version is skipped: never with `no_skip`; otherwise the first
/// format probe that does not report an absent file decides: an existing
/// checkpoint skips the version, a failed probe stops the run.
pub fn skip_decision(no_skip: bool, probes: &Vec<ProbeResult>) -> (d: SkipDecision)
    ensures
        d == if no_skip {
            SkipDecision::Proceed
        } else {
            probe_decision(probes@, 0)
        },
{
    if no_skip {
        return SkipDecision::Proceed;
    }
    let mut i: usize = 0;
    while i < probes.len()
        invariant
            i <= probes@.len(),
            !no_skip,
            probe_decision(probes@, 0) == probe_decision(probes@, i as int),
        decreases probes@.len() - i,
    {
        match probes[i] {
            ProbeResult::Exists => {
                assert(probe_decision(probes@, i as int) == SkipDecision::Skip(i));
                return SkipDecision::Skip(i);
            },
            ProbeResult::Failed => {
                assert(probe_decision(probes@, i as int) == SkipDecision::Fail(i));
                return SkipDecision::Fail(i);
            },
            ProbeResult::Absent => {},
        }
        i = i + 1;
    }
    SkipDecision::Proceed
}

/// Generations of self-play data mixed into training.
pub const RECENT_GENERATIONS: usize = 4;

/// The versions whose data train `version` when `generations` generations
/// are mixed: the history versions `start..version`, and `version` itself.
/// Returns `None` when no generation is asked for.
pub fn recent_versions(version: usize, generations: usize) -> (r: Option<(usize, usize)>)
    ensures
        generations == 0 ==> r is None,
        generations > 0 ==> r == Some(
            (
                (if version >= generations - 1 {
                    version - (generations - 1)
                } else {
                    0
                }) as usize,
                version,
            ),
        ),
{
    if generations == 0 {
        return None;
    }
    Some((version.saturating_sub(generations - 1), version))
}

/// The number of history samples kept beside `current` samples of the
/// newest version, so that the newest make up 70% of the mix: the integer
/// nearest to 3/7 of `current`, and at least one.
pub open spec fn spec_history_target(current: nat) -> nat {
    let t = (6 * current + 7) / 14;
    if t == 0 {
        1
    } else {
        t
    }
}

/// The integer nearest to 3/7 of `current`, and at least one.
pub fn history_target(current: usize) -> (t: usize)
    ensures
        t == spec_history_target(current as nat),
{
    let q = current / 7;
    let r = current % 7;
    let t = 3 * q + (6 * r + 7) / 14;
    assert((6 * current + 7) / 14 == 3 * q + (6 * r + 7) / 14) by (nonlinear_arith)
        requires
            current == 7 * q + r,
            0 <= r < 7,
    ;
    if t == 0 {
        1
    } else {
        t
    }
}

pub open spec fn spec_history_keep(current: nat, history: nat) -> nat {
    if current > 0 && history > 0 && history > spec_history_target(current) {
        spec_history_target(current)
    } else {
        history
    }
}

/// Shuffles `v` in place with the thread-local generator (wraps
/// `rand::seq::SliceRandom::shuffle` called with `rand::rng()`). Claimed: the
/// result is a permutation of `v`; which permutation is left open.
#[verifier::external_body]
fn shuffle_in_place<T>(v: &mut Vec<T>)
    ensures
        final(v)@.len() == old(v)@.len(),
        final(v)@.to_multiset() == old(v)@.to_multiset(),
{
    rand::seq::SliceRandom::shuffle(v.as_mut_slice(), &mut rand::rng());
}

/// The training mix of the history samples and the newest version's
/// samples: when both are present and the history holds more than its
/// target share, a random selection of that many history samples is kept;
/// otherwise the history is kept whole and in order. The kept history comes
/// first, then the newest samples.
pub fn select_recent_samples<T>(history: Vec<T>, current: Vec<T>) -> (all: Vec<T>)
    ensures
        all@.len() == spec_history_keep(current@.len(), history@.len()) + current@.len(),
        all@.skip(spec_history_keep(current@.len(), history@.len()) as int) == current@,
        spec_history_keep(current@.len(), history@.len()) == history@.len() ==> all@.take(
            history@.len() as int,
        ) == history@,
        forall|i: int|
            0 <= i < spec_history_keep(current@.len(), history@.len()) ==> history@.contains(
                #[trigger] all@[i],
            ),
        all@.take(spec_history_keep(current@.len(), history@.len()) as int).to_multiset().subset_of(
            history@.to_multiset(),
        ),
{
    let mut history = history;
    let mut current = current;
    let ghost h0 = history@;
    let ghost c0 = current@;
    if current.len() > 0 && history.len() > 0 {
        let target = history_target(current.len());
        if history.len() > target {
            shuffle_in_place(&mut history);
            let ghost shuffled = history@;
            history.truncate(target);
            proof {
                broadcast use vstd::multiset::group_multiset_axioms;
                let tail = shuffled.skip(target as int);
                assert(shuffled =~= history@ + tail);
                vstd::seq_lib::lemma_multiset_commutative(history@, tail);
                assert(history@.to_multiset().subset_of(h0.to_multiset()));
            }
            assert forall|i: int| 0 <= i < history@.len() implies h0.contains(
                #[trigger] history@[i],
            ) by {
                assert(shuffled.contains(history@[i])) by {
                    assert(shuffled[i] == history@[i]);
                }
                shuffled.to_multiset_ensures();
                h0.to_multiset_ensures();
                assert(shuffled.to_multiset().count(history@[i]) > 0);
                assert(h0.to_multiset().count(history@[i]) > 0);
            }
        }
    }
    let ghost kept = history@;
    assert(kept.to_multiset().subset_of(h0.to_multiset()));
    assert forall|i: int| 0 <= i < kept.len() implies h0.contains(#[trigger] kept[i]) by {
        if kept == h0 {
            assert(h0[i] == kept[i]);
        }
    }
    history.append(&mut current);
    assert(history@.skip(kept.len() as int) =~= c0);
    assert(history@.take(kept.len() as int) =~= kept);
    assert forall|i: int| 0 <= i < kept.len() implies h0.contains(#[trigger] history@[i]) by {
        assert(history@[i] == kept[i]);
    }
    history
}

/// The candidate is evaluated unless evaluation is switched off.
pub fn needs_evaluation(no_eval: bool) -> (r: bool)
    ensures
        r == !no_eval,
{
    !no_eval
}

/// A trained candidate replaces the baseline when evaluation is off, when it
/// reached the required score rate, or when saving is forced.
pub fn candidate_accepted(no_eval: bool, score_rate_reached: bool, force_save: bool) -> (r: bool)
    ensures
        r == (no_eval || score_rate_reached || force_save),
{
    no_eval || score_rate_reached || force_save
}

/// Where a training run stands.
#[derive(Debug, Clone, Copy, PartialEq, Eq, Structural)]
pub enum RunPhase {
    /// Not started.
    Start,
    /// Waiting for the probe of the initial version's checkpoint.
    InitialCheck,
    /// Waiting for the initial version to be trained.
    InitialTrain,
    /// Waiting for the probe of the current version's checkpoint.
    Check,
    /// Waiting for the current version to be trained and evaluated.
    Train,
    /// All runs done.
    Done,
}

/// What the pipeline reports back.
#[derive(Debug, Clone, Copy, PartialEq, Eq, Structural)]
pub enum RunEvent {
    Begin,
    CheckpointExists(bool),
    InitialTrained,
    VersionTrained(bool),
}

/// What the pipeline is asked to do next.
#[derive(Debug, Clone, Copy, PartialEq, Eq, Structural)]
pub enum RunAction {
    /// Probe for an existing checkpoint of this version.
    CheckCheckpoint(usize),
    /// Train version 0 from self-play of the plain search, and save it.
    TrainInitial,
    /// Train this version from the previous one; save it if accepted.
    TrainVersion(usize),
    /// Stop.
    Finish,
}

/// The progress of a training run.
#[derive(Debug, Clone, Copy, PartialEq, Eq, Structural)]
pub struct PipelineRun {
    pub current_version: usize,
    pub trained: usize,
    pub runs: usize,
    pub phase: RunPhase,
}

/// The phase after the loop test: another training run, or done.
pub open spec fn loop_test(run: PipelineRun) -> (PipelineRun, RunAction) {
    if run.trained < run.runs {
        (PipelineRun { phase: RunPhase::Check, ..run }, RunAction::CheckCheckpoint(run.current_version))
    } else {
        (PipelineRun { phase: RunPhase::Done, ..run }, RunAction::Finish)
    }
}

/// The answer a phase waits for.
pub open spec fn expects(phase: RunPhase, event: RunEvent) -> bool {
    match phase {
        RunPhase::Start => event == RunEvent::Begin,
        RunPhase::InitialCheck => event is CheckpointExists,
        RunPhase::InitialTrain => event == RunEvent::InitialTrained,
        RunPhase::Check => event is CheckpointExists,
        RunPhase::Train => event is VersionTrained,
        RunPhase::Done => false,
    }
}

/// One step of a training run. A run starting at version 0 first trains
/// version 0 unless its checkpoint exists, then moves to version 1. Then,
/// while fewer than `runs` versions have been trained: a version with a
/// checkpoint is skipped; otherwise it is trained from its predecessor and,
/// if accepted, saved, after which the next version is worked on; a rejected
/// candidate leaves the version unchanged. Each training counts as a run.
pub open spec fn spec_run_step(run: PipelineRun, event: RunEvent) -> (PipelineRun, RunAction) {
    match (run.phase, event) {
        (RunPhase::Start, _) => if run.current_version == 0 {
            (PipelineRun { phase: RunPhase::InitialCheck, ..run }, RunAction::CheckCheckpoint(0))
        } else {
            loop_test(run)
        },
        (RunPhase::InitialCheck, RunEvent::CheckpointExists(exists)) => if exists {
            loop_test(PipelineRun { current_version: 1, ..run })
        } else {
            (PipelineRun { phase: RunPhase::InitialTrain, ..run }, RunAction::TrainInitial)
        },
        (RunPhase::InitialTrain, _) => loop_test(PipelineRun { current_version: 1, ..run }),
        (RunPhase::Check, RunEvent::CheckpointExists(exists)) => if exists {
            loop_test(PipelineRun { current_version: (run.current_version + 1) as usize, ..run })
        } else {
            (
                PipelineRun { phase: RunPhase::Train, ..run },
                RunAction::TrainVersion(run.current_version),
            )
        },
        (RunPhase::Train, RunEvent::VersionTrained(accepted)) => loop_test(
            PipelineRun {
                current_version: if accepted {
                    (run.current_version + 1) as usize
                } else {
                    run.current_version
                },
                trained: (run.trained + 1) as usize,
                ..run
            },
        ),
        _ => (run, RunAction::Finish),
    }
}

impl PipelineRun {
    /// The run's invariant: never more trainings than runs, a version being
    /// checked or trained has a predecessor and is worked on for one of the
    /// runs, and a finished run has done all of them.
    pub open spec fn wf(self) -> bool {
        &&& self.trained <= self.runs
        &&& (self.phase == RunPhase::Check || self.phase == RunPhase::Train) ==> self.current_version
            >= 1
        &&& (self.phase == RunPhase::Check || self.phase == RunPhase::Train) ==> self.trained
            < self.runs
        &&& self.phase == RunPhase::Done ==> self.trained == self.runs
        &&& (self.phase == RunPhase::InitialCheck || self.phase == RunPhase::InitialTrain)
            ==> self.current_version == 0
    }

    /// A run of `runs` trainings starting at `start_version`.
    pub fn new(start_version: usize, runs: usize) -> (r: PipelineRun)
        ensures
            r.current_version == start_version,
            r.trained == 0,
            r.runs == runs,
            r.phase == RunPhase::Start,
            r.wf(),
    {
        PipelineRun { current_version: start_version, trained: 0, runs, phase: RunPhase::Start }
    }

    fn next_loop(&mut self) -> (a: RunAction)
        requires
            old(self).trained <= old(self).runs,
            old(self).current_version >= 1,
        ensures
            (*final(self), a) == loop_test(*old(self)),
    {
        if self.trained < self.runs {
            self.phase = RunPhase::Check;
            RunAction::CheckCheckpoint(self.current_version)
        } else {
            self.phase = RunPhase::Done;
            RunAction::Finish
        }
    }

    /// Advances the run with the answer to the last action and returns the
    /// next action.
    pub fn step(&mut self, event: RunEvent) -> (a: RunAction)
        requires
            old(self).wf(),
            expects(old(self).phase, event),
            old(self).current_version < usize::MAX,
        ensures
            (*final(self), a) == spec_run_step(*old(self), event),
            final(self).wf(),
    {
        match (self.phase, event) {
            (RunPhase::Start, _) => {
                if self.current_version == 0 {
                    self.phase = RunPhase::InitialCheck;
                    RunAction::CheckCheckpoint(0)
                } else {
                    self.next_loop()
                }
            },
            (RunPhase::InitialCheck, RunEvent::CheckpointExists(exists)) => {
                if exists {
                    self.current_version = 1;
                    self.next_loop()
                } else {
                    self.phase = RunPhase::InitialTrain;
                    RunAction::TrainInitial
                }
            },
            (RunPhase::InitialTrain, _) => {
                self.current_version = 1;
                self.next_loop()
            },
            (RunPhase::Check, RunEvent::CheckpointExists(exists)) => {
                if exists {
                    self.current_version = self.current_version + 1;
                    self.next_loop()
                } else {
                    self.phase = RunPhase::Train;
                    RunAction::TrainVersion(self.current_version)
                }
            },
            (RunPhase::Train, RunEvent::VersionTrained(accepted)) => {
                if accepted {
                    self.current_version = self.current_version + 1;
                }
                self.trained = self.trained + 1;
                self.next_loop()
            },
            _ => RunAction::Finish,
        }
    }
}

/// Every step keeps the run's invariant, never lowers the version, counts a
/// training only when a version was trained, and asks to train only
/// versions that have a predecessor.
pub proof fn lemma_run_step_laws(run: PipelineRun, event: RunEvent)
    requires
        run.wf(),
        expects(run.phase, event),
        run.current_version < usize::MAX,
    ensures
        spec_run_step(run, event).0.wf(),
        spec_run_step(run, event).0.current_version >= run.current_version,
        spec_run_step(run, event).0.runs == run.runs,
        spec_run_step(run, event).0.trained == run.trained + if event is VersionTrained {
            1int
        } else {
            0
        },
        spec_run_step(run, event).1 matches RunAction::TrainVersion(v) ==> v >= 1,
        spec_run_step(run, event).1 == RunAction::Finish ==> spec_run_step(run, event).0.trained
            == run.runs,
{
    if run.phase == RunPhase::Train {
        let accepted = event->VersionTrained_0;
        let mid = PipelineRun {
            current_version: if accepted {
                (run.current_version + 1) as usize
            } else {
                run.current_version
            },
            trained: (run.trained + 1) as usize,
            ..run
        };
        assert(spec_run_step(run, event) == loop_test(mid));
    }
}

/// A run starting at version 0 first probes version 0's checkpoint; a run
/// starting later probes its own version while runs remain. An existing
/// version-0 checkpoint moves the run on to version 1 (probing it when runs
/// remain); the initial training is asked for only after the version-0 probe
/// found nothing, and is followed by version 1. A version is trained only
/// after its own probe found no checkpoint, and a found checkpoint moves the
/// run to the next version. A trained version counts as a run; only an
/// accepted candidate moves the run to the next version.
pub proof fn lemma_existing_checkpoints_are_skipped(run: PipelineRun, event: RunEvent)
    requires
        run.wf(),
        expects(run.phase, event),
        run.current_version < usize::MAX,
    ensures
        run.phase == RunPhase::Start ==> spec_run_step(run, event).1 == if run.current_version
            == 0 {
            RunAction::CheckCheckpoint(0)
        } else if run.trained < run.runs {
            RunAction::CheckCheckpoint(run.current_version)
        } else {
            RunAction::Finish
        },
        run.phase == RunPhase::InitialTrain ==> spec_run_step(run, event).0.current_version == 1,
        run.phase == RunPhase::InitialCheck && event == RunEvent::CheckpointExists(true) ==> {
            &&& spec_run_step(run, event).0.current_version == 1
            &&& spec_run_step(run, event).1 == if run.trained < run.runs {
                RunAction::CheckCheckpoint(1)
            } else {
                RunAction::Finish
            }
        },
        spec_run_step(run, event).1 == RunAction::TrainInitial ==> run.phase
            == RunPhase::InitialCheck && event == RunEvent::CheckpointExists(false)
            && run.current_version == 0,
        spec_run_step(run, event).1 matches RunAction::TrainVersion(v) ==> run.phase
            == RunPhase::Check && event == RunEvent::CheckpointExists(false) && v
            == run.current_version,
        run.phase == RunPhase::Check && event == RunEvent::CheckpointExists(true) ==> {
            &&& spec_run_step(run, event).0.current_version == run.current_version + 1
            &&& spec_run_step(run, event).0.trained == run.trained
        },
        run.phase == RunPhase::Train && event is VersionTrained ==> {
            &&& spec_run_step(run, event).0.current_version == run.current_version + if event
                == RunEvent::VersionTrained(true) {
                1int
            } else {
                0
            }
            &&& spec_run_step(run, event).0.trained == run.trained + 1
        },
{
}

} // verus!
