use hex_go::model::{DeviceKind, ModelType, StoreType};
use hex_go::pipeline::{
    EvaluateArgs, EvaluationConfig, Pipeline, PipelineRun, ProbeResult, RunAction, RunEvent,
    RunPhase, SkipDecision, TrainArgs, TrainingConfig, candidate_accepted, checkpoint_file_path,
    checkpoint_path, history_target, needs_evaluation, recent_versions, samples_path,
    select_recent_samples, skip_decision,
};

fn train_args() -> TrainArgs {
    TrainArgs {
        games: 1,
        iterations: 1,
        runs: 1,
        start_version: 0,
        epochs: 1,
        batch_size: 1,
        no_skip: false,
        store_type: StoreType::BPK,
        force_save: false,
        model_type: ModelType::Mlp,
        reuse_data: false,
        no_eval: false,
        infer_size: 1,
        infer_device: DeviceKind::Cpu,
    }
}

#[test]
fn load_recent_samples_returns_empty_when_generations_is_zero() {
    let pipeline = Pipeline::new(TrainingConfig::from(train_args()));
    assert_eq!(pipeline.current_version, 0);
    assert_eq!(recent_versions(10, 0), None);
}

#[test]
fn test_load_recent_samples_window() {
    let base: usize = 99000;
    // Two generations ending at base + 2: history base + 1, then base + 2.
    assert_eq!(recent_versions(base + 2, 2), Some((base + 1, base + 2)));
    let loaded_2 = select_recent_samples(vec![1.0f32], vec![2.0f32]);
    assert_eq!(loaded_2, vec![1.0, 2.0]);
    // Five generations ending at base + 1: history from base (the window starts
    // at base - 3, where nothing was saved), then base + 1.
    assert_eq!(recent_versions(base + 1, 5), Some((base - 3, base + 1)));
    let loaded_all = select_recent_samples(vec![0.0f32], vec![1.0f32]);
    assert_eq!(loaded_all, vec![0.0, 1.0]);
    assert_eq!(recent_versions(2, 5), Some((0, 2)));
}

#[test]
fn test_load_recent_samples_ratio_70_30() {
    let current = vec![1u8; 70];
    let history = vec![0u8; 100];
    let loaded = select_recent_samples(history, current);
    // Target history: round(70 * 0.3 / 0.7) = 30
    assert_eq!(loaded.len(), 100);
    assert!(loaded[..30].iter().all(|x| *x == 0));
    assert!(loaded[30..].iter().all(|x| *x == 1));
}

#[test]
fn history_target_is_nearest_to_three_sevenths() {
    assert_eq!(history_target(70), 30);
    assert_eq!(history_target(0), 1);
    assert_eq!(history_target(1), 1);
    assert_eq!(history_target(2), 1);
    assert_eq!(history_target(4), 2);
    assert_eq!(history_target(1000), 429);
    for n in 0..2000usize {
        let expected = ((n as f64) * ((1.0 - 0.7) / 0.7)).round() as usize;
        let expected = if expected == 0 { 1 } else { expected };
        assert_eq!(history_target(n), expected, "n = {}", n);
    }
}

#[test]
fn small_histories_are_kept_whole_and_in_order() {
    assert_eq!(select_recent_samples(vec![1, 2, 3], vec![9; 70]).len(), 73);
    assert_eq!(select_recent_samples(vec![1, 2, 3], vec![9; 70])[..3], [1, 2, 3]);
    assert_eq!(select_recent_samples(vec![1, 2, 3], Vec::new()), vec![1, 2, 3]);
    assert_eq!(select_recent_samples(Vec::<u8>::new(), vec![4]), vec![4]);
    // One current sample keeps one history sample, drawn from the history.
    let mixed = select_recent_samples(vec![5, 6, 7], vec![9]);
    assert_eq!(mixed.len(), 2);
    assert!([5, 6, 7].contains(&mixed[0]));
    assert_eq!(mixed[1], 9);
}

#[test]
fn checkpoint_and_data_paths() {
    assert_eq!(checkpoint_path(ModelType::Mlp, 12), "checkpoints/mlp/v12/model");
    assert_eq!(samples_path(ModelType::Mlp, 0), "data/mlp/v0/self_play.bin.zst");
    assert_eq!(checkpoint_file_path(ModelType::Mlp, 3, 0), "checkpoints/mlp/v3/model.mpk");
    assert_eq!(checkpoint_file_path(ModelType::Mlp, 3, 1), "checkpoints/mlp/v3/model.bpk");
}

#[test]
fn existing_checkpoints_skip_versions() {
    assert_eq!(skip_decision(true, &vec![ProbeResult::Exists, ProbeResult::Exists]), SkipDecision::Proceed);
    assert_eq!(skip_decision(false, &vec![ProbeResult::Absent, ProbeResult::Absent]), SkipDecision::Proceed);
    assert_eq!(skip_decision(false, &vec![ProbeResult::Absent, ProbeResult::Exists]), SkipDecision::Skip(1));
    assert_eq!(skip_decision(false, &vec![ProbeResult::Exists, ProbeResult::Failed]), SkipDecision::Skip(0));
    assert_eq!(skip_decision(false, &vec![ProbeResult::Failed, ProbeResult::Exists]), SkipDecision::Fail(0));
}

#[test]
fn acceptance_of_candidates() {
    assert!(!needs_evaluation(true));
    assert!(needs_evaluation(false));
    assert!(candidate_accepted(true, false, false));
    assert!(candidate_accepted(false, true, false));
    assert!(candidate_accepted(false, false, true));
    assert!(!candidate_accepted(false, false, false));
}

#[test]
fn a_run_trains_the_initial_version_then_the_requested_runs() {
    let mut run = PipelineRun::new(0, 2);
    assert_eq!(run.step(RunEvent::Begin), RunAction::CheckCheckpoint(0));
    assert_eq!(run.step(RunEvent::CheckpointExists(false)), RunAction::TrainInitial);
    assert_eq!(run.step(RunEvent::InitialTrained), RunAction::CheckCheckpoint(1));
    // Version 1 already exists: skipped without counting a run.
    assert_eq!(run.step(RunEvent::CheckpointExists(true)), RunAction::CheckCheckpoint(2));
    assert_eq!(run.step(RunEvent::CheckpointExists(false)), RunAction::TrainVersion(2));
    // Rejected: the same version is tried again.
    assert_eq!(run.step(RunEvent::VersionTrained(false)), RunAction::CheckCheckpoint(2));
    assert_eq!(run.step(RunEvent::CheckpointExists(false)), RunAction::TrainVersion(2));
    assert_eq!(run.step(RunEvent::VersionTrained(true)), RunAction::Finish);
    assert_eq!(run.current_version, 3);
    assert_eq!(run.trained, 2);
    assert_eq!(run.phase, RunPhase::Done);

    let mut resumed = PipelineRun::new(5, 0);
    assert_eq!(resumed.step(RunEvent::Begin), RunAction::Finish);
}

#[test]
fn evaluation_config_from_args() {
    let c = EvaluationConfig::from(EvaluateArgs {
        candidate: "a".to_string(),
        baseline: "b".to_string(),
        games: 200,
        iterations: 800,
        infer_size: 64,
        infer_device: DeviceKind::Cuda,
    });
    assert_eq!((c.games, c.iterations, c.batch_size), (200, 800, 64));
    assert_eq!((c.candidate.as_str(), c.baseline.as_str()), ("a", "b"));
}

#[test]
fn cut_history_keeps_distinct_history_samples() {
    let history: Vec<u32> = (0..100).collect();
    let current: Vec<u32> = (1000..1070).collect();
    let loaded = select_recent_samples(history, current.clone());
    assert_eq!(loaded.len(), 100);
    assert_eq!(loaded[30..], current[..]);
    let mut kept: Vec<u32> = loaded[..30].to_vec();
    kept.sort();
    kept.dedup();
    assert_eq!(kept.len(), 30);
    assert!(kept.iter().all(|x| *x < 100));
}
