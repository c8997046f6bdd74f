use salva_pipeline::schedule::{frame_stages, SalvaSimulationSet, Stage};

#[test]
fn full_frame_runs_six_stages_in_order() {
    assert_eq!(
        frame_stages(true),
        vec![
            Stage::RemovalSync,
            Stage::Initialization,
            Stage::ForceEdits,
            Stage::ColliderSampling,
            Stage::Step,
            Stage::Writeback,
        ]
    );
}

#[test]
fn minimal_frame_runs_sync_stages_only() {
    assert_eq!(
        frame_stages(false),
        vec![Stage::RemovalSync, Stage::Initialization, Stage::ForceEdits]
    );
    assert_eq!(SalvaSimulationSet::chain(false), vec![SalvaSimulationSet::SyncBackend]);
}

#[test]
fn groups_hold_their_stages() {
    assert_eq!(
        SalvaSimulationSet::SyncBackend.get_systems(),
        vec![
            Stage::RemovalSync,
            Stage::Initialization,
            Stage::ForceEdits,
            Stage::ColliderSampling,
        ]
    );
    assert_eq!(SalvaSimulationSet::StepSimulation.get_systems(), vec![Stage::Step]);
    assert_eq!(SalvaSimulationSet::Writeback.get_systems(), vec![Stage::Writeback]);
    assert_eq!(
        SalvaSimulationSet::chain(true),
        vec![
            SalvaSimulationSet::SyncBackend,
            SalvaSimulationSet::StepSimulation,
            SalvaSimulationSet::Writeback,
        ]
    );
}

#[test]
fn stage_order_and_groups() {
    assert!(Stage::RemovalSync.runs_before(Stage::Initialization));
    assert!(Stage::ColliderSampling.runs_before(Stage::Step));
    assert!(!Stage::Writeback.runs_before(Stage::Step));
    assert!(!Stage::Step.runs_before(Stage::Step));
    assert_eq!(Stage::ForceEdits.set(), SalvaSimulationSet::SyncBackend);
    assert_eq!(Stage::Step.set(), SalvaSimulationSet::StepSimulation);
    assert_eq!(Stage::Writeback.set(), SalvaSimulationSet::Writeback);
}
