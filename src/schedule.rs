use vstd::prelude::*;

verus! {

/// The ordered groups of the per-frame chain.
#[derive(Clone, Copy, Debug, PartialEq, Eq, Hash, Structural)]
pub enum SalvaSimulationSet {
    SyncBackend,
    StepSimulation,
    Writeback,
}

/// One stage of the per-frame chain.
#[derive(Clone, Copy, Debug, PartialEq, Eq, Hash, Structural)]
pub enum Stage {
    RemovalSync,
    Initialization,
    ForceEdits,
    ColliderSampling,
    Step,
    Writeback,
}

/// Position of a stage in the full chain.
pub open spec fn stage_rank(s: Stage) -> nat {
    match s {
        Stage::RemovalSync => 0,
        Stage::Initialization => 1,
        Stage::ForceEdits => 2,
        Stage::ColliderSampling => 3,
        Stage::Step => 4,
        Stage::Writeback => 5,
    }
}

/// Position of a group in the chain of groups.
pub open spec fn set_rank(s: SalvaSimulationSet) -> nat {
    match s {
        SalvaSimulationSet::SyncBackend => 0,
        SalvaSimulationSet::StepSimulation => 1,
        SalvaSimulationSet::Writeback => 2,
    }
}

/// The group a stage belongs to.
pub open spec fn spec_set_of(s: Stage) -> SalvaSimulationSet {
    match s {
        Stage::RemovalSync | Stage::Initialization | Stage::ForceEdits
        | Stage::ColliderSampling => SalvaSimulationSet::SyncBackend,
        Stage::Step => SalvaSimulationSet::StepSimulation,
        Stage::Writeback => SalvaSimulationSet::Writeback,
    }
}

/// The stages of one group, in the order they run.
pub open spec fn spec_set_stages(s: SalvaSimulationSet) -> Seq<Stage> {
    match s {
        SalvaSimulationSet::SyncBackend => seq![
            Stage::RemovalSync,
            Stage::Initialization,
            Stage::ForceEdits,
            Stage::ColliderSampling,
        ],
        SalvaSimulationSet::StepSimulation => seq![Stage::Step],
        SalvaSimulationSet::Writeback => seq![Stage::Writeback],
    }
}

/// The stages that a frame runs, in order: the three sync stages in the
/// minimal configuration, all six with coupling enabled.
pub open spec fn spec_frame_stages(full: bool) -> Seq<Stage> {
    if full {
        seq![
            Stage::RemovalSync,
            Stage::Initialization,
            Stage::ForceEdits,
            Stage::ColliderSampling,
            Stage::Step,
            Stage::Writeback,
        ]
    } else {
        seq![Stage::RemovalSync, Stage::Initialization, Stage::ForceEdits]
    }
}

impl Stage {
    /// The group this stage is scheduled in.
    pub fn set(self) -> (r: SalvaSimulationSet)
        ensures
            r == spec_set_of(self),
    {
        match self {
            Stage::RemovalSync | Stage::Initialization | Stage::ForceEdits
            | Stage::ColliderSampling => SalvaSimulationSet::SyncBackend,
            Stage::Step => SalvaSimulationSet::StepSimulation,
            Stage::Writeback => SalvaSimulationSet::Writeback,
        }
    }

    /// Whether `self` must complete before `other` starts within a frame.
    pub fn runs_before(self, other: Stage) -> (r: bool)
        ensures
            r == (stage_rank(self) < stage_rank(other)),
    {
        self.rank() < other.rank()
    }

    fn rank(self) -> (r: u8)
        ensures
            r as nat == stage_rank(self),
    {
        match self {
            Stage::RemovalSync => 0,
            Stage::Initialization => 1,
            Stage::ForceEdits => 2,
            Stage::ColliderSampling => 3,
            Stage::Step => 4,
            Stage::Writeback => 5,
        }
    }
}

impl SalvaSimulationSet {
    /// The stages registered in this group, chained in this order.
    pub fn get_systems(self) -> (r: Vec<Stage>)
        ensures
            r@ == spec_set_stages(self),
    {
        match self {
            SalvaSimulationSet::SyncBackend => {
                let r = vec![
                    Stage::RemovalSync,
                    Stage::Initialization,
                    Stage::ForceEdits,
                    Stage::ColliderSampling,
                ];
                assert(r@ =~= spec_set_stages(self));
                r
            },
            SalvaSimulationSet::StepSimulation => {
                let r = vec![Stage::Step];
                assert(r@ =~= spec_set_stages(self));
                r
            },
            SalvaSimulationSet::Writeback => {
                let r = vec![Stage::Writeback];
                assert(r@ =~= spec_set_stages(self));
                r
            },
        }
    }

    /// The groups that run in a frame, in order: only the sync group in the
    /// minimal configuration, all three with coupling enabled.
    pub fn chain(full: bool) -> (r: Vec<SalvaSimulationSet>)
        ensures
            full ==> r@ == seq![
                SalvaSimulationSet::SyncBackend,
                SalvaSimulationSet::StepSimulation,
                SalvaSimulationSet::Writeback,
            ],
            !full ==> r@ == seq![SalvaSimulationSet::SyncBackend],
    {
        if full {
            vec![
                SalvaSimulationSet::SyncBackend,
                SalvaSimulationSet::StepSimulation,
                SalvaSimulationSet::Writeback,
            ]
        } else {
            vec![SalvaSimulationSet::SyncBackend]
        }
    }
}

/// The stages one frame runs, in order.
pub fn frame_stages(full: bool) -> (r: Vec<Stage>)
    ensures
        r@ == spec_frame_stages(full),
{
    let r = if full {
        vec![
            Stage::RemovalSync,
            Stage::Initialization,
            Stage::ForceEdits,
            Stage::ColliderSampling,
            Stage::Step,
            Stage::Writeback,
        ]
    } else {
        vec![Stage::RemovalSync, Stage::Initialization, Stage::ForceEdits]
    };
    assert(r@ =~= spec_frame_stages(full));
    r
}

/// The frame's stages are in strictly increasing chain order, so each stage
/// runs after every stage that precedes it in the chain; and each stage sits
/// in a group no earlier than that of the stage before it.
pub proof fn lemma_frame_order(full: bool, i: int, j: int)
    requires
        0 <= i < j < spec_frame_stages(full).len(),
    ensures
        stage_rank(spec_frame_stages(full)[i]) < stage_rank(spec_frame_stages(full)[j]),
        set_rank(spec_set_of(spec_frame_stages(full)[i])) <= set_rank(
            spec_set_of(spec_frame_stages(full)[j]),
        ),
{
}

} // verus!
