use vstd::prelude::*;

pub mod distribute_energy;
pub mod harvest;

pub use distribute_energy::{distribute_action, distribute_step, DistributeEnergyState};
pub use harvest::{harvest_action, harvest_step, HarvestState};

use crate::error::Error;
use crate::structures::{CreepParts, CreepTarget};

verus! {

/// The outcome of a primitive action, as the executor reports it.
#[derive(Clone, Copy, PartialEq, Eq, Structural, Debug)]
pub enum ReturnCode {
    Success,
    NotInRange,
    Busy,
    Full,
    NotEnough,
    Other(i8),
}

pub open spec fn code_of(c: i8) -> ReturnCode {
    if c == 0 {
        ReturnCode::Success
    } else if c == -4 {
        ReturnCode::Busy
    } else if c == -6 {
        ReturnCode::NotEnough
    } else if c == -8 {
        ReturnCode::Full
    } else if c == -9 {
        ReturnCode::NotInRange
    } else {
        ReturnCode::Other(c)
    }
}

impl ReturnCode {
    /// Classifies the executor's numeric outcome; codes with no policy become `Other`.
    pub fn from_code(c: i8) -> (r: ReturnCode)
        ensures
            r == code_of(c),
    {
        if c == 0 {
            ReturnCode::Success
        } else if c == -4 {
            ReturnCode::Busy
        } else if c == -6 {
            ReturnCode::NotEnough
        } else if c == -8 {
            ReturnCode::Full
        } else if c == -9 {
            ReturnCode::NotInRange
        } else {
            ReturnCode::Other(c)
        }
    }
}

/// What a unit's room looks like this tick.
#[derive(Clone, Copy, PartialEq, Eq, Structural, Debug)]
pub struct RoomView {
    pub energy_available: u32,
    pub energy_capacity: u32,
    pub has_controller: bool,
}

/// What the snapshot shows of one unit and its surroundings this tick.
/// The nearest candidates are found by path by the world, among the
/// objects that qualify.
#[derive(Debug)]
pub struct CreepView {
    pub has_position: bool,
    pub room: Option<RoomView>,
    pub energy_free: u32,
    pub energy_used: u32,
    /// The path-nearest resource node.
    pub nearest_source: Option<CreepTarget>,
    /// The path-nearest spawn or extension with free energy storage.
    pub nearest_store: Option<CreepTarget>,
    /// Whether any construction site exists.
    pub has_sites: bool,
    /// The path-nearest construction site.
    pub nearest_site: Option<CreepTarget>,
    /// Whether the target held in the unit's current state resolves.
    pub target_live: bool,
}

/// A primitive action on the unit's current target (or its room's controller).
#[derive(Clone, Copy, PartialEq, Eq, Structural, Debug)]
pub enum Action {
    Harvest,
    Transfer,
    Build,
    UpgradeController,
}

/// An announcement a unit makes when it takes up a target.
#[derive(Clone, Copy, PartialEq, Eq, Structural, Debug)]
pub enum Announcement {
    Harvest,
    Distribute,
    Build,
    Upgrade,
}

/// A follow-up request for the executor after a drive step.
#[derive(Clone, Copy, PartialEq, Eq, Structural, Debug)]
pub enum Command {
    Nothing,
    Say(Announcement),
    MoveToTarget,
    MoveToController,
}

/// The parts every job needs.
pub open spec fn basic_parts() -> Seq<(crate::builds::Part, u8)> {
    seq![
        (crate::builds::Part::Move, 1u8),
        (crate::builds::Part::Work, 1u8),
        (crate::builds::Part::Carry, 1u8),
    ]
}

pub fn basic_requirements() -> (r: CreepParts)
    ensures
        r.0@ == basic_parts(),
        r.wf(),
{
    let r = CreepParts(
        vec![
            (crate::builds::Part::Move, 1u8),
            (crate::builds::Part::Work, 1u8),
            (crate::builds::Part::Carry, 1u8),
        ],
    );
    assert(r.0@ == basic_parts());
    r
}

/// A task that a unit advances one step per tick.
pub trait Job {
    spec fn is_finished(&self) -> bool;

    fn finished(&self) -> (r: bool)
        ensures
            r == self.is_finished(),
    ;

    fn min_required(&self) -> (r: CreepParts)
        ensures
            r.0@ == basic_parts(),
    ;
}

/// A unit's job: idle, or one of the task families with its sub-state.
#[derive(Debug)]
pub enum CreepJob {
    Idle,
    Harvest(HarvestState),
    DistributeEnergy(DistributeEnergyState),
}

/// The variant tag of a job, without its payload.
#[derive(Clone, Copy, PartialEq, Eq, Structural, Debug)]
pub enum JobKind {
    Idle,
    Harvest,
    DistributeEnergy,
}

pub open spec fn kind_of(j: CreepJob) -> JobKind {
    match j {
        CreepJob::Idle => JobKind::Idle,
        CreepJob::Harvest(_) => JobKind::Harvest,
        CreepJob::DistributeEnergy(_) => JobKind::DistributeEnergy,
    }
}

impl CreepJob {
    pub fn kind(&self) -> (r: JobKind)
        ensures
            r == kind_of(*self),
    {
        match self {
            CreepJob::Idle => JobKind::Idle,
            CreepJob::Harvest(_) => JobKind::Harvest,
            CreepJob::DistributeEnergy(_) => JobKind::DistributeEnergy,
        }
    }
}

/// Jobs are equal when their variant tags are: the payload is transient.
impl PartialEq for CreepJob {
    fn eq(&self, other: &CreepJob) -> (r: bool)
        ensures
            r == (kind_of(*self) == kind_of(*other)),
    {
        self.kind() == other.kind()
    }
}

impl vstd::std_specs::cmp::PartialEqSpecImpl for CreepJob {
    open spec fn obeys_eq_spec() -> bool {
        true
    }

    open spec fn eq_spec(&self, other: &CreepJob) -> bool {
        kind_of(*self) == kind_of(*other)
    }
}

/// One drive step of a job: the next job and the result for the executor.
pub open spec fn job_step(j: CreepJob, v: CreepView, code: ReturnCode) -> (CreepJob, Result<Command, Error>) {
    match j {
        CreepJob::Idle => (CreepJob::Idle, Ok(Command::Nothing)),
        CreepJob::Harvest(s) => {
            let (n, r) = harvest_step(s, v, code);
            (CreepJob::Harvest(n), r)
        },
        CreepJob::DistributeEnergy(s) => {
            let (n, r) = distribute_step(s, v, code);
            (CreepJob::DistributeEnergy(n), r)
        },
    }
}

/// The action a job asks the executor for this tick, if any.
pub open spec fn job_action(j: CreepJob, v: CreepView) -> Option<Action> {
    match j {
        CreepJob::Idle => None,
        CreepJob::Harvest(s) => harvest_action(s, v),
        CreepJob::DistributeEnergy(s) => distribute_action(s, v),
    }
}

impl CreepJob {
    /// The action to perform before `drive`; its outcome is `drive`'s `code`.
    pub fn next_action(&self, view: &CreepView) -> (r: Option<Action>)
        ensures
            r == job_action(*self, *view),
    {
        match self {
            CreepJob::Idle => None,
            CreepJob::Harvest(s) => s.next_action(view),
            CreepJob::DistributeEnergy(s) => s.next_action(view),
        }
    }

    /// Advances the job by one step. `code` is the outcome of the action that
    /// `next_action` asked for; it is not read when there was none.
    pub fn drive(&mut self, view: &CreepView, code: ReturnCode) -> (r: Result<Command, Error>)
        ensures
            (*final(self), r) == job_step(*old(self), *view, code),
    {
        match self {
            CreepJob::Idle => Ok(Command::Nothing),
            CreepJob::Harvest(s) => s.drive(view, code),
            CreepJob::DistributeEnergy(s) => s.drive(view, code),
        }
    }
}

/// The job after driving it once per pair of view and outcome, in order.
pub open spec fn drive_many(j: CreepJob, views: Seq<CreepView>, codes: Seq<ReturnCode>) -> CreepJob
    decreases views.len(),
{
    if views.len() == 0 || codes.len() == 0 {
        j
    } else {
        drive_many(job_step(j, views[0], codes[0]).0, views.drop_first(), codes.drop_first())
    }
}

/// A finished job stays as it is, and reports nothing to do, however many
/// times it is driven, whatever the snapshot and outcomes.
pub proof fn lemma_finished_job_is_fixed(j: CreepJob, views: Seq<CreepView>, codes: Seq<ReturnCode>)
    requires
        j == CreepJob::Harvest(HarvestState::Done) || j == CreepJob::DistributeEnergy(DistributeEnergyState::Done),
    ensures
        drive_many(j, views, codes) == j,
        views.len() > 0 && codes.len() > 0 ==> job_step(j, views[0], codes[0]) == (j, Ok::<Command, Error>(Command::Nothing)),
    decreases views.len(),
{
    if views.len() > 0 && codes.len() > 0 {
        lemma_finished_job_is_fixed(j, views.drop_first(), codes.drop_first());
    }
}

/// A held target that no longer resolves sends the task back to its entry
/// state within the same step, without error, while the capacity check
/// does not finish it first.
pub proof fn lemma_lost_target_retargets(j: CreepJob, v: CreepView, code: ReturnCode)
    requires
        !v.target_live,
        (j is Harvest && j->Harvest_0 is Harvesting && v.energy_free != 0) || (j is DistributeEnergy && (
        j->DistributeEnergy_0 is Distributing || j->DistributeEnergy_0 is Building) && v.energy_used != 0),
    ensures
        job_step(j, v, code).1 == Ok::<Command, Error>(Command::Nothing),
        j is Harvest ==> job_step(j, v, code).0 == CreepJob::Harvest(HarvestState::Entry),
        j is DistributeEnergy ==> job_step(j, v, code).0 == CreepJob::DistributeEnergy(DistributeEnergyState::Entry),
{
}

/// Harvesting finishes only when no carry capacity is free: with free
/// capacity left, whatever is carried, a step never reaches `Done`.
pub proof fn lemma_harvest_done_only_when_full(s: HarvestState, v: CreepView, code: ReturnCode)
    requires
        !(s is Done),
        v.energy_free != 0,
    ensures
        !(harvest_step(s, v, code).0 is Done),
{
}

/// Distribution with nothing carried finishes on its next step, from any
/// sub-state that works on energy already held.
pub proof fn lemma_distribute_done_when_empty(s: DistributeEnergyState, v: CreepView, code: ReturnCode)
    requires
        s is Distributing || s is Building || s is Upgrading,
        v.energy_used == 0,
    ensures
        distribute_step(s, v, code) == (DistributeEnergyState::Done, Ok::<Command, Error>(Command::Nothing)),
{
}

} // verus!
