use vstd::prelude::*;

use crate::builds::CreepBuild;
use crate::jobs::{kind_of, JobKind};
use crate::structures::CreepState;

verus! {

/// Position of a build in the census table.
pub open spec fn build_index(b: CreepBuild) -> int {
    match b {
        CreepBuild::Worker1_1 => 0,
        CreepBuild::Worker2_1 => 1,
        CreepBuild::Worker2_2 => 2,
    }
}

/// Position of a job tag in the census table.
pub open spec fn job_index(k: JobKind) -> int {
    match k {
        JobKind::Idle => 0,
        JobKind::Harvest => 1,
        JobKind::DistributeEnergy => 2,
    }
}

impl CreepBuild {
    pub fn index(&self) -> (r: usize)
        ensures
            r == build_index(*self),
    {
        match self {
            CreepBuild::Worker1_1 => 0,
            CreepBuild::Worker2_1 => 1,
            CreepBuild::Worker2_2 => 2,
        }
    }
}

impl JobKind {
    pub fn index(&self) -> (r: usize)
        ensures
            r == job_index(*self),
    {
        match self {
            JobKind::Idle => 0,
            JobKind::Harvest => 1,
            JobKind::DistributeEnergy => 2,
        }
    }
}

/// Number of units of build `b`.
pub open spec fn count_build(s: Seq<CreepState>, b: CreepBuild) -> nat
    decreases s.len(),
{
    if s.len() == 0 {
        0
    } else {
        count_build(s.drop_last(), b) + if s.last().build == b { 1nat } else { 0nat }
    }
}

/// Number of units whose job carries tag `k`.
pub open spec fn count_job(s: Seq<CreepState>, k: JobKind) -> nat
    decreases s.len(),
{
    if s.len() == 0 {
        0
    } else {
        count_job(s.drop_last(), k) + if kind_of(s.last().job) == k { 1nat } else { 0nat }
    }
}

/// Population counts by build and by job tag, each table indexed by
/// `build_index` and `job_index`.
#[derive(Debug)]
pub struct Census {
    pub by_build: Vec<usize>,
    pub by_job: Vec<usize>,
}

impl Census {
    /// The tables have one entry per build and per tag, and the build counts
    /// sum to at most the largest `usize`.
    pub open spec fn wf(&self) -> bool {
        &&& self.by_build@.len() == 3
        &&& self.by_job@.len() == 3
        &&& self.by_build@[0] + self.by_build@[1] + self.by_build@[2] <= usize::MAX
    }

    /// The tables count the units of `s`.
    pub open spec fn counts(&self, s: Seq<CreepState>) -> bool {
        &&& forall|b: CreepBuild| #[trigger] self.by_build@[build_index(b)] == count_build(s, b)
        &&& forall|k: JobKind| #[trigger] self.by_job@[job_index(k)] == count_job(s, k)
    }

    /// Counts the population by build and by job tag.
    pub fn of(states: &Vec<CreepState>) -> (r: Census)
        ensures
            r.wf(),
            r.counts(states@),
    {
        let mut by_build: Vec<usize> = vec![0, 0, 0];
        let mut by_job: Vec<usize> = vec![0, 0, 0];
        let mut i: usize = 0;
        while i < states.len()
            invariant
                0 <= i <= states@.len(),
                by_build@.len() == 3,
                by_job@.len() == 3,
                forall|b: CreepBuild| #[trigger] by_build@[build_index(b)] == count_build(states@.take(i as int), b),
                forall|k: JobKind| #[trigger] by_job@[job_index(k)] == count_job(states@.take(i as int), k),
                by_build@[0] + by_build@[1] + by_build@[2] == i,
                by_job@[0] + by_job@[1] + by_job@[2] == i,
            decreases states@.len() - i,
        {
            let ghost prefix = states@.take(i as int);
            proof {
                assert(states@.take(i as int + 1).drop_last() =~= prefix);
                assert(by_build@[0] == by_build@[build_index(CreepBuild::Worker1_1)]);
                assert(by_build@[1] == by_build@[build_index(CreepBuild::Worker2_1)]);
                assert(by_build@[2] == by_build@[build_index(CreepBuild::Worker2_2)]);
                assert(by_job@[0] == by_job@[job_index(JobKind::Idle)]);
                assert(by_job@[1] == by_job@[job_index(JobKind::Harvest)]);
                assert(by_job@[2] == by_job@[job_index(JobKind::DistributeEnergy)]);
            }
            let b = states[i].build.index();
            let k = states[i].job.kind().index();
            let nb = by_build[b] + 1;
            by_build.set(b, nb);
            let nk = by_job[k] + 1;
            by_job.set(k, nk);
            i = i + 1;
            proof {
                let s = states@.take(i as int);
                assert(s.drop_last() =~= prefix);
                assert forall|c: CreepBuild| #[trigger] by_build@[build_index(c)] == count_build(s, c) by {
                    assert(count_build(s, c) == count_build(prefix, c) + if s.last().build == c { 1nat } else { 0nat });
                }
                assert forall|c: JobKind| #[trigger] by_job@[job_index(c)] == count_job(s, c) by {
                    assert(count_job(s, c) == count_job(prefix, c) + if kind_of(s.last().job) == c { 1nat } else { 0nat });
                }
            }
        }
        assert(states@.take(i as int) =~= states@);
        Census { by_build, by_job }
    }

    pub fn build_count(&self, b: CreepBuild) -> (r: usize)
        requires
            self.wf(),
        ensures
            r == self.by_build@[build_index(b)],
    {
        self.by_build[b.index()]
    }

    pub fn job_count(&self, k: JobKind) -> (r: usize)
        requires
            self.wf(),
        ensures
            r == self.by_job@[job_index(k)],
    {
        self.by_job[k.index()]
    }
}

} // verus!
