use vstd::prelude::*;

use crate::builds::{build_parts, part_cost, CreepBuild, Part};
use crate::census::{build_index, Census};
use crate::error::Error;
use crate::jobs::{
    job_step, Command, CreepJob, CreepView, DistributeEnergyState, HarvestState, Job, ReturnCode,
};
use crate::structures::{parts_cost, CreepState};

verus! {

/// Energy needed to build a unit of build `b`.
pub open spec fn build_cost(b: CreepBuild) -> nat {
    parts_cost(build_parts(b))
}

proof fn lemma_cost_push(s: Seq<(Part, u8)>, x: (Part, u8))
    ensures
        parts_cost(s.push(x)) == parts_cost(s) + part_cost(x.0) * (x.1 as nat),
{
    assert(s.push(x).drop_last() =~= s);
}

proof fn lemma_cost3(a: (Part, u8), b: (Part, u8), c: (Part, u8))
    ensures
        parts_cost(seq![a, b, c]) == part_cost(a.0) * (a.1 as nat) + part_cost(b.0) * (b.1 as nat)
            + part_cost(c.0) * (c.1 as nat),
{
    let e = Seq::<(Part, u8)>::empty();
    lemma_cost_push(e, a);
    lemma_cost_push(e.push(a), b);
    lemma_cost_push(e.push(a).push(b), c);
    assert(seq![a, b, c] =~= e.push(a).push(b).push(c));
}

proof fn lemma_build_costs()
    ensures
        build_cost(CreepBuild::Worker1_1) == 200,
        build_cost(CreepBuild::Worker2_1) == 300,
        build_cost(CreepBuild::Worker2_2) == 550,
{
    lemma_cost3((Part::Move, 1u8), (Part::Work, 1u8), (Part::Carry, 1u8));
    lemma_cost3((Part::Move, 2u8), (Part::Work, 1u8), (Part::Carry, 2u8));
    lemma_cost3((Part::Move, 3u8), (Part::Work, 2u8), (Part::Carry, 4u8));
}

impl CreepBuild {
    /// Energy needed to build a unit of this build.
    pub fn cost(&self) -> (r: u32)
        ensures
            r == build_cost(*self),
    {
        proof {
            lemma_build_costs();
        }
        self.parts().cost()
    }
}

/// A recipe: relative proportion weights per build. Every weight is
/// positive and no build occurs twice.
pub open spec fn recipe_wf(r: Seq<(CreepBuild, u16)>) -> bool {
    &&& forall|j: int| 0 <= j < r.len() ==> #[trigger] r[j].1 > 0
    &&& forall|i: int, j: int| 0 <= i < r.len() && 0 <= j < r.len() && i != j ==> r[i].0 != r[j].0
}

/// The recipe lists build `b`.
pub open spec fn recipe_has(r: Seq<(CreepBuild, u16)>, b: CreepBuild) -> bool {
    exists|j: int| 0 <= j < r.len() && #[trigger] r[j].0 == b
}

/// The number of units in the world whose build the recipe lists.
pub open spec fn world_total(r: Seq<(CreepBuild, u16)>, counts: Seq<usize>) -> nat {
    (if recipe_has(r, CreepBuild::Worker1_1) { counts[0] as nat } else { 0 })
        + (if recipe_has(r, CreepBuild::Worker2_1) { counts[1] as nat } else { 0 })
        + (if recipe_has(r, CreepBuild::Worker2_2) { counts[2] as nat } else { 0 })
}

/// The deficit ratio of entry `a` is at most that of entry `b`. The ratio of
/// an entry is (its count / world total) / (its weight / recipe total); both
/// totals are common to every entry, so the comparison is count_a / weight_a
/// against count_b / weight_b, cross-multiplied. When the world total is zero
/// every entry compares equal, so the first entry is chosen.
pub open spec fn ratio_le(r: Seq<(CreepBuild, u16)>, counts: Seq<usize>, a: int, b: int) -> bool {
    counts[build_index(r[a].0)] * r[b].1 <= counts[build_index(r[b].0)] * r[a].1
}

/// Entry `i` has the least deficit ratio, and every entry before it a larger one.
pub open spec fn is_choice(r: Seq<(CreepBuild, u16)>, counts: Seq<usize>, i: int) -> bool {
    &&& 0 <= i < r.len()
    &&& forall|j: int| 0 <= j < r.len() ==> #[trigger] ratio_le(r, counts, i, j)
    &&& forall|j: int| 0 <= j < i ==> !#[trigger] ratio_le(r, counts, j, i)
}

proof fn lemma_ratio_chain(ca: int, wa: int, cb: int, wb: int, cc: int, wc: int)
    requires
        wa > 0,
        wb > 0,
        wc > 0,
        ca * wb < cb * wa,
        cb * wc <= cc * wb,
    ensures
        ca * wc < cc * wa,
{
    assert(ca * wb * wc < cb * wa * wc) by (nonlinear_arith)
        requires
            ca * wb < cb * wa,
            wc > 0,
    ;
    assert(cb * wc * wa <= cc * wb * wa) by (nonlinear_arith)
        requires
            cb * wc <= cc * wb,
            wa > 0,
    ;
    assert(ca * wc * wb < cc * wa * wb) by (nonlinear_arith)
        requires
            ca * wb * wc < cb * wa * wc,
            cb * wc * wa <= cc * wb * wa,
    ;
    assert(ca * wc < cc * wa) by (nonlinear_arith)
        requires
            ca * wc * wb < cc * wa * wb,
            wb > 0,
    ;
}

/// At most one entry is the choice.
pub proof fn lemma_choice_unique(r: Seq<(CreepBuild, u16)>, counts: Seq<usize>, i: int, j: int)
    requires
        is_choice(r, counts, i),
        is_choice(r, counts, j),
    ensures
        i == j,
{
    if i < j {
        assert(ratio_le(r, counts, i, j));
        assert(!ratio_le(r, counts, i, j));
    } else if j < i {
        assert(ratio_le(r, counts, j, i));
        assert(!ratio_le(r, counts, j, i));
    }
}

fn ratio_le_exec(recipe: &Vec<(CreepBuild, u16)>, counts: &Vec<usize>, a: usize, b: usize) -> (r: bool)
    requires
        a < recipe@.len(),
        b < recipe@.len(),
        counts@.len() == 3,
    ensures
        r == ratio_le(recipe@, counts@, a as int, b as int),
{
    let ca = counts[recipe[a].0.index()] as u128;
    let cb = counts[recipe[b].0.index()] as u128;
    let wa = recipe[a].1 as u128;
    let wb = recipe[b].1 as u128;
    proof {
        assert(ca * wb <= 0xffff_ffff_ffff_ffff * 0xffff) by (nonlinear_arith)
            requires
                ca <= 0xffff_ffff_ffff_ffff,
                wb <= 0xffff,
        ;
        assert(cb * wa <= 0xffff_ffff_ffff_ffff * 0xffff) by (nonlinear_arith)
            requires
                cb <= 0xffff_ffff_ffff_ffff,
                wa <= 0xffff,
        ;
    }
    ca * wb <= cb * wa
}

/// The recipe entry to build next: the one whose share of the world's
/// population falls furthest below its share of the recipe, the first such
/// on ties. `None` exactly when the recipe is empty.
pub fn choose_build(recipe: &Vec<(CreepBuild, u16)>, counts: &Vec<usize>) -> (r: Option<usize>)
    requires
        recipe_wf(recipe@),
        counts@.len() == 3,
    ensures
        r is None <==> recipe@.len() == 0,
        r matches Some(i) ==> is_choice(recipe@, counts@, i as int),
{
    if recipe.len() == 0 {
        return None;
    }
    let mut best: usize = 0;
    let mut j: usize = 1;
    while j < recipe.len()
        invariant
            recipe_wf(recipe@),
            counts@.len() == 3,
            0 <= best < j <= recipe@.len(),
            forall|k: int| 0 <= k < j ==> #[trigger] ratio_le(recipe@, counts@, best as int, k),
            forall|k: int| 0 <= k < best ==> !#[trigger] ratio_le(recipe@, counts@, k, best as int),
        decreases recipe@.len() - j,
    {
        if !ratio_le_exec(recipe, counts, best, j) {
            proof {
                let r = recipe@;
                let c = counts@;
                let wj = r[j as int].1 as int;
                let wb = r[best as int].1 as int;
                let cj = c[build_index(r[j as int].0)] as int;
                let cb = c[build_index(r[best as int].0)] as int;
                assert(r[j as int].1 > 0);
                assert(r[best as int].1 > 0);
                assert forall|k: int| 0 <= k < j + 1 implies #[trigger] ratio_le(r, c, j as int, k) by {
                    if k < j {
                        assert(ratio_le(r, c, best as int, k));
                        assert(r[k].1 > 0);
                        lemma_ratio_chain(cj, wj, cb, wb, c[build_index(r[k].0)] as int, r[k].1 as int);
                    }
                }
                assert forall|k: int| 0 <= k < j implies !#[trigger] ratio_le(r, c, k, j as int) by {
                    assert(ratio_le(r, c, best as int, k));
                    assert(r[k].1 > 0);
                    lemma_ratio_chain(cj, wj, cb, wb, c[build_index(r[k].0)] as int, r[k].1 as int);
                }
            }
            best = j;
        }
        j = j + 1;
    }
    Some(best)
}

/// One row of the spawn table: the least room level and the largest build
/// cost at which its recipe applies.
#[derive(Debug)]
pub struct SpawnTier {
    pub min_level: u8,
    pub max_cost: u32,
    pub recipe: Vec<(CreepBuild, u16)>,
}

/// A spawn tier as plain values.
pub struct TierView {
    pub min_level: u8,
    pub max_cost: u32,
    pub recipe: Seq<(CreepBuild, u16)>,
}

impl View for SpawnTier {
    type V = TierView;

    open spec fn view(&self) -> TierView {
        TierView { min_level: self.min_level, max_cost: self.max_cost, recipe: self.recipe@ }
    }
}

pub open spec fn tiers_view(t: Seq<SpawnTier>) -> Seq<TierView> {
    t.map_values(|x: SpawnTier| x@)
}

/// Every tier's recipe is well formed.
pub open spec fn tiers_wf(t: Seq<TierView>) -> bool {
    forall|i: int| 0 <= i < t.len() ==> recipe_wf(#[trigger] t[i].recipe)
}

/// Ordered by descending (min level, max cost).
pub open spec fn tiers_sorted(t: Seq<TierView>) -> bool {
    forall|i: int, j: int|
        0 <= i < j < t.len() ==> (#[trigger] t[i].min_level > #[trigger] t[j].min_level || (
        t[i].min_level == t[j].min_level && t[i].max_cost >= t[j].max_cost))
}

/// The largest cost among the recipe's builds.
pub open spec fn recipe_max_cost(r: Seq<(CreepBuild, u16)>) -> nat
    decreases r.len(),
{
    if r.len() == 0 {
        0
    } else {
        let m = recipe_max_cost(r.drop_last());
        let c = build_cost(r.last().0);
        if c > m { c } else { m }
    }
}

/// The spawn table: a tier per recipe with its least room level, its max cost
/// derived from its builds, ordered most capable first.
pub open spec fn standard_tiers() -> Seq<TierView> {
    seq![
        TierView { min_level: 2, max_cost: 550, recipe: seq![(CreepBuild::Worker2_2, 1u16)] },
        TierView { min_level: 2, max_cost: 300, recipe: seq![(CreepBuild::Worker2_1, 1u16)] },
        TierView { min_level: 1, max_cost: 200, recipe: seq![(CreepBuild::Worker1_1, 1u16)] },
    ]
}

fn max_cost_of(recipe: &Vec<(CreepBuild, u16)>) -> (r: u32)
    ensures
        r == recipe_max_cost(recipe@),
{
    proof {
        lemma_build_costs();
    }
    let mut m: u32 = 0;
    let mut i: usize = 0;
    while i < recipe.len()
        invariant
            0 <= i <= recipe@.len(),
            m == recipe_max_cost(recipe@.take(i as int)),
            m <= 550,
            build_cost(CreepBuild::Worker1_1) == 200,
            build_cost(CreepBuild::Worker2_1) == 300,
            build_cost(CreepBuild::Worker2_2) == 550,
        decreases recipe@.len() - i,
    {
        assert(recipe@.take(i as int + 1).drop_last() =~= recipe@.take(i as int));
        let c = recipe[i].0.cost();
        if c > m {
            m = c;
        }
        i = i + 1;
    }
    assert(recipe@.take(i as int) =~= recipe@);
    m
}

fn tier(min_level: u8, recipe: Vec<(CreepBuild, u16)>) -> (r: SpawnTier)
    ensures
        r.min_level == min_level,
        r.recipe@ == recipe@,
        r.max_cost == recipe_max_cost(recipe@),
{
    let max_cost = max_cost_of(&recipe);
    SpawnTier { min_level, max_cost, recipe }
}

/// Builds the spawn table, most capable tier first.
pub fn spawner_tiers() -> (r: Vec<SpawnTier>)
    ensures
        tiers_view(r@) == standard_tiers(),
        tiers_sorted(tiers_view(r@)),
        tiers_wf(tiers_view(r@)),
{
    proof {
        lemma_build_costs();
    }
    let t0 = tier(2, vec![(CreepBuild::Worker2_2, 1u16)]);
    let t1 = tier(2, vec![(CreepBuild::Worker2_1, 1u16)]);
    let t2 = tier(1, vec![(CreepBuild::Worker1_1, 1u16)]);
    proof {
        reveal_with_fuel(recipe_max_cost, 2);
        assert(t0.recipe@.drop_last() =~= Seq::<(CreepBuild, u16)>::empty());
        assert(t1.recipe@.drop_last() =~= Seq::<(CreepBuild, u16)>::empty());
        assert(t2.recipe@.drop_last() =~= Seq::<(CreepBuild, u16)>::empty());
    }
    assert(t0.recipe@ =~= seq![(CreepBuild::Worker2_2, 1u16)]);
    assert(t1.recipe@ =~= seq![(CreepBuild::Worker2_1, 1u16)]);
    assert(t2.recipe@ =~= seq![(CreepBuild::Worker1_1, 1u16)]);
    let r = vec![t0, t1, t2];
    assert(tiers_view(r@)[0] == standard_tiers()[0]);
    assert(tiers_view(r@)[1] == standard_tiers()[1]);
    assert(tiers_view(r@)[2] == standard_tiers()[2]);
    assert(tiers_view(r@) =~= standard_tiers());
    r
}

/// The room's level and energy capacity admit the tier.
pub open spec fn tier_fits(t: TierView, level: u8, capacity: u32) -> bool {
    level >= t.min_level && capacity >= t.max_cost
}

/// Tier `i` is the first that the room admits.
pub open spec fn is_first_fit(t: Seq<TierView>, level: u8, capacity: u32, i: int) -> bool {
    &&& 0 <= i < t.len()
    &&& tier_fits(t[i], level, capacity)
    &&& forall|k: int| 0 <= k < i ==> !tier_fits(#[trigger] t[k], level, capacity)
}

/// The first tier that the room admits, if any.
pub fn select_tier(tiers: &Vec<SpawnTier>, level: u8, capacity: u32) -> (r: Option<usize>)
    ensures
        r matches Some(i) ==> is_first_fit(tiers_view(tiers@), level, capacity, i as int),
        r is None ==> forall|k: int|
            0 <= k < tiers@.len() ==> !tier_fits(#[trigger] tiers_view(tiers@)[k], level, capacity),
{
    let mut i: usize = 0;
    while i < tiers.len()
        invariant
            0 <= i <= tiers@.len(),
            forall|k: int| 0 <= k < i ==> !tier_fits(#[trigger] tiers_view(tiers@)[k], level, capacity),
        decreases tiers@.len() - i,
    {
        if level >= tiers[i].min_level && capacity >= tiers[i].max_cost {
            return Some(i);
        }
        i = i + 1;
    }
    None
}

/// The population cap at a room level.
pub open spec fn population_cap(level: u8) -> nat {
    if level == 1 {
        5
    } else {
        10
    }
}

/// The spawn request for a spawn in a room of this level and energy
/// capacity: the chosen build of the first admitted tier's recipe, while the
/// population that the recipe lists stays under the cap.
pub open spec fn spawn_request(t: Seq<TierView>, counts: Seq<usize>, level: u8, capacity: u32) -> Option<CreepBuild> {
    if exists|i: int| is_first_fit(t, level, capacity, i) {
        let i = choose|i: int| is_first_fit(t, level, capacity, i);
        let r = t[i].recipe;
        if r.len() > 0 && world_total(r, counts) < population_cap(level) {
            Some(r[choose|j: int| is_choice(r, counts, j)].0)
        } else {
            None
        }
    } else {
        None
    }
}

/// At most one tier is the first fit.
pub proof fn lemma_first_fit_unique(t: Seq<TierView>, level: u8, capacity: u32, i: int, j: int)
    requires
        is_first_fit(t, level, capacity, i),
        is_first_fit(t, level, capacity, j),
    ensures
        i == j,
{
    if i < j {
        assert(!tier_fits(t[i], level, capacity));
    } else if j < i {
        assert(!tier_fits(t[j], level, capacity));
    }
}

fn recipe_lists(recipe: &Vec<(CreepBuild, u16)>, b: CreepBuild) -> (r: bool)
    ensures
        r == recipe_has(recipe@, b),
{
    let mut i: usize = 0;
    while i < recipe.len()
        invariant
            0 <= i <= recipe@.len(),
            forall|k: int| 0 <= k < i ==> #[trigger] recipe@[k].0 != b,
        decreases recipe@.len() - i,
    {
        if recipe[i].0 == b {
            return true;
        }
        i = i + 1;
    }
    false
}

/// The number of units whose build the recipe lists.
pub fn total_in_world(recipe: &Vec<(CreepBuild, u16)>, census: &Census) -> (r: usize)
    requires
        census.wf(),
    ensures
        r == world_total(recipe@, census.by_build@),
{
    let mut total: usize = 0;
    if recipe_lists(recipe, CreepBuild::Worker1_1) {
        total = total + census.by_build[0];
    }
    if recipe_lists(recipe, CreepBuild::Worker2_1) {
        total = total + census.by_build[1];
    }
    if recipe_lists(recipe, CreepBuild::Worker2_2) {
        total = total + census.by_build[2];
    }
    total
}

/// Decides what one spawn structure builds this tick, if anything.
pub fn spawn_choice(tiers: &Vec<SpawnTier>, census: &Census, level: u8, capacity: u32) -> (r: Option<CreepBuild>)
    requires
        tiers_wf(tiers_view(tiers@)),
        census.wf(),
    ensures
        r == spawn_request(tiers_view(tiers@), census.by_build@, level, capacity),
        (forall|i: int| is_first_fit(tiers_view(tiers@), level, capacity, i)
            ==> world_total(tiers_view(tiers@)[i].recipe, census.by_build@) >= population_cap(level))
            ==> r is None,
{
    let ghost t = tiers_view(tiers@);
    let i = match select_tier(tiers, level, capacity) {
        None => {
            return None;
        },
        Some(i) => i,
    };
    proof {
        let c = choose|k: int| is_first_fit(t, level, capacity, k);
        lemma_first_fit_unique(t, level, capacity, c, i as int);
    }
    let recipe = &tiers[i].recipe;
    assert(recipe@ == t[i as int].recipe);
    assert(recipe_wf(t[i as int].recipe));
    let total = total_in_world(recipe, census);
    let cap: usize = if level == 1 {
        5
    } else {
        10
    };
    match choose_build(recipe, &census.by_build) {
        None => None,
        Some(j) => {
            if total < cap {
                proof {
                    let c = choose|k: int| is_choice(recipe@, census.by_build@, k);
                    lemma_choice_unique(recipe@, census.by_build@, c, j as int);
                }
                Some(recipe[j].0)
            } else {
                None
            }
        },
    }
}

/// What a spawn structure's room shows this tick: its controller level (0
/// without one) and its energy capacity.
#[derive(Clone, Copy, PartialEq, Eq, Structural, Debug)]
pub struct SpawnView {
    pub level: u8,
    pub energy_capacity: u32,
}

/// Decides, for each spawn structure independently, what it builds this tick.
pub fn spawner_strategy(tiers: &Vec<SpawnTier>, census: &Census, spawns: &Vec<SpawnView>) -> (r: Vec<Option<CreepBuild>>)
    requires
        tiers_wf(tiers_view(tiers@)),
        census.wf(),
    ensures
        r@.len() == spawns@.len(),
        forall|k: int|
            0 <= k < spawns@.len() ==> #[trigger] r@[k] == spawn_request(
                tiers_view(tiers@),
                census.by_build@,
                spawns@[k].level,
                spawns@[k].energy_capacity,
            ),
{
    let mut out: Vec<Option<CreepBuild>> = Vec::new();
    let mut k: usize = 0;
    while k < spawns.len()
        invariant
            tiers_wf(tiers_view(tiers@)),
            census.wf(),
            0 <= k <= spawns@.len(),
            out@.len() == k,
            forall|m: int|
                0 <= m < k ==> #[trigger] out@[m] == spawn_request(
                    tiers_view(tiers@),
                    census.by_build@,
                    spawns@[m].level,
                    spawns@[m].energy_capacity,
                ),
        decreases spawns@.len() - k,
    {
        let s = spawns[k];
        out.push(spawn_choice(tiers, census, s.level, s.energy_capacity));
        k = k + 1;
    }
    out
}

/// The job a unit holds after assignment: an idle unit with at least as much
/// free carry capacity as used capacity harvests, otherwise it distributes
/// energy; a finished job is cleared; a job under way is kept.
pub open spec fn assigned_job(j: CreepJob, free: u32, used: u32) -> CreepJob {
    match j {
        CreepJob::Idle => {
            if free >= used {
                CreepJob::Harvest(HarvestState::Entry)
            } else {
                CreepJob::DistributeEnergy(DistributeEnergyState::Entry)
            }
        },
        CreepJob::Harvest(s) => {
            if s is Done {
                CreepJob::Idle
            } else {
                j
            }
        },
        CreepJob::DistributeEnergy(s) => {
            if s is Done {
                CreepJob::Idle
            } else {
                j
            }
        },
    }
}

/// Assigns or clears one unit's job.
pub fn assign_job(state: &mut CreepState, view: &CreepView)
    ensures
        final(state).build == old(state).build,
        final(state).job == assigned_job(old(state).job, view.energy_free, view.energy_used),
{
    let finished = match &state.job {
        CreepJob::Idle => false,
        CreepJob::Harvest(s) => s.finished(),
        CreepJob::DistributeEnergy(s) => s.finished(),
    };
    let idle = match &state.job {
        CreepJob::Idle => true,
        _ => false,
    };
    if idle {
        if view.energy_free >= view.energy_used {
            state.job = CreepJob::Harvest(HarvestState::default());
        } else {
            state.job = CreepJob::DistributeEnergy(DistributeEnergyState::default());
        }
    } else if finished {
        state.job = CreepJob::Idle;
    }
}

/// Assigns jobs to idle units and clears finished ones; `views[i]` is what
/// the snapshot shows of unit `i`.
pub fn creep_strategy(creep_pairs: &mut Vec<CreepState>, views: &Vec<CreepView>)
    requires
        old(creep_pairs)@.len() == views@.len(),
    ensures
        final(creep_pairs)@.len() == old(creep_pairs)@.len(),
        forall|i: int|
            0 <= i < views@.len() ==> (#[trigger] final(creep_pairs)@[i]).build == old(creep_pairs)@[i].build
                && final(creep_pairs)@[i].job == assigned_job(
                old(creep_pairs)@[i].job,
                views@[i].energy_free,
                views@[i].energy_used,
            ),
{
    let ghost before = creep_pairs@;
    let mut i: usize = 0;
    while i < creep_pairs.len()
        invariant
            creep_pairs@.len() == before.len(),
            before.len() == views@.len(),
            0 <= i <= before.len(),
            forall|m: int|
                0 <= m < i ==> (#[trigger] creep_pairs@[m]).build == before[m].build
                    && creep_pairs@[m].job == assigned_job(
                    before[m].job,
                    views@[m].energy_free,
                    views@[m].energy_used,
                ),
            forall|m: int| i <= m < before.len() ==> #[trigger] creep_pairs@[m] == before[m],
        decreases before.len() - i,
    {
        assign_job(&mut creep_pairs[i], &views[i]);
        i = i + 1;
    }
}

/// One tick of strategy: counts the population, decides each spawn
/// structure's request from that count, then assigns and clears jobs.
pub fn execute_strategy(
    creep_pairs: &mut Vec<CreepState>,
    views: &Vec<CreepView>,
    spawns: &Vec<SpawnView>,
    tiers: &Vec<SpawnTier>,
) -> (r: Vec<Option<CreepBuild>>)
    requires
        old(creep_pairs)@.len() == views@.len(),
        tiers_wf(tiers_view(tiers@)),
    ensures
        r@.len() == spawns@.len(),
        exists|census: Census|
            census.wf() && census.counts(old(creep_pairs)@) && forall|k: int|
                0 <= k < spawns@.len() ==> #[trigger] r@[k] == spawn_request(
                    tiers_view(tiers@),
                    census.by_build@,
                    spawns@[k].level,
                    spawns@[k].energy_capacity,
                ),
        final(creep_pairs)@.len() == old(creep_pairs)@.len(),
        forall|i: int|
            0 <= i < views@.len() ==> (#[trigger] final(creep_pairs)@[i]).build == old(creep_pairs)@[i].build
                && final(creep_pairs)@[i].job == assigned_job(
                old(creep_pairs)@[i].job,
                views@[i].energy_free,
                views@[i].energy_used,
            ),
{
    let census = Census::of(creep_pairs);
    let requests = spawner_strategy(tiers, &census, spawns);
    creep_strategy(creep_pairs, views);
    requests
}

/// Drives every unit's job one step. `codes[i]` is the outcome of the action
/// that unit `i`'s job asked for (not read when it asked for none). Each
/// unit's step depends on its own state, view and outcome alone: a failure of
/// one unit leaves the others driven as usual.
pub fn drive_creeps(creep_pairs: &mut Vec<CreepState>, views: &Vec<CreepView>, codes: &Vec<ReturnCode>) -> (r: Vec<Result<Command, Error>>)
    requires
        old(creep_pairs)@.len() == views@.len(),
        codes@.len() == views@.len(),
    ensures
        r@.len() == views@.len(),
        final(creep_pairs)@.len() == old(creep_pairs)@.len(),
        forall|i: int|
            0 <= i < views@.len() ==> (#[trigger] final(creep_pairs)@[i]).build == old(creep_pairs)@[i].build
                && (final(creep_pairs)@[i].job, r@[i]) == job_step(old(creep_pairs)@[i].job, views@[i], codes@[i]),
{
    let ghost before = creep_pairs@;
    let mut out: Vec<Result<Command, Error>> = Vec::new();
    let mut i: usize = 0;
    while i < creep_pairs.len()
        invariant
            creep_pairs@.len() == before.len(),
            before.len() == views@.len(),
            codes@.len() == views@.len(),
            0 <= i <= before.len(),
            out@.len() == i,
            forall|m: int|
                0 <= m < i ==> (#[trigger] creep_pairs@[m]).build == before[m].build
                    && (creep_pairs@[m].job, out@[m]) == job_step(before[m].job, views@[m], codes@[m]),
            forall|m: int| i <= m < before.len() ==> #[trigger] creep_pairs@[m] == before[m],
        decreases before.len() - i,
    {
        let res = drive_one(&mut creep_pairs[i], &views[i], codes[i]);
        out.push(res);
        i = i + 1;
    }
    out
}

fn drive_one(state: &mut CreepState, view: &CreepView, code: ReturnCode) -> (r: Result<Command, Error>)
    ensures
        final(state).build == old(state).build,
        (final(state).job, r) == job_step(old(state).job, *view, code),
{
    state.job.drive(view, code)
}

/// More energy capacity never selects a cheaper tier: in a room of the same
/// level, the first tier admitted at a larger capacity costs at least as much.
pub proof fn lemma_tier_monotone(t: Seq<TierView>, level: u8, c1: u32, c2: u32, i: int, j: int)
    requires
        c1 <= c2,
        is_first_fit(t, level, c1, i),
        is_first_fit(t, level, c2, j),
    ensures
        t[j].max_cost >= t[i].max_cost,
{
    assert(tier_fits(t[i], level, c2));
    if j > i {
        assert(!tier_fits(t[i], level, c2));
    }
}

/// In the spawn table, the first tier a room admits is the costliest one it admits.
pub proof fn lemma_standard_tier_is_richest(level: u8, capacity: u32, i: int, k: int)
    requires
        is_first_fit(standard_tiers(), level, capacity, i),
        0 <= k < standard_tiers().len(),
        tier_fits(standard_tiers()[k], level, capacity),
    ensures
        standard_tiers()[k].max_cost <= standard_tiers()[i].max_cost,
{
    let t = standard_tiers();
    if k < i {
        assert(!tier_fits(t[k], level, capacity));
    }
}

/// At or above the population cap, no spawn request is issued, whatever the
/// deficit ratios.
pub proof fn lemma_cap_blocks_spawn(t: Seq<TierView>, counts: Seq<usize>, level: u8, capacity: u32, i: int)
    requires
        is_first_fit(t, level, capacity, i),
        world_total(t[i].recipe, counts) >= population_cap(level),
    ensures
        spawn_request(t, counts, level, capacity) is None,
{
    let c = choose|k: int| is_first_fit(t, level, capacity, k);
    lemma_first_fit_unique(t, level, capacity, c, i);
}

} // verus!
