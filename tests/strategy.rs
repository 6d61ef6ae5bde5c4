use creep_core::builds::CreepBuild;
use creep_core::census::Census;
use creep_core::error::Error;
use creep_core::jobs::{Command, CreepJob, CreepView, DistributeEnergyState, HarvestState, JobKind, ReturnCode, RoomView};
use creep_core::strategy::{
    assign_job, choose_build, drive_creeps, execute_strategy, select_tier, spawn_choice, spawner_strategy,
    spawner_tiers, total_in_world, SpawnView,
};
use creep_core::structures::{CreepState, CreepTarget};

fn view(free: u32, used: u32) -> CreepView {
    CreepView {
        has_position: true,
        room: Some(RoomView { energy_available: 300, energy_capacity: 300, has_controller: true }),
        energy_free: free,
        energy_used: used,
        nearest_source: Some(CreepTarget::from_id("source1".to_string())),
        nearest_store: None,
        has_sites: false,
        nearest_site: None,
        target_live: true,
    }
}

fn units(builds: &[CreepBuild]) -> Vec<CreepState> {
    builds.iter().map(|b| CreepState::new(*b, CreepJob::Idle)).collect()
}

#[test]
fn tier_table_sorted() {
    let t = spawner_tiers();
    assert_eq!(t.len(), 3);
    assert_eq!((t[0].min_level, t[0].max_cost), (2, 550));
    assert_eq!((t[1].min_level, t[1].max_cost), (2, 300));
    assert_eq!((t[2].min_level, t[2].max_cost), (1, 200));
    assert_eq!(t[0].recipe, vec![(CreepBuild::Worker2_2, 1)]);
}

#[test]
fn tier_selection() {
    let t = spawner_tiers();
    assert_eq!(select_tier(&t, 1, 1000), Some(2));
    assert_eq!(select_tier(&t, 2, 550), Some(0));
    assert_eq!(select_tier(&t, 2, 549), Some(1));
    assert_eq!(select_tier(&t, 2, 300), Some(1));
    assert_eq!(select_tier(&t, 2, 250), Some(2));
    assert_eq!(select_tier(&t, 8, 199), None);
    assert_eq!(select_tier(&t, 0, 1000), None);
}

#[test]
fn tier_selection_monotone_in_capacity() {
    let t = spawner_tiers();
    let mut last = 0;
    for cap in [200u32, 299, 300, 420, 549, 550, 5000] {
        let i = select_tier(&t, 2, cap).unwrap();
        assert!(t[i].max_cost >= last);
        last = t[i].max_cost;
    }
}

#[test]
fn census_counts() {
    let mut s = units(&[CreepBuild::Worker1_1, CreepBuild::Worker2_1, CreepBuild::Worker1_1]);
    s[1].job = CreepJob::Harvest(HarvestState::Entry);
    let c = Census::of(&s);
    assert_eq!(c.build_count(CreepBuild::Worker1_1), 2);
    assert_eq!(c.build_count(CreepBuild::Worker2_1), 1);
    assert_eq!(c.build_count(CreepBuild::Worker2_2), 0);
    assert_eq!(c.job_count(JobKind::Idle), 2);
    assert_eq!(c.job_count(JobKind::Harvest), 1);
    assert_eq!(c.job_count(JobKind::DistributeEnergy), 0);
    let empty = Census::of(&vec![]);
    assert_eq!(empty.by_build, vec![0, 0, 0]);
}

#[test]
fn recipe_fairness() {
    let recipe = vec![(CreepBuild::Worker1_1, 1u16), (CreepBuild::Worker2_1, 3u16)];
    // one of each: the build weighted three times is under-represented
    assert_eq!(choose_build(&recipe, &vec![1, 1, 0]), Some(1));
    // nobody yet: the first entry bootstraps
    assert_eq!(choose_build(&recipe, &vec![0, 0, 0]), Some(0));
    // exact shares tie: the first entry
    assert_eq!(choose_build(&recipe, &vec![1, 3, 0]), Some(0));
    assert_eq!(choose_build(&recipe, &vec![1, 4, 0]), Some(0));
    assert_eq!(choose_build(&recipe, &vec![2, 3, 0]), Some(1));
    assert_eq!(choose_build(&vec![], &vec![1, 1, 1]), None);
}

#[test]
fn world_total_counts_recipe_builds() {
    let c = Census::of(&units(&[CreepBuild::Worker1_1, CreepBuild::Worker2_1, CreepBuild::Worker2_2, CreepBuild::Worker2_2]));
    assert_eq!(total_in_world(&vec![(CreepBuild::Worker2_2, 1)], &c), 2);
    assert_eq!(total_in_world(&vec![(CreepBuild::Worker1_1, 1), (CreepBuild::Worker2_1, 2)], &c), 2);
}

#[test]
fn spawn_under_cap() {
    let t = spawner_tiers();
    let c = Census::of(&units(&[CreepBuild::Worker1_1; 4]));
    assert_eq!(spawn_choice(&t, &c, 1, 300), Some(CreepBuild::Worker1_1));
    assert_eq!(spawn_choice(&t, &c, 2, 300), Some(CreepBuild::Worker2_1));
    assert_eq!(spawn_choice(&t, &c, 3, 800), Some(CreepBuild::Worker2_2));
    assert_eq!(spawn_choice(&t, &c, 0, 800), None);
}

#[test]
fn population_cap_enforced() {
    let t = spawner_tiers();
    let five = Census::of(&units(&[CreepBuild::Worker1_1; 5]));
    assert_eq!(spawn_choice(&t, &five, 1, 300), None);
    let nine = Census::of(&units(&[CreepBuild::Worker2_2; 9]));
    assert_eq!(spawn_choice(&t, &nine, 2, 600), Some(CreepBuild::Worker2_2));
    let ten = Census::of(&units(&[CreepBuild::Worker2_2; 10]));
    assert_eq!(spawn_choice(&t, &ten, 2, 600), None);
    // other builds do not count against this tier's recipe
    assert_eq!(spawn_choice(&t, &ten, 2, 300), Some(CreepBuild::Worker2_1));
}

#[test]
fn spawns_decided_independently() {
    let t = spawner_tiers();
    let c = Census::of(&units(&[CreepBuild::Worker1_1; 5]));
    let spawns = vec![
        SpawnView { level: 1, energy_capacity: 300 },
        SpawnView { level: 2, energy_capacity: 300 },
    ];
    assert_eq!(spawner_strategy(&t, &c, &spawns), vec![None, Some(CreepBuild::Worker2_1)]);
}

#[test]
fn job_assignment() {
    let mut a = CreepState::new(CreepBuild::Worker1_1, CreepJob::Idle);
    assign_job(&mut a, &view(5, 3));
    assert!(matches!(a.job, CreepJob::Harvest(HarvestState::Entry)));
    let mut b = CreepState::new(CreepBuild::Worker1_1, CreepJob::Idle);
    assign_job(&mut b, &view(2, 5));
    assert!(matches!(b.job, CreepJob::DistributeEnergy(DistributeEnergyState::Entry)));
    let mut e = CreepState::new(CreepBuild::Worker1_1, CreepJob::Idle);
    assign_job(&mut e, &view(4, 4));
    assert!(matches!(e.job, CreepJob::Harvest(_)));
    let mut d = CreepState::new(CreepBuild::Worker2_1, CreepJob::Harvest(HarvestState::Done));
    assign_job(&mut d, &view(0, 50));
    assert!(matches!(d.job, CreepJob::Idle));
    assert_eq!(d.build, CreepBuild::Worker2_1);
    let mut m = CreepState::new(CreepBuild::Worker2_1, CreepJob::DistributeEnergy(DistributeEnergyState::Upgrading));
    assign_job(&mut m, &view(50, 0));
    assert!(matches!(m.job, CreepJob::DistributeEnergy(DistributeEnergyState::Upgrading)));
}

#[test]
fn strategy_tick() {
    let t = spawner_tiers();
    let mut s = units(&[CreepBuild::Worker1_1, CreepBuild::Worker1_1]);
    s[1].job = CreepJob::DistributeEnergy(DistributeEnergyState::Done);
    let views = vec![view(5, 3), view(0, 50)];
    let spawns = vec![SpawnView { level: 1, energy_capacity: 300 }];
    let req = execute_strategy(&mut s, &views, &spawns, &t);
    assert_eq!(req, vec![Some(CreepBuild::Worker1_1)]);
    assert!(matches!(s[0].job, CreepJob::Harvest(HarvestState::Entry)));
    assert!(matches!(s[1].job, CreepJob::Idle));
}

#[test]
fn failure_of_one_unit_is_isolated() {
    let mut s = vec![
        CreepState::new(CreepBuild::Worker1_1, CreepJob::Harvest(HarvestState::Harvesting(CreepTarget::from_id("a".to_string())))),
        CreepState::new(CreepBuild::Worker1_1, CreepJob::Harvest(HarvestState::Entry)),
        CreepState::new(CreepBuild::Worker1_1, CreepJob::Harvest(HarvestState::Harvesting(CreepTarget::from_id("b".to_string())))),
    ];
    let views = vec![view(10, 0), view(10, 0), view(10, 0)];
    let codes = vec![ReturnCode::Other(-42), ReturnCode::Success, ReturnCode::NotEnough];
    let r = drive_creeps(&mut s, &views, &codes);
    assert_eq!(r.len(), 3);
    assert!(matches!(r[0], Err(Error::UnhandledErrorCode(ReturnCode::Other(-42)))));
    assert!(matches!(r[1], Ok(Command::Say(_))));
    assert!(matches!(r[2], Ok(Command::Nothing)));
    assert!(matches!(s[0].job, CreepJob::Harvest(HarvestState::Harvesting(_))));
    assert!(matches!(s[1].job, CreepJob::Harvest(HarvestState::Harvesting(_))));
    assert!(matches!(s[2].job, CreepJob::Harvest(HarvestState::Entry)));
}
