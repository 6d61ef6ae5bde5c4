use creep_core::builds::{CreepBuild, Part};
use creep_core::error::Error;
use creep_core::jobs::{
    Action, Announcement, Command, CreepJob, CreepView, DistributeEnergyState, HarvestState, Job, JobKind,
    ReturnCode, RoomView,
};
use creep_core::structures::CreepTarget;

fn target(id: &str) -> CreepTarget {
    CreepTarget::from_id(id.to_string())
}

fn view() -> CreepView {
    CreepView {
        has_position: true,
        room: Some(RoomView { energy_available: 300, energy_capacity: 300, has_controller: true }),
        energy_free: 50,
        energy_used: 0,
        nearest_source: Some(target("source1")),
        nearest_store: Some(target("spawn1")),
        has_sites: false,
        nearest_site: None,
        target_live: true,
    }
}

#[test]
fn harvest_entry_takes_nearest_source() {
    let mut s = HarvestState::default();
    let r = s.drive(&view(), ReturnCode::Success);
    assert!(matches!(r, Ok(Command::Say(Announcement::Harvest))));
    match s {
        HarvestState::Harvesting(t) => assert_eq!(t.id(), "source1"),
        other => panic!("unexpected state {:?}", other),
    }
}

#[test]
fn harvest_entry_without_source_fails() {
    let mut s = HarvestState::Entry;
    let mut v = view();
    v.nearest_source = None;
    assert!(matches!(s.drive(&v, ReturnCode::Success), Err(Error::NoneFound)));
    assert!(matches!(s, HarvestState::Entry));
}

#[test]
fn harvest_entry_without_position_fails() {
    let mut s = HarvestState::Entry;
    let mut v = view();
    v.has_position = false;
    assert!(matches!(s.drive(&v, ReturnCode::Success), Err(Error::Unknown)));
}

#[test]
fn harvest_outcomes() {
    let v = view();
    let mut s = HarvestState::Harvesting(target("source1"));
    assert_eq!(s.next_action(&v), Some(Action::Harvest));
    assert!(matches!(s.drive(&v, ReturnCode::Success), Ok(Command::Nothing)));
    assert!(matches!(s, HarvestState::Harvesting(_)));
    assert!(matches!(s.drive(&v, ReturnCode::NotInRange), Ok(Command::MoveToTarget)));
    assert!(matches!(s, HarvestState::Harvesting(_)));
    assert!(matches!(s.drive(&v, ReturnCode::Busy), Ok(Command::Nothing)));
    assert!(matches!(s, HarvestState::Harvesting(_)));
    assert!(matches!(s.drive(&v, ReturnCode::Other(-7)), Err(Error::UnhandledErrorCode(ReturnCode::Other(-7)))));
    assert!(matches!(s, HarvestState::Harvesting(_)));
    assert!(matches!(s.drive(&v, ReturnCode::NotEnough), Ok(Command::Nothing)));
    assert!(matches!(s, HarvestState::Entry));
}

#[test]
fn harvest_full_unit_is_done() {
    let mut v = view();
    v.energy_free = 0;
    v.energy_used = 50;
    let mut s = HarvestState::Harvesting(target("source1"));
    assert_eq!(s.next_action(&v), None);
    assert!(matches!(s.drive(&v, ReturnCode::Other(-1)), Ok(Command::Nothing)));
    assert!(s.finished());
}

#[test]
fn harvest_with_empty_store_keeps_working() {
    // nothing carried, room left to carry: not done
    let mut v = view();
    v.energy_used = 0;
    v.energy_free = 50;
    let mut s = HarvestState::Harvesting(target("source1"));
    assert!(s.drive(&v, ReturnCode::Success).is_ok());
    assert!(!s.finished());
}

#[test]
fn lost_target_goes_back_to_entry() {
    let mut v = view();
    v.target_live = false;
    v.energy_used = 20;
    let mut h = HarvestState::Harvesting(target("gone"));
    assert_eq!(h.next_action(&v), None);
    assert!(matches!(h.drive(&v, ReturnCode::Other(-99)), Ok(Command::Nothing)));
    assert!(matches!(h, HarvestState::Entry));
    let mut d = DistributeEnergyState::Distributing(target("gone"));
    assert!(matches!(d.drive(&v, ReturnCode::Other(-99)), Ok(Command::Nothing)));
    assert!(matches!(d, DistributeEnergyState::Entry));
    let mut b = DistributeEnergyState::Building(target("gone"));
    assert!(matches!(b.drive(&v, ReturnCode::Other(-99)), Ok(Command::Nothing)));
    assert!(matches!(b, DistributeEnergyState::Entry));
}

#[test]
fn done_is_fixed() {
    let v = view();
    let mut j = CreepJob::Harvest(HarvestState::Done);
    for code in [ReturnCode::Success, ReturnCode::Other(-3), ReturnCode::NotEnough] {
        assert!(matches!(j.drive(&v, code), Ok(Command::Nothing)));
        assert!(matches!(j, CreepJob::Harvest(HarvestState::Done)));
    }
    let mut d = CreepJob::DistributeEnergy(DistributeEnergyState::Done);
    for _ in 0..3 {
        assert!(matches!(d.drive(&v, ReturnCode::Full), Ok(Command::Nothing)));
        assert!(matches!(d, CreepJob::DistributeEnergy(DistributeEnergyState::Done)));
    }
}

#[test]
fn distribute_entry_priorities() {
    let mut v = view();
    v.energy_used = 50;
    // short of energy: refill storage
    v.room = Some(RoomView { energy_available: 100, energy_capacity: 300, has_controller: true });
    let mut s = DistributeEnergyState::Entry;
    assert!(matches!(s.drive(&v, ReturnCode::Success), Ok(Command::Say(Announcement::Distribute))));
    match &s {
        DistributeEnergyState::Distributing(t) => assert_eq!(t.id(), "spawn1"),
        other => panic!("unexpected state {:?}", other),
    }
    // full room with sites: build
    v.room = Some(RoomView { energy_available: 300, energy_capacity: 300, has_controller: true });
    v.has_sites = true;
    v.nearest_site = Some(target("site1"));
    let mut s = DistributeEnergyState::Entry;
    assert!(matches!(s.drive(&v, ReturnCode::Success), Ok(Command::Say(Announcement::Build))));
    assert!(matches!(s, DistributeEnergyState::Building(_)));
    // nothing to build: upgrade
    v.has_sites = false;
    v.nearest_site = None;
    let mut s = DistributeEnergyState::Entry;
    assert!(matches!(s.drive(&v, ReturnCode::Success), Ok(Command::Say(Announcement::Upgrade))));
    assert!(matches!(s, DistributeEnergyState::Upgrading));
    // no controller: done
    v.room = Some(RoomView { energy_available: 300, energy_capacity: 300, has_controller: false });
    let mut s = DistributeEnergyState::Entry;
    assert!(matches!(s.drive(&v, ReturnCode::Success), Ok(Command::Nothing)));
    assert!(s.finished());
}

#[test]
fn distribute_entry_failures() {
    let mut v = view();
    v.energy_used = 50;
    v.room = Some(RoomView { energy_available: 100, energy_capacity: 300, has_controller: true });
    v.nearest_store = None;
    let mut s = DistributeEnergyState::Entry;
    assert!(matches!(s.drive(&v, ReturnCode::Success), Err(Error::NoneFound)));
    assert!(matches!(s, DistributeEnergyState::Entry));
    v.room = Some(RoomView { energy_available: 300, energy_capacity: 300, has_controller: true });
    v.has_sites = true;
    v.nearest_site = None;
    assert!(matches!(s.drive(&v, ReturnCode::Success), Err(Error::NoneFound)));
    v.room = None;
    assert!(matches!(s.drive(&v, ReturnCode::Success), Err(Error::Unknown)));
}

#[test]
fn distribute_outcomes() {
    let mut v = view();
    v.energy_used = 50;
    let mut s = DistributeEnergyState::Distributing(target("spawn1"));
    assert_eq!(s.next_action(&v), Some(Action::Transfer));
    assert!(matches!(s.drive(&v, ReturnCode::NotInRange), Ok(Command::MoveToTarget)));
    assert!(matches!(s.drive(&v, ReturnCode::Success), Ok(Command::Nothing)));
    assert!(matches!(s.drive(&v, ReturnCode::Busy), Err(Error::UnhandledErrorCode(ReturnCode::Busy))));
    assert!(matches!(s.drive(&v, ReturnCode::Full), Ok(Command::Nothing)));
    assert!(matches!(s, DistributeEnergyState::Entry));

    let mut b = DistributeEnergyState::Building(target("site1"));
    assert_eq!(b.next_action(&v), Some(Action::Build));
    assert!(matches!(b.drive(&v, ReturnCode::Full), Err(Error::UnhandledErrorCode(ReturnCode::Full))));
    assert!(matches!(b, DistributeEnergyState::Building(_)));

    let mut u = DistributeEnergyState::Upgrading;
    assert_eq!(u.next_action(&v), Some(Action::UpgradeController));
    assert!(matches!(u.drive(&v, ReturnCode::NotInRange), Ok(Command::MoveToController)));
    assert!(matches!(u.drive(&v, ReturnCode::NotEnough), Err(Error::UnhandledErrorCode(ReturnCode::NotEnough))));
    v.room = Some(RoomView { energy_available: 0, energy_capacity: 300, has_controller: false });
    assert!(matches!(u.drive(&v, ReturnCode::Success), Err(Error::Unknown)));
}

#[test]
fn distribute_empty_unit_is_done() {
    let mut v = view();
    v.energy_used = 0;
    for mut s in [
        DistributeEnergyState::Distributing(target("a")),
        DistributeEnergyState::Building(target("b")),
        DistributeEnergyState::Upgrading,
    ] {
        assert!(matches!(s.drive(&v, ReturnCode::Other(-12)), Ok(Command::Nothing)));
        assert!(s.finished());
    }
}

#[test]
fn outcome_codes_classified() {
    assert_eq!(ReturnCode::from_code(0), ReturnCode::Success);
    assert_eq!(ReturnCode::from_code(-4), ReturnCode::Busy);
    assert_eq!(ReturnCode::from_code(-6), ReturnCode::NotEnough);
    assert_eq!(ReturnCode::from_code(-8), ReturnCode::Full);
    assert_eq!(ReturnCode::from_code(-9), ReturnCode::NotInRange);
    assert_eq!(ReturnCode::from_code(-7), ReturnCode::Other(-7));
}

#[test]
fn job_equality_by_tag() {
    let a = CreepJob::Harvest(HarvestState::Entry);
    let b = CreepJob::Harvest(HarvestState::Harvesting(target("x")));
    assert!(a == b);
    assert!(a != CreepJob::DistributeEnergy(DistributeEnergyState::Entry));
    assert_eq!(CreepJob::Idle.kind(), JobKind::Idle);
    assert_eq!(b.kind(), JobKind::Harvest);
}

#[test]
fn jobs_require_basic_parts() {
    let need = HarvestState::Entry.min_required();
    assert!(CreepBuild::Worker1_1.parts().fulfils_requirements(&need));
    let need2 = DistributeEnergyState::Entry.min_required();
    assert_eq!(need2.0, vec![(Part::Move, 1), (Part::Work, 1), (Part::Carry, 1)]);
}
