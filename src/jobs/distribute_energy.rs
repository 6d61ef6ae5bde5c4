use vstd::prelude::*;

use crate::error::Error;
use crate::jobs::{basic_requirements, Action, Announcement, Command, CreepView, Job, ReturnCode};
use crate::structures::{CreepParts, CreepTarget};

verus! {

/// Sub-states of the energy distribution task.
#[derive(Debug)]
pub enum DistributeEnergyState {
    Entry,
    Distributing(CreepTarget),
    Building(CreepTarget),
    Upgrading,
    Done,
}

/// The priority decision made on entry: refill storage while the room is
/// short of energy, else build, else upgrade the controller, else finish.
pub open spec fn distribute_entry(s: DistributeEnergyState, v: CreepView) -> (DistributeEnergyState, Result<Command, Error>) {
    if !v.has_position {
        (s, Err(Error::Unknown))
    } else {
        match v.room {
            None => (s, Err(Error::Unknown)),
            Some(room) => {
                if room.energy_available < room.energy_capacity {
                    match v.nearest_store {
                        None => (s, Err(Error::NoneFound)),
                        Some(t) => (DistributeEnergyState::Distributing(t), Ok(Command::Say(Announcement::Distribute))),
                    }
                } else if v.has_sites {
                    match v.nearest_site {
                        None => (s, Err(Error::NoneFound)),
                        Some(t) => (DistributeEnergyState::Building(t), Ok(Command::Say(Announcement::Build))),
                    }
                } else if room.has_controller {
                    (DistributeEnergyState::Upgrading, Ok(Command::Say(Announcement::Upgrade)))
                } else {
                    (DistributeEnergyState::Done, Ok(Command::Nothing))
                }
            },
        }
    }
}

/// One tick of the distribution task: the next sub-state and the result.
/// A failure leaves the sub-state as it was.
pub open spec fn distribute_step(s: DistributeEnergyState, v: CreepView, code: ReturnCode) -> (DistributeEnergyState, Result<Command, Error>) {
    match s {
        DistributeEnergyState::Entry => distribute_entry(s, v),
        DistributeEnergyState::Distributing(_) => {
            if v.energy_used == 0 {
                (DistributeEnergyState::Done, Ok(Command::Nothing))
            } else if !v.target_live {
                (DistributeEnergyState::Entry, Ok(Command::Nothing))
            } else {
                match code {
                    ReturnCode::Success => (s, Ok(Command::Nothing)),
                    ReturnCode::NotInRange => (s, Ok(Command::MoveToTarget)),
                    ReturnCode::Full => (DistributeEnergyState::Entry, Ok(Command::Nothing)),
                    _ => (s, Err(Error::UnhandledErrorCode(code))),
                }
            }
        },
        DistributeEnergyState::Building(_) => {
            if v.energy_used == 0 {
                (DistributeEnergyState::Done, Ok(Command::Nothing))
            } else if !v.target_live {
                (DistributeEnergyState::Entry, Ok(Command::Nothing))
            } else {
                match code {
                    ReturnCode::Success => (s, Ok(Command::Nothing)),
                    ReturnCode::NotInRange => (s, Ok(Command::MoveToTarget)),
                    _ => (s, Err(Error::UnhandledErrorCode(code))),
                }
            }
        },
        DistributeEnergyState::Upgrading => {
            if v.energy_used == 0 {
                (DistributeEnergyState::Done, Ok(Command::Nothing))
            } else {
                match v.room {
                    None => (s, Err(Error::Unknown)),
                    Some(room) => {
                        if !room.has_controller {
                            (s, Err(Error::Unknown))
                        } else {
                            match code {
                                ReturnCode::Success => (s, Ok(Command::Nothing)),
                                ReturnCode::NotInRange => (s, Ok(Command::MoveToController)),
                                _ => (s, Err(Error::UnhandledErrorCode(code))),
                            }
                        }
                    },
                }
            }
        },
        DistributeEnergyState::Done => (s, Ok(Command::Nothing)),
    }
}

/// The action asked for this tick: transfer, build or upgrade while carrying
/// energy and, where a target is held, while it resolves.
pub open spec fn distribute_action(s: DistributeEnergyState, v: CreepView) -> Option<Action> {
    match s {
        DistributeEnergyState::Distributing(_) => {
            if v.energy_used != 0 && v.target_live {
                Some(Action::Transfer)
            } else {
                None
            }
        },
        DistributeEnergyState::Building(_) => {
            if v.energy_used != 0 && v.target_live {
                Some(Action::Build)
            } else {
                None
            }
        },
        DistributeEnergyState::Upgrading => {
            if v.energy_used != 0 && v.room is Some && v.room->Some_0.has_controller {
                Some(Action::UpgradeController)
            } else {
                None
            }
        },
        _ => None,
    }
}

impl DistributeEnergyState {
    pub fn default() -> (r: Self)
        ensures
            r == DistributeEnergyState::Entry,
    {
        DistributeEnergyState::Entry
    }

    pub fn next_action(&self, view: &CreepView) -> (r: Option<Action>)
        ensures
            r == distribute_action(*self, *view),
    {
        match self {
            DistributeEnergyState::Distributing(_) => {
                if view.energy_used != 0 && view.target_live {
                    Some(Action::Transfer)
                } else {
                    None
                }
            },
            DistributeEnergyState::Building(_) => {
                if view.energy_used != 0 && view.target_live {
                    Some(Action::Build)
                } else {
                    None
                }
            },
            DistributeEnergyState::Upgrading => {
                match view.room {
                    Some(room) => {
                        if view.energy_used != 0 && room.has_controller {
                            Some(Action::UpgradeController)
                        } else {
                            None
                        }
                    },
                    None => None,
                }
            },
            _ => None,
        }
    }

    fn enter(&mut self, view: &CreepView) -> (r: Result<Command, Error>)
        requires
            *old(self) is Entry,
        ensures
            (*final(self), r) == distribute_entry(*old(self), *view),
    {
        if !view.has_position {
            return Err(Error::Unknown);
        }
        let room = match view.room {
            None => {
                return Err(Error::Unknown);
            },
            Some(room) => room,
        };
        if room.energy_available < room.energy_capacity {
            match &view.nearest_store {
                None => Err(Error::NoneFound),
                Some(t) => {
                    *self = DistributeEnergyState::Distributing(t.clone());
                    Ok(Command::Say(Announcement::Distribute))
                },
            }
        } else if view.has_sites {
            match &view.nearest_site {
                None => Err(Error::NoneFound),
                Some(t) => {
                    *self = DistributeEnergyState::Building(t.clone());
                    Ok(Command::Say(Announcement::Build))
                },
            }
        } else if room.has_controller {
            *self = DistributeEnergyState::Upgrading;
            Ok(Command::Say(Announcement::Upgrade))
        } else {
            *self = DistributeEnergyState::Done;
            Ok(Command::Nothing)
        }
    }

    pub fn drive(&mut self, view: &CreepView, code: ReturnCode) -> (r: Result<Command, Error>)
        ensures
            (*final(self), r) == distribute_step(*old(self), *view, code),
    {
        let stage: u8 = match self {
            DistributeEnergyState::Entry => 0,
            DistributeEnergyState::Distributing(_) => 1,
            DistributeEnergyState::Building(_) => 2,
            DistributeEnergyState::Upgrading => 3,
            DistributeEnergyState::Done => 4,
        };
        if stage == 4 {
            return Ok(Command::Nothing);
        }
        if stage == 0 {
            return self.enter(view);
        }
        if view.energy_used == 0 {
            *self = DistributeEnergyState::Done;
            return Ok(Command::Nothing);
        }
        if stage == 3 {
            let has_controller = match view.room {
                None => false,
                Some(room) => room.has_controller,
            };
            if !has_controller {
                return Err(Error::Unknown);
            }
            return match code {
                ReturnCode::Success => Ok(Command::Nothing),
                ReturnCode::NotInRange => Ok(Command::MoveToController),
                _ => Err(Error::UnhandledErrorCode(code)),
            };
        }
        if !view.target_live {
            *self = DistributeEnergyState::Entry;
            return Ok(Command::Nothing);
        }
        match code {
            ReturnCode::Success => Ok(Command::Nothing),
            ReturnCode::NotInRange => Ok(Command::MoveToTarget),
            ReturnCode::Full => {
                if stage == 1 {
                    *self = DistributeEnergyState::Entry;
                    Ok(Command::Nothing)
                } else {
                    Err(Error::UnhandledErrorCode(code))
                }
            },
            _ => Err(Error::UnhandledErrorCode(code)),
        }
    }
}

impl Job for DistributeEnergyState {
    open spec fn is_finished(&self) -> bool {
        *self is Done
    }

    fn finished(&self) -> (r: bool) {
        match self {
            DistributeEnergyState::Done => true,
            _ => false,
        }
    }

    fn min_required(&self) -> (r: CreepParts) {
        basic_requirements()
    }
}

} // verus!
