use vstd::prelude::*;

use crate::error::Error;
use crate::jobs::{basic_requirements, Action, Announcement, Command, CreepView, Job, ReturnCode};
use crate::structures::{CreepParts, CreepTarget};

verus! {

/// Sub-states of the harvesting task.
#[derive(Debug)]
pub enum HarvestState {
    Entry,
    Harvesting(CreepTarget),
    Done,
}

/// One tick of the harvesting task: the next sub-state and the result.
/// A failure leaves the sub-state as it was.
pub open spec fn harvest_step(s: HarvestState, v: CreepView, code: ReturnCode) -> (HarvestState, Result<Command, Error>) {
    match s {
        HarvestState::Entry => {
            if !v.has_position {
                (s, Err(Error::Unknown))
            } else {
                match v.nearest_source {
                    None => (s, Err(Error::NoneFound)),
                    Some(t) => (HarvestState::Harvesting(t), Ok(Command::Say(Announcement::Harvest))),
                }
            }
        },
        HarvestState::Harvesting(_) => {
            if v.energy_free == 0 {
                (HarvestState::Done, Ok(Command::Nothing))
            } else if !v.target_live {
                (HarvestState::Entry, Ok(Command::Nothing))
            } else {
                match code {
                    ReturnCode::Success => (s, Ok(Command::Nothing)),
                    ReturnCode::NotInRange => (s, Ok(Command::MoveToTarget)),
                    ReturnCode::Busy => (s, Ok(Command::Nothing)),
                    ReturnCode::NotEnough => (HarvestState::Entry, Ok(Command::Nothing)),
                    _ => (s, Err(Error::UnhandledErrorCode(code))),
                }
            }
        },
        HarvestState::Done => (s, Ok(Command::Nothing)),
    }
}

/// The harvest action is asked for while harvesting with room to carry and a live target.
pub open spec fn harvest_action(s: HarvestState, v: CreepView) -> Option<Action> {
    match s {
        HarvestState::Harvesting(_) => {
            if v.energy_free != 0 && v.target_live {
                Some(Action::Harvest)
            } else {
                None
            }
        },
        _ => None,
    }
}

impl HarvestState {
    pub fn default() -> (r: Self)
        ensures
            r == HarvestState::Entry,
    {
        HarvestState::Entry
    }

    pub fn next_action(&self, view: &CreepView) -> (r: Option<Action>)
        ensures
            r == harvest_action(*self, *view),
    {
        match self {
            HarvestState::Harvesting(_) => {
                if view.energy_free != 0 && view.target_live {
                    Some(Action::Harvest)
                } else {
                    None
                }
            },
            _ => None,
        }
    }

    pub fn drive(&mut self, view: &CreepView, code: ReturnCode) -> (r: Result<Command, Error>)
        ensures
            (*final(self), r) == harvest_step(*old(self), *view, code),
    {
        let is_entry = match self {
            HarvestState::Entry => true,
            _ => false,
        };
        let is_done = match self {
            HarvestState::Done => true,
            _ => false,
        };
        if is_done {
            return Ok(Command::Nothing);
        }
        if is_entry {
            if !view.has_position {
                return Err(Error::Unknown);
            }
            match &view.nearest_source {
                None => Err(Error::NoneFound),
                Some(t) => {
                    *self = HarvestState::Harvesting(t.clone());
                    Ok(Command::Say(Announcement::Harvest))
                },
            }
        } else {
            if view.energy_free == 0 {
                *self = HarvestState::Done;
                return Ok(Command::Nothing);
            }
            if !view.target_live {
                *self = HarvestState::Entry;
                return Ok(Command::Nothing);
            }
            match code {
                ReturnCode::Success => Ok(Command::Nothing),
                ReturnCode::NotInRange => Ok(Command::MoveToTarget),
                ReturnCode::Busy => Ok(Command::Nothing),
                ReturnCode::NotEnough => {
                    *self = HarvestState::Entry;
                    Ok(Command::Nothing)
                },
                _ => Err(Error::UnhandledErrorCode(code)),
            }
        }
    }
}

impl Job for HarvestState {
    open spec fn is_finished(&self) -> bool {
        *self is Done
    }

    fn finished(&self) -> (r: bool) {
        match self {
            HarvestState::Done => true,
            _ => false,
        }
    }

    fn min_required(&self) -> (r: CreepParts) {
        basic_requirements()
    }
}

} // verus!
