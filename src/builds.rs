use vstd::prelude::*;

use crate::structures::CreepParts;

verus! {

/// A kind of body part a worker unit can be built from.
#[derive(Clone, Copy, PartialEq, Eq, Structural, Debug, Hash)]
pub enum Part {
    Move,
    Work,
    Carry,
    Attack,
    RangedAttack,
    Tough,
    Heal,
    Claim,
}

/// Energy needed to build one part of the given kind.
pub open spec fn part_cost(p: Part) -> nat {
    match p {
        Part::Move => 50,
        Part::Work => 100,
        Part::Carry => 50,
        Part::Attack => 80,
        Part::RangedAttack => 150,
        Part::Tough => 10,
        Part::Heal => 250,
        Part::Claim => 600,
    }
}

impl Part {
    pub fn cost(self) -> (r: u32)
        ensures
            r == part_cost(self),
    {
        match self {
            Part::Move => 50,
            Part::Work => 100,
            Part::Carry => 50,
            Part::Attack => 80,
            Part::RangedAttack => 150,
            Part::Tough => 10,
            Part::Heal => 250,
            Part::Claim => 600,
        }
    }
}

/// The closed set of worker unit compositions.
#[derive(Clone, Copy, PartialEq, Eq, Structural, Debug, Hash)]
pub enum CreepBuild {
    Worker1_1,
    Worker2_1,
    Worker2_2,
}

/// The part counts of each build, in a fixed order.
pub open spec fn build_parts(b: CreepBuild) -> Seq<(Part, u8)> {
    match b {
        CreepBuild::Worker1_1 => seq![(Part::Move, 1u8), (Part::Work, 1u8), (Part::Carry, 1u8)],
        CreepBuild::Worker2_1 => seq![(Part::Move, 2u8), (Part::Work, 1u8), (Part::Carry, 2u8)],
        CreepBuild::Worker2_2 => seq![(Part::Move, 3u8), (Part::Work, 2u8), (Part::Carry, 4u8)],
    }
}

impl CreepBuild {
    /// The composition of this build.
    pub fn parts(&self) -> (r: CreepParts)
        ensures
            r.0@ == build_parts(*self),
            r.wf(),
    {
        let v = match self {
            CreepBuild::Worker1_1 => vec![(Part::Move, 1u8), (Part::Work, 1u8), (Part::Carry, 1u8)],
            CreepBuild::Worker2_1 => vec![(Part::Move, 2u8), (Part::Work, 1u8), (Part::Carry, 2u8)],
            CreepBuild::Worker2_2 => vec![(Part::Move, 3u8), (Part::Work, 2u8), (Part::Carry, 4u8)],
        };
        let r = CreepParts(v);
        assert(r.0@ == build_parts(*self));
        r
    }

    /// The name of this build.
    pub fn name(&self) -> (r: &'static str)
        ensures
            r@ == build_name(*self),
    {
        match self {
            CreepBuild::Worker1_1 => "Worker1_1",
            CreepBuild::Worker2_1 => "Worker2_1",
            CreepBuild::Worker2_2 => "Worker2_2",
        }
    }
}

pub open spec fn build_name(b: CreepBuild) -> Seq<char> {
    match b {
        CreepBuild::Worker1_1 => "Worker1_1"@,
        CreepBuild::Worker2_1 => "Worker2_1"@,
        CreepBuild::Worker2_2 => "Worker2_2"@,
    }
}

} // verus!
