use vstd::prelude::*;

use crate::builds::{part_cost, CreepBuild, Part};
use crate::error::Error;
use crate::jobs::CreepJob;

verus! {

/// A composition: a count for each part kind it mentions.
#[derive(Debug)]
pub struct CreepParts(pub Vec<(Part, u8)>);

/// Each part kind occurs at most once.
pub open spec fn keys_unique(s: Seq<(Part, u8)>) -> bool {
    forall|i: int, j: int| 0 <= i < s.len() && 0 <= j < s.len() && i != j ==> s[i].0 != s[j].0
}

/// `have` holds at least the required count of every part kind that `need` lists.
pub open spec fn fulfils(have: Seq<(Part, u8)>, need: Seq<(Part, u8)>) -> bool {
    forall|i: int|
        0 <= i < need.len() ==> exists|j: int|
            0 <= j < have.len() && #[trigger] have[j].0 == (#[trigger] need[i]).0 && have[j].1 >= need[i].1
}

/// Total energy cost of a composition.
pub open spec fn parts_cost(s: Seq<(Part, u8)>) -> nat
    decreases s.len(),
{
    if s.len() == 0 {
        0
    } else {
        parts_cost(s.drop_last()) + part_cost(s.last().0) * (s.last().1 as nat)
    }
}

/// The body of a composition: each part repeated by its count, in order.
pub open spec fn parts_body(s: Seq<(Part, u8)>) -> Seq<Part>
    decreases s.len(),
{
    if s.len() == 0 {
        Seq::empty()
    } else {
        parts_body(s.drop_last()) + Seq::new(s.last().1 as nat, |k: int| s.last().0)
    }
}

proof fn lemma_cost_prefix(s: Seq<(Part, u8)>, i: int)
    requires
        0 <= i <= s.len(),
    ensures
        parts_cost(s.take(i)) <= parts_cost(s),
    decreases s.len() - i,
{
    if i < s.len() {
        lemma_cost_prefix(s, i + 1);
        assert(s.take(i + 1).drop_last() =~= s.take(i));
    } else {
        assert(s.take(i) =~= s);
    }
}

impl CreepParts {
    pub open spec fn wf(&self) -> bool {
        keys_unique(self.0@)
    }

    /// Whether this composition has at least the required count of every
    /// part kind in `requirements`; a required kind that is absent fails.
    pub fn fulfils_requirements(&self, requirements: &CreepParts) -> (r: bool)
        ensures
            r == fulfils(self.0@, requirements.0@),
    {
        let mut i: usize = 0;
        while i < requirements.0.len()
            invariant
                0 <= i <= requirements.0@.len(),
                fulfils(self.0@, requirements.0@.take(i as int)),
            decreases requirements.0@.len() - i,
        {
            let (part, required_num) = requirements.0[i];
            let mut j: usize = 0;
            let mut found = false;
            while j < self.0.len() && !found
                invariant
                    0 <= j <= self.0@.len(),
                    found ==> exists|k: int|
                        0 <= k < self.0@.len() && self.0@[k].0 == part && self.0@[k].1 >= required_num,
                    !found ==> forall|k: int|
                        0 <= k < j ==> !(self.0@[k].0 == part && self.0@[k].1 >= required_num),
                decreases self.0@.len() - j + (if found { 0int } else { 1int }),
            {
                let (p, num) = self.0[j];
                if p == part && num >= required_num {
                    found = true;
                } else {
                    j = j + 1;
                }
            }
            if !found {
                assert(!fulfils(self.0@, requirements.0@)) by {
                    assert(requirements.0@[i as int] == (part, required_num));
                }
                return false;
            }
            assert(fulfils(self.0@, requirements.0@.take(i as int + 1))) by {
                let need = requirements.0@.take(i as int + 1);
                assert forall|a: int| 0 <= a < need.len() implies exists|k: int|
                    0 <= k < self.0@.len() && #[trigger] self.0@[k].0 == (#[trigger] need[a]).0
                        && self.0@[k].1 >= need[a].1 by {
                    if a < i {
                        assert(need[a] == requirements.0@.take(i as int)[a]);
                    } else {
                        assert(need[a] == (part, required_num));
                    }
                }
            }
            i = i + 1;
        }
        assert(requirements.0@.take(i as int) =~= requirements.0@);
        true
    }

    /// Total energy cost of this composition.
    pub fn cost(&self) -> (r: u32)
        requires
            parts_cost(self.0@) <= u32::MAX,
        ensures
            r == parts_cost(self.0@),
    {
        let mut total: u32 = 0;
        let mut i: usize = 0;
        while i < self.0.len()
            invariant
                0 <= i <= self.0@.len(),
                total == parts_cost(self.0@.take(i as int)),
                parts_cost(self.0@) <= u32::MAX,
            decreases self.0@.len() - i,
        {
            let (part, count) = self.0[i];
            proof {
                assert(self.0@.take(i as int + 1).drop_last() =~= self.0@.take(i as int));
                lemma_cost_prefix(self.0@, i as int + 1);
                assert(part_cost(part) * (count as nat) <= 600 * 255) by (nonlinear_arith)
                    requires
                        part_cost(part) <= 600,
                        count <= 255;
            }
            total = total + part.cost() * (count as u32);
            i = i + 1;
        }
        assert(self.0@.take(i as int) =~= self.0@);
        total
    }

    /// The body to build: each part repeated by its count.
    pub fn to_array(&self) -> (r: Vec<Part>)
        ensures
            r@ == parts_body(self.0@),
    {
        let mut body: Vec<Part> = Vec::new();
        let mut i: usize = 0;
        while i < self.0.len()
            invariant
                0 <= i <= self.0@.len(),
                body@ == parts_body(self.0@.take(i as int)),
            decreases self.0@.len() - i,
        {
            let (part, count) = self.0[i];
            let ghost before = body@;
            let mut k: u8 = 0;
            while k < count
                invariant
                    k <= count,
                    body@ == before + Seq::new(k as nat, |x: int| part),
                decreases count - k,
            {
                body.push(part);
                k = k + 1;
                assert(body@ =~= before + Seq::new(k as nat, |x: int| part));
            }
            proof {
                assert(self.0@.take(i as int + 1).drop_last() =~= self.0@.take(i as int));
            }
            i = i + 1;
        }
        assert(self.0@.take(i as int) =~= self.0@);
        body
    }
}

/// A reference to a world object by its stable id; it is resolved afresh each tick.
#[derive(Debug)]
pub struct CreepTarget(pub String);

impl Clone for CreepTarget {
    fn clone(&self) -> (r: Self)
        ensures
            r == *self,
    {
        CreepTarget(self.0.clone())
    }
}

impl CreepTarget {
    pub fn from_id(id: String) -> (r: Self)
        ensures
            r.0@ == id@,
    {
        CreepTarget(id)
    }

    /// Resolves the target against the ids of the objects alive in this
    /// tick's snapshot: the position of its object, or `IDResolve` when the
    /// object is gone.
    pub fn to_value(&self, live: &Vec<String>) -> (r: Result<usize, Error>)
        ensures
            r matches Ok(i) ==> i < live@.len() && live@[i as int]@ == self.0@,
            r is Err <==> forall|k: int| 0 <= k < live@.len() ==> (#[trigger] live@[k])@ != self.0@,
            r matches Err(e) ==> e is IDResolve,
    {
        let mut k: usize = 0;
        while k < live.len()
            invariant
                0 <= k <= live@.len(),
                forall|m: int| 0 <= m < k ==> (#[trigger] live@[m])@ != self.0@,
            decreases live@.len() - k,
        {
            if live[k] == self.0 {
                return Ok(k);
            }
            k = k + 1;
        }
        Err(Error::IDResolve)
    }

    pub fn id(&self) -> (r: &String)
        ensures
            r@ == self.0@,
    {
        &self.0
    }
}

/// The persisted record of one worker unit.
#[derive(Debug)]
pub struct CreepState {
    pub build: CreepBuild,
    pub job: CreepJob,
}

impl CreepState {
    pub fn new(build: CreepBuild, job: CreepJob) -> (r: Self)
        ensures
            r.build == build,
            r.job == job,
    {
        CreepState { build, job }
    }
}

/// What a spawn request hands to the new unit.
#[derive(Debug)]
pub struct CreepOptions {
    pub memory: Option<CreepState>,
}

} // verus!
