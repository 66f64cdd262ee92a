//! A goal: a mapping from field names to requirements, whose summed
//! distance-to-satisfaction is the planner's heuristic and success test.

use vstd::prelude::*;

use crate::distance::{lookup, sum_over};
use crate::field::FieldVal;
use crate::kv::{
    keys_unique, kvs, lemma_map_of_contains, lemma_map_of_finite, lemma_map_of_index,
    lemma_map_of_len, lemma_map_of_push, lemma_map_of_update, map_of,
};
use crate::requirement::{req_distance, req_satisfied, CompareRequirement, ReqVal};

verus! {

/// The per-key term of the goal distance: the requirement's distance from the
/// state's field where the key is present, a penalty of 1 where it is absent,
/// so "not yet set" never counts as satisfied.
pub open spec fn goal_term() -> spec_fn(Option<FieldVal>, ReqVal) -> Option<nat> {
    |fv: Option<FieldVal>, req: ReqVal|
        match fv {
            Some(c) => req_distance(req, c),
            None => Some(1nat),
        }
}

/// The distance from the state to satisfying the whole goal: the sum of every
/// requirement's term.
pub open spec fn goal_distance(
    state: Map<Seq<char>, FieldVal>,
    goal: Map<Seq<char>, ReqVal>,
) -> Option<nat> {
    sum_over(state, goal, goal_term())
}

/// A mapping from field names to requirements, built up with a fluent
/// builder; each name holds exactly one requirement, the last one inserted.
#[derive(Debug)]
pub struct Goal {
    requirements: Vec<(String, CompareRequirement)>,
}

impl View for Goal {
    type V = Map<Seq<char>, ReqVal>;

    closed spec fn view(&self) -> Map<Seq<char>, ReqVal> {
        map_of(kvs(self.requirements@))
    }
}

impl Goal {
    #[verifier::type_invariant]
    spec fn wf(self) -> bool {
        keys_unique(kvs(self.requirements@))
    }

    /// The empty goal.
    pub fn new() -> (r: Self)
        ensures
            r@ == Map::<Seq<char>, ReqVal>::empty(),
    {
        Goal { requirements: Vec::new() }
    }

    /// The position of a key among the requirements, if it is present.
    fn position_of(&self, key: &String) -> (r: Option<usize>)
        ensures
            match r {
                Some(i) => 0 <= i < self.requirements@.len() && kvs(
                    self.requirements@,
                )[i as int].0 == key@,
                None => !self@.contains_key(key@),
            },
    {
        proof {
            use_type_invariant(self);
        }
        let mut i: usize = 0;
        while i < self.requirements.len()
            invariant
                0 <= i <= self.requirements@.len(),
                forall|j: int| 0 <= j < i ==> kvs(self.requirements@)[j].0 != key@,
            decreases self.requirements@.len() - i,
        {
            if self.requirements[i].0 == *key {
                return Some(i);
            }
            i = i + 1;
        }
        proof {
            lemma_map_of_contains(kvs(self.requirements@), key@);
        }
        None
    }

    /// A borrow of the requirement stored under a key, if the key is present.
    pub fn get<'a>(&'a self, key: &str) -> (r: Option<&'a CompareRequirement>)
        ensures
            match r {
                Some(req) => self@.contains_key(key@) && req@ == self@[key@],
                None => !self@.contains_key(key@),
            },
    {
        proof {
            use_type_invariant(self);
        }
        let owned = key.to_owned();
        match self.position_of(&owned) {
            Some(i) => {
                proof {
                    lemma_map_of_index(kvs(self.requirements@), i as int);
                }
                Some(&self.requirements[i].1)
            },
            None => None,
        }
    }

    /// Whether a requirement is stored under the key.
    pub fn contains_key(&self, key: &str) -> (r: bool)
        ensures
            r == self@.contains_key(key@),
    {
        match self.get(key) {
            Some(_) => true,
            None => false,
        }
    }

    /// Stores a requirement under a key, and hands back the requirement the
    /// key held before, if any.
    pub fn insert(&mut self, key: &str, value: CompareRequirement) -> (r: Option<
        CompareRequirement,
    >)
        ensures
            final(self)@ == old(self)@.insert(key@, value@),
            match r {
                Some(req) => old(self)@.contains_key(key@) && req@ == old(self)@[key@],
                None => !old(self)@.contains_key(key@),
            },
    {
        proof {
            use_type_invariant(&*self);
        }
        let owned = key.to_owned();
        let position = self.position_of(&owned);
        let ghost old_kvs = kvs(self.requirements@);
        let mut reqs: Vec<(String, CompareRequirement)> = Vec::new();
        std::mem::swap(&mut reqs, &mut self.requirements);
        let r = match position {
            Some(i) => {
                proof {
                    lemma_map_of_index(old_kvs, i as int);
                }
                let displaced = reqs[i].1.clone();
                proof {
                    lemma_map_of_update(old_kvs, i as int, owned@, value@);
                    assert(kvs(reqs@.update(i as int, (owned, value))) =~= old_kvs.update(
                        i as int,
                        (owned@, value@),
                    ));
                }
                reqs.set(i, (owned, value));
                Some(displaced)
            },
            None => {
                proof {
                    lemma_map_of_contains(old_kvs, owned@);
                    lemma_map_of_push(old_kvs, owned@, value@);
                    assert(kvs(reqs@.push((owned, value))) =~= old_kvs.push((owned@, value@)));
                }
                reqs.push((owned, value));
                None
            },
        };
        self.requirements = reqs;
        r
    }

    /// This goal with one requirement set or overwritten: the fluent builder.
    pub fn with_req(self, key: &str, value: CompareRequirement) -> (r: Self)
        ensures
            r@ == self@.insert(key@, value@),
    {
        let mut extended = self;
        extended.insert(key, value);
        extended
    }

    /// The requirements, as name/requirement pairs with no name repeated;
    /// together they denote this goal's view, one pair per key.
    pub fn requirements(&self) -> (r: &Vec<(String, CompareRequirement)>)
        ensures
            keys_unique(kvs(r@)),
            map_of(kvs(r@)) == self@,
            r@.len() == self@.dom().len(),
    {
        proof {
            use_type_invariant(self);
            lemma_map_of_len(kvs(self.requirements@));
        }
        &self.requirements
    }
}

/// Every goal's view has a finite domain, so the distance sums over it are
/// defined.
pub proof fn lemma_goal_view_finite(g: Goal)
    ensures
        g@.dom().finite(),
{
    lemma_map_of_finite(kvs(g.requirements@));
}

/// A goal is at distance 0 from a state exactly when, for every requirement
/// of the goal, the state holds a field under that name that satisfies it.
pub proof fn lemma_goal_distance_zero(state: crate::state::State, goal: Goal)
    ensures
        (goal_distance(state@, goal@) == Some(0nat)) <==> (forall|k: Seq<char>|
            goal@.contains_key(k) ==> state@.contains_key(k) && req_satisfied(
                goal@[k],
                state@[k],
            )),
{
    lemma_map_of_finite(kvs(goal.requirements@));
    crate::distance::lemma_sum_over_zero(state@, goal@, goal_term());
    assert forall|k: Seq<char>| goal@.contains_key(k) implies (goal_term()(
        lookup(state@, k),
        goal@[k],
    ) == Some(0nat)) <==> (state@.contains_key(k) && req_satisfied(goal@[k], state@[k])) by {
        crate::requirement::lemma_req_distance_zero(goal@[k], state@[k]);
    }
}

} // verus!
