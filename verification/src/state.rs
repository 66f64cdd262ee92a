//! A world state: a mapping from field names to typed field values, with a
//! directional distance measure used by the planner as its heuristic.

use vstd::prelude::*;

use crate::distance::{lookup, sat64, state_distance, state_term, sum_over, DistanceError};
use crate::field::{Field, FieldVal};
use crate::goal::{goal_distance, goal_term, Goal};
use crate::kv::{
    keys_unique, kvs, lemma_map_of_contains, lemma_map_of_finite, lemma_map_of_index,
    lemma_map_of_push, lemma_map_of_update, lemma_prefix_step, map_of,
};

verus! {

/// A named collection of fields describing world conditions at one point in
/// planning. Mutators return a new state; a value in hand is never changed
/// behind the caller's back while the search fans out from it.
#[derive(Debug, Hash)]
pub struct State {
    fields: Vec<(String, Field)>,
}

impl View for State {
    type V = Map<Seq<char>, FieldVal>;

    closed spec fn view(&self) -> Map<Seq<char>, FieldVal> {
        map_of(kvs(self.fields@))
    }
}

impl State {
    #[verifier::type_invariant]
    spec fn wf(self) -> bool {
        keys_unique(kvs(self.fields@))
    }

    /// The empty state.
    pub fn new() -> (r: Self)
        ensures
            r@ == Map::<Seq<char>, FieldVal>::empty(),
    {
        State { fields: Vec::new() }
    }

    /// The position of a key among the fields, if it is present.
    fn position_of(&self, key: &String) -> (r: Option<usize>)
        ensures
            match r {
                Some(i) => 0 <= i < self.fields@.len() && kvs(self.fields@)[i as int].0 == key@,
                None => !self@.contains_key(key@),
            },
    {
        proof {
            use_type_invariant(self);
        }
        let mut i: usize = 0;
        while i < self.fields.len()
            invariant
                0 <= i <= self.fields@.len(),
                forall|j: int| 0 <= j < i ==> kvs(self.fields@)[j].0 != key@,
            decreases self.fields@.len() - i,
        {
            if self.fields[i].0 == *key {
                return Some(i);
            }
            i = i + 1;
        }
        proof {
            lemma_map_of_contains(kvs(self.fields@), key@);
        }
        None
    }

    /// A borrow of the field stored under a key, if the key is present.
    fn lookup_ref<'a>(&'a self, key: &String) -> (r: Option<&'a Field>)
        ensures
            match r {
                Some(f) => lookup(self@, key@) == Some(f@),
                None => lookup(self@, key@) is None,
            },
    {
        proof {
            use_type_invariant(self);
        }
        match self.position_of(key) {
            Some(i) => {
                proof {
                    lemma_map_of_index(kvs(self.fields@), i as int);
                }
                Some(&self.fields[i].1)
            },
            None => None,
        }
    }

    /// A copy of the field stored under a key, if the key is present.
    pub fn get(&self, key: &str) -> (r: Option<Field>)
        ensures
            match r {
                Some(f) => self@.contains_key(key@) && f@ == self@[key@],
                None => !self@.contains_key(key@),
            },
    {
        let owned = key.to_owned();
        match self.lookup_ref(&owned) {
            Some(f) => Some(f.clone()),
            None => None,
        }
    }

    /// Whether a field is stored under the key.
    pub fn contains_key(&self, key: &str) -> (r: bool)
        ensures
            r == self@.contains_key(key@),
    {
        let owned = key.to_owned();
        match self.lookup_ref(&owned) {
            Some(_) => true,
            None => false,
        }
    }

    /// The boolean stored under the key, when the key is present and holds one.
    pub fn get_as_bool(&self, key: &str) -> (r: Option<bool>)
        ensures
            r == (match lookup(self@, key@) {
                Some(FieldVal::Bool(b)) => Some(b),
                _ => None::<bool>,
            }),
    {
        match self.get(key) {
            Some(f) => f.as_bool(),
            None => None,
        }
    }

    /// The unsigned integer stored under the key, when the key is present and
    /// holds one.
    pub fn get_as_u64(&self, key: &str) -> (r: Option<u64>)
        ensures
            r == (match lookup(self@, key@) {
                Some(FieldVal::U64(n)) => Some(n),
                _ => None::<u64>,
            }),
    {
        match self.get(key) {
            Some(f) => f.as_u64(),
            None => None,
        }
    }

    /// The signed integer stored under the key, when the key is present and
    /// holds one.
    pub fn get_as_i64(&self, key: &str) -> (r: Option<i64>)
        ensures
            r == (match lookup(self@, key@) {
                Some(FieldVal::I64(n)) => Some(n),
                _ => None::<i64>,
            }),
    {
        match self.get(key) {
            Some(f) => f.as_i64(),
            None => None,
        }
    }

    /// The count of hundredths stored under the key, when the key is present
    /// and holds a fractional value.
    pub fn get_as_centi(&self, key: &str) -> (r: Option<u64>)
        ensures
            r == (match lookup(self@, key@) {
                Some(FieldVal::Centi(n)) => Some(n),
                _ => None::<u64>,
            }),
    {
        match self.get(key) {
            Some(f) => f.as_centi(),
            None => None,
        }
    }

    /// Stores a field under a key, and hands back the field the key held
    /// before, if any.
    pub fn insert(&mut self, key: &str, value: Field) -> (r: Option<Field>)
        ensures
            final(self)@ == old(self)@.insert(key@, value@),
            match r {
                Some(f) => old(self)@.contains_key(key@) && f@ == old(self)@[key@],
                None => !old(self)@.contains_key(key@),
            },
    {
        proof {
            use_type_invariant(&*self);
        }
        let owned = key.to_owned();
        let position = self.position_of(&owned);
        let ghost old_kvs = kvs(self.fields@);
        let mut flds: Vec<(String, Field)> = Vec::new();
        std::mem::swap(&mut flds, &mut self.fields);
        let r = match position {
            Some(i) => {
                proof {
                    lemma_map_of_index(old_kvs, i as int);
                }
                let displaced = flds[i].1.clone();
                proof {
                    lemma_map_of_update(old_kvs, i as int, owned@, value@);
                    assert(kvs(flds@.update(i as int, (owned, value))) =~= old_kvs.update(
                        i as int,
                        (owned@, value@),
                    ));
                }
                flds.set(i, (owned, value));
                Some(displaced)
            },
            None => {
                proof {
                    lemma_map_of_contains(old_kvs, owned@);
                    lemma_map_of_push(old_kvs, owned@, value@);
                    assert(kvs(flds@.push((owned, value))) =~= old_kvs.push((owned@, value@)));
                }
                flds.push((owned, value));
                None
            },
        };
        self.fields = flds;
        r
    }

    /// A copy of this state with one field set or overwritten.
    pub fn with_field(&self, key: &str, value: Field) -> (r: Self)
        ensures
            r@ == self@.insert(key@, value@),
    {
        let mut copy = self.clone();
        copy.insert(key, value);
        copy
    }

    /// The directional distance from this state to another: for every field
    /// of `other`, the distance between the two states' fields at that key,
    /// with a penalty of 1 where this state lacks the key, summed with
    /// saturation; fields only this state holds do not count. The sum is a
    /// `TypeMismatch` error exactly when some shared key holds two fields of
    /// different variants.
    pub fn distance_to(&self, other: &State) -> (r: Result<u64, DistanceError>)
        ensures
            match r {
                Ok(d) => state_distance(self@, other@) matches Some(n) && d == sat64(n),
                Err(e) => state_distance(self@, other@) is None && e
                    == DistanceError::TypeMismatch,
            },
    {
        proof {
            use_type_invariant(other);
            lemma_map_of_finite(kvs(other.fields@));
        }
        let mut total: u64 = 0;
        let ghost mut gsum: nat = 0nat;
        let mut i: usize = 0;
        while i < other.fields.len()
            invariant
                0 <= i <= other.fields@.len(),
                keys_unique(kvs(other.fields@)),
                other@ == map_of(kvs(other.fields@)),
                other@.dom().finite(),
                sum_over(self@, map_of(kvs(other.fields@.take(i as int))), state_term()) == Some(
                    gsum,
                ),
                total == sat64(gsum),
            decreases other.fields@.len() - i,
        {
            let ghost k_i = kvs(other.fields@)[i as int].0;
            let ghost v_i = kvs(other.fields@)[i as int].1;
            proof {
                lemma_prefix_step(other.fields@, i as int);
            }
            let d: u64 = match self.lookup_ref(&other.fields[i].0) {
                Some(f) => {
                    match f.distance_to(&other.fields[i].1) {
                        Ok(d) => d,
                        Err(e) => {
                            proof {
                                crate::distance::lemma_sum_over_none(
                                    self@,
                                    other@,
                                    state_term(),
                                    k_i,
                                );
                            }
                            return Err(e);
                        },
                    }
                },
                None => 1,
            };
            proof {
                assert(state_term()(lookup(self@, k_i), v_i) == Some(d as nat));
                crate::distance::lemma_sum_over_insert(
                    self@,
                    map_of(kvs(other.fields@.take(i as int))),
                    state_term(),
                    k_i,
                    v_i,
                );
                gsum = gsum + d as nat;
            }
            total = total.saturating_add(d);
            i = i + 1;
        }
        proof {
            assert(other.fields@.take(other.fields@.len() as int) =~= other.fields@);
        }
        Ok(total)
    }

    /// The distance from this state to satisfying a goal: for every
    /// requirement of the goal, its distance from this state's field at that
    /// key, with a penalty of 1 where the key is absent, summed with
    /// saturation. The sum is a `TypeMismatch` error exactly when some
    /// requirement does not apply to the variant this state holds at its key.
    pub fn distance_to_goal(&self, goal: &Goal) -> (r: Result<u64, DistanceError>)
        ensures
            match r {
                Ok(d) => goal_distance(self@, goal@) matches Some(n) && d == sat64(n),
                Err(e) => goal_distance(self@, goal@) is None && e == DistanceError::TypeMismatch,
            },
    {
        let reqs = goal.requirements();
        proof {
            lemma_map_of_finite(kvs(reqs@));
        }
        let mut total: u64 = 0;
        let ghost mut gsum: nat = 0nat;
        let mut i: usize = 0;
        while i < reqs.len()
            invariant
                0 <= i <= reqs@.len(),
                keys_unique(kvs(reqs@)),
                goal@ == map_of(kvs(reqs@)),
                goal@.dom().finite(),
                sum_over(self@, map_of(kvs(reqs@.take(i as int))), goal_term()) == Some(gsum),
                total == sat64(gsum),
            decreases reqs@.len() - i,
        {
            let ghost k_i = kvs(reqs@)[i as int].0;
            let ghost v_i = kvs(reqs@)[i as int].1;
            proof {
                lemma_prefix_step(reqs@, i as int);
            }
            let d: u64 = match self.lookup_ref(&reqs[i].0) {
                Some(f) => {
                    match reqs[i].1.distance_from(f) {
                        Ok(d) => d,
                        Err(e) => {
                            proof {
                                crate::distance::lemma_sum_over_none(
                                    self@,
                                    goal@,
                                    goal_term(),
                                    k_i,
                                );
                            }
                            return Err(e);
                        },
                    }
                },
                None => 1,
            };
            proof {
                assert(goal_term()(lookup(self@, k_i), v_i) == Some(d as nat));
                crate::distance::lemma_sum_over_insert(
                    self@,
                    map_of(kvs(reqs@.take(i as int))),
                    goal_term(),
                    k_i,
                    v_i,
                );
                gsum = gsum + d as nat;
            }
            total = total.saturating_add(d);
            i = i + 1;
        }
        proof {
            assert(reqs@.take(reqs@.len() as int) =~= reqs@);
        }
        Ok(total)
    }
}

impl Clone for State {
    /// A copy with the same fields.
    fn clone(&self) -> (r: Self)
        ensures
            r@ == self@,
    {
        proof {
            use_type_invariant(self);
        }
        let mut fields: Vec<(String, Field)> = Vec::new();
        let mut i: usize = 0;
        while i < self.fields.len()
            invariant
                0 <= i <= self.fields@.len(),
                fields@ =~= self.fields@.take(i as int),
            decreases self.fields@.len() - i,
        {
            fields.push((self.fields[i].0.clone(), self.fields[i].1.clone()));
            i = i + 1;
        }
        proof {
            assert(fields@ =~= self.fields@);
        }
        State { fields }
    }
}

impl State {
    /// True when every field of `a` is held, with an equal value, by `b`.
    fn submap_check(a: &State, b: &State) -> (r: bool)
        ensures
            r == a@.submap_of(b@),
    {
        proof {
            use_type_invariant(a);
        }
        let mut i: usize = 0;
        while i < a.fields.len()
            invariant
                0 <= i <= a.fields@.len(),
                keys_unique(kvs(a.fields@)),
                forall|j: int|
                    0 <= j < i ==> b@.contains_key(kvs(a.fields@)[j].0) && b@[kvs(
                        a.fields@,
                    )[j].0] == kvs(a.fields@)[j].1,
            decreases a.fields@.len() - i,
        {
            let ghost k_i = kvs(a.fields@)[i as int].0;
            proof {
                lemma_map_of_index(kvs(a.fields@), i as int);
                assert(kvs(a.fields@)[i as int] == (a.fields@[i as int].0@, a.fields@[i as int].1@));
            }
            match b.lookup_ref(&a.fields[i].0) {
                Some(f) => {
                    if !(*f == a.fields[i].1) {
                        proof {
                            assert(a@.dom().contains(k_i) && !(b@.dom().contains(k_i) && a@[k_i]
                                == b@[k_i]));
                        }
                        return false;
                    }
                },
                None => {
                    proof {
                        assert(a@.dom().contains(k_i) && !b@.dom().contains(k_i));
                    }
                    return false;
                },
            }
            i = i + 1;
        }
        proof {
            assert forall|k: Seq<char>| #[trigger] a@.dom().contains(k) implies b@.dom().contains(
                k,
            ) && a@[k] == b@[k] by {
                lemma_map_of_contains(kvs(a.fields@), k);
                let j = choose|j: int|
                    0 <= j < kvs(a.fields@).len() && kvs(a.fields@)[j].0 == k;
                lemma_map_of_index(kvs(a.fields@), j);
            }
            assert(a@.submap_of(b@));
        }
        true
    }
}

impl PartialEq for State {
    /// Structural equality: the two states hold the same keys with equal
    /// fields. This is distinct from the directional distance measure.
    fn eq(&self, other: &Self) -> (r: bool) {
        proof {
            self@.lemma_submap_eq_iff(other@);
        }
        State::submap_check(self, other) && State::submap_check(other, self)
    }
}

impl vstd::std_specs::cmp::PartialEqSpecImpl for State {
    open spec fn obeys_eq_spec() -> bool {
        true
    }

    open spec fn eq_spec(&self, other: &Self) -> bool {
        self@ == other@
    }
}

impl Eq for State {}

/// Every state's view has a finite domain, so the distance sums over it are
/// defined.
pub proof fn lemma_state_view_finite(s: State)
    ensures
        s@.dom().finite(),
{
    lemma_map_of_finite(kvs(s.fields@));
}

/// A state is at distance 0 from itself.
pub proof fn lemma_state_distance_self(s: State)
    ensures
        state_distance(s@, s@) == Some(0nat),
{
    lemma_map_of_finite(kvs(s.fields@));
    crate::distance::lemma_sum_over_zero(s@, s@, state_term());
    assert forall|k: Seq<char>| s@.contains_key(k) implies state_term()(lookup(s@, k), s@[k])
        == Some(0nat) by {
        crate::distance::lemma_field_distance_self(s@[k]);
    }
}

} // verus!
