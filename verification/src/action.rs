//! The action contract: a capability that defaults the fields it depends on
//! into the start state, and enumerates weighted candidate transitions.

use vstd::prelude::*;

use crate::field::Field;
use crate::state::State;

verus! {

/// One concrete transition an action can make: the acting action's key, an
/// optional free-form argument kept for diagnostics, and the resulting state.
///
/// Equality is by the resulting state alone: two transitions that reach the
/// same state are the same node to the search, whatever produced them. The
/// derived hash still covers every field, so a hashed container may keep two
/// equal consequences apart; that costs duplicate exploration at worst, never
/// a wrong answer.
#[derive(Debug, Hash)]
pub struct Consequence {
    pub action: String,
    pub argument: Option<Field>,
    pub result: State,
}

impl Clone for Consequence {
    fn clone(&self) -> (r: Self)
        ensures
            r.action@ == self.action@,
            r.argument == self.argument,
            r.result@ == self.result@,
    {
        Consequence {
            action: self.action.clone(),
            argument: match &self.argument {
                Some(f) => Some(f.clone()),
                None => None,
            },
            result: self.result.clone(),
        }
    }
}

impl PartialEq for Consequence {
    fn eq(&self, other: &Self) -> (r: bool) {
        self.result == other.result
    }
}

impl vstd::std_specs::cmp::PartialEqSpecImpl for Consequence {
    open spec fn obeys_eq_spec() -> bool {
        true
    }

    open spec fn eq_spec(&self, other: &Self) -> bool {
        self.result@ == other.result@
    }
}

impl Eq for Consequence {}

/// A capability the planner can schedule. Implementations are stateless
/// strategies: the planner calls them repeatedly across search branches, so
/// `options` must depend on nothing but the state it is given.
pub trait Action {
    /// A stable identifier naming this action in consequences and plans;
    /// unique per action within one planning session, by convention.
    fn key(&self) -> String;

    /// The given state augmented with any fields this action depends on,
    /// defaulted in where absent. Run once per action, in registration order,
    /// before the search begins.
    fn prepare(&self, state: &State) -> State;

    /// Every transition this action could make from the given state, each
    /// with its cost. An empty list means the action is inapplicable there;
    /// each action checks its own preconditions this way.
    fn options(&self, state: &State) -> Vec<(Consequence, u64)>;
}

} // verus!
