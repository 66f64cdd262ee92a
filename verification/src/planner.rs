//! The search core: a heuristic-guided best-first search over the graph
//! whose nodes are world states and whose edges are the consequences every
//! action offers, steered by the goal distance and finished when it is 0.

use vstd::prelude::*;

use crate::action::{Action, Consequence};
use crate::distance::DistanceError;
use crate::field::FieldVal;
use crate::goal::{goal_distance, Goal};
use crate::state::State;

verus! {

/// A search-graph vertex: either the prepared start state, or one
/// consequence chosen on the way.
#[derive(Debug, Hash)]
pub enum Node {
    Consequence(Consequence),
    State(State),
}

impl Node {
    /// The world state this node stands for.
    pub open spec fn spec_state(self) -> Map<Seq<char>, FieldVal> {
        match self {
            Node::Consequence(c) => c.result@,
            Node::State(s) => s@,
        }
    }

    /// The state this node wraps: a consequence's resulting state, or the
    /// start state itself.
    pub fn state(&self) -> (r: &State)
        ensures
            r@ == self.spec_state(),
    {
        match self {
            Node::Consequence(c) => &c.result,
            Node::State(s) => s,
        }
    }
}

impl Clone for Node {
    fn clone(&self) -> (r: Self)
        ensures
            r.spec_state() == self.spec_state(),
            self matches Node::Consequence(c) ==> (r matches Node::Consequence(rc) && rc.action@
                == c.action@ && rc.argument == c.argument && rc.result@ == c.result@),
            self matches Node::State(_) ==> r matches Node::State(_),
    {
        match self {
            Node::Consequence(c) => Node::Consequence(c.clone()),
            Node::State(s) => Node::State(s.clone()),
        }
    }
}

impl PartialEq for Node {
    fn eq(&self, other: &Self) -> (r: bool) {
        match (self, other) {
            (Node::Consequence(a), Node::Consequence(b)) => *a == *b,
            (Node::State(a), Node::State(b)) => *a == *b,
            _ => false,
        }
    }
}

impl vstd::std_specs::cmp::PartialEqSpecImpl for Node {
    open spec fn obeys_eq_spec() -> bool {
        true
    }

    open spec fn eq_spec(&self, other: &Self) -> bool {
        match (self, other) {
            (Node::Consequence(a), Node::Consequence(b)) => a.result@ == b.result@,
            (Node::State(a), Node::State(b)) => a@ == b@,
            _ => false,
        }
    }
}

impl Eq for Node {}

/// A goal distance clamped to the cost ceiling the search is fed: keeping
/// every heuristic value and edge cost at or under `u32::MAX` means the
/// search's own running cost sums, which grow by at most one clamped cost per
/// stored node, stay far from the top of `u64`.
pub open spec fn clamp_cost(n: nat) -> u64 {
    if n <= u32::MAX as nat {
        n as u64
    } else {
        u32::MAX as u64
    }
}

/// The search heuristic: the node's distance to the goal, clamped to the
/// cost ceiling; states the goal cannot be compared against score the full
/// ceiling, beyond everything reachable.
fn heuristic_of(node: &Node, goal: &Goal) -> (r: u64)
    ensures
        r == (match goal_distance(node.spec_state(), goal@) {
            Some(n) => clamp_cost(n),
            None => u32::MAX as u64,
        }),
{
    match node.state().distance_to_goal(goal) {
        Ok(d) => {
            if d > u32::MAX as u64 {
                u32::MAX as u64
            } else {
                d
            }
        },
        Err(_) => u32::MAX as u64,
    }
}

/// The search's success test: the node's state satisfies the goal exactly.
fn satisfies_goal(node: &Node, goal: &Goal) -> (r: bool)
    ensures
        r == (goal_distance(node.spec_state(), goal@) == Some(0nat)),
{
    match node.state().distance_to_goal(goal) {
        Ok(d) => d == 0,
        Err(_) => false,
    }
}

/// Every transition any action offers from the node's state, in registration
/// order, as search edges with their costs clamped to the cost ceiling. A
/// transition whose resulting state the goal cannot be compared against is an
/// authoring error: it cannot become an edge, so it is left out and recorded
/// in `mismatch`, and the planner surfaces the typed error once the search
/// ends.
fn consequences(node: &Node, actions: &[Box<dyn Action>], goal: &Goal, mismatch: &mut bool) -> (r:
    Vec<(Node, u64)>)
    ensures
        *old(mismatch) ==> *final(mismatch),
        forall|i: int|
            0 <= i < r@.len() ==> ((#[trigger] r@[i].0) matches Node::Consequence(_)
                && goal_distance(r@[i].0.spec_state(), goal@) is Some && r@[i].1 <= u32::MAX
                as u64),
{
    let mut edges: Vec<(Node, u64)> = Vec::new();
    let mut a: usize = 0;
    while a < actions.len()
        invariant
            *old(mismatch) ==> *mismatch,
            forall|i: int|
                0 <= i < edges@.len() ==> ((#[trigger] edges@[i].0) matches Node::Consequence(
                _) && goal_distance(edges@[i].0.spec_state(), goal@) is Some && edges@[i].1
                    <= u32::MAX as u64),
        decreases actions.len() - a,
    {
        let options = actions[a].options(node.state());
        let mut j: usize = 0;
        while j < options.len()
            invariant
                *old(mismatch) ==> *mismatch,
                forall|i: int|
                    0 <= i < edges@.len() ==> ((#[trigger] edges@[i].0) matches Node::Consequence(
                    _) && goal_distance(edges@[i].0.spec_state(), goal@) is Some && edges@[i].1
                        <= u32::MAX as u64),
            decreases options.len() - j,
        {
            let candidate = options[j].0.clone();
            let cost: u64 = if options[j].1 > u32::MAX as u64 {
                u32::MAX as u64
            } else {
                options[j].1
            };
            match candidate.result.distance_to_goal(goal) {
                Ok(_) => {
                    edges.push((Node::Consequence(candidate), cost));
                },
                Err(_) => {
                    *mismatch = true;
                },
            }
            j = j + 1;
        }
        a = a + 1;
    }
    edges
}

/// Relies on pathfinding::prelude::astar: when it returns a path, the path
/// begins at (a clone of) the given start node, every later element is a node
/// that the `consequences` callback produced, and the last element is a node
/// the `satisfies_goal` callback accepted; the verified contracts of those
/// callbacks and of `Node::clone` carry these facts to the clauses below.
/// When it returns nothing, the frontier was exhausted and nothing is claimed.
/// The search adds costs with plain `u64` arithmetic; the callbacks' verified
/// contracts keep every edge cost and heuristic value at or under `u32::MAX`,
/// and a running cost grows by one such cost per node the search stores, so
/// the sums stay in range unless the search stores over `u32::MAX` nodes,
/// which memory rules out long before. The `mismatch` flag is written only by
/// the `consequences` callback, which never clears it.
#[verifier::external_body]
fn astar_search(start: &Node, actions: &[Box<dyn Action>], goal: &Goal, mismatch: &mut bool) -> (r:
    Option<(Vec<Node>, u64)>)
    ensures
        *old(mismatch) ==> *final(mismatch),
        r matches Some(p) ==> p.0.len() > 0 && p.0[0].spec_state() == start.spec_state() && (
        start matches Node::State(_) ==> p.0[0] matches Node::State(_)) && (
        forall|i: int|
            1 <= i < p.0.len() ==> ((#[trigger] p.0[i]) matches Node::Consequence(_)
                && goal_distance(p.0[i].spec_state(), goal@) is Some)) && goal_distance(
            p.0[p.0.len() - 1].spec_state(),
            goal@,
        ) == Some(0nat),
{
    pathfinding::prelude::astar(
        start,
        |node: &Node| consequences(node, actions, goal, mismatch),
        |node: &Node| heuristic_of(node, goal),
        |node: &Node| satisfies_goal(node, goal),
    )
}

/// Plans from an already-prepared start state.
///
/// The requirements' distance from the prepared start is checked first: a
/// start the goal cannot be compared against is the authoring error spec'd as
/// `TypeMismatch`, and a start at distance 0 is already a complete plan, the
/// one-node path at cost 0, returned without searching. Otherwise the search
/// runs; an enumerated transition whose resulting state cannot be compared
/// against the goal is the same authoring error, recorded while the search
/// runs and reported as `Err(TypeMismatch)` when it ends (that condition
/// depends on what the actions enumerate, so no clause can state it).
/// `Ok(None)` means the search exhausted every reachable state without
/// satisfying the goal.
pub fn plan_prepared(prepared: &State, actions: &[Box<dyn Action>], goal: &Goal) -> (r: Result<
    Option<(Vec<Node>, u64)>,
    DistanceError,
>)
    ensures
        r matches Ok(Some(p)) ==> p.0.len() > 0 && (p.0[0] matches Node::State(_))
            && p.0[0].spec_state() == prepared@ && (forall|i: int|
            1 <= i < p.0.len() ==> ((#[trigger] p.0[i]) matches Node::Consequence(_)))
            && goal_distance(p.0[p.0.len() - 1].spec_state(), goal@) == Some(0nat),
        r matches Err(e) ==> e == DistanceError::TypeMismatch,
        goal_distance(prepared@, goal@) is None ==> r matches Err(_),
        goal_distance(prepared@, goal@) == Some(0nat) ==> (r matches Ok(Some(q)) && q.0.len() == 1
            && q.0[0].spec_state() == prepared@ && q.1 == 0),
{
    match prepared.distance_to_goal(goal) {
        Err(e) => Err(e),
        Ok(d) => {
            if d == 0 {
                let mut path: Vec<Node> = Vec::new();
                path.push(Node::State(prepared.clone()));
                Ok(Some((path, 0)))
            } else {
                let mut mismatch = false;
                let found = astar_search(&Node::State(prepared.clone()), actions, goal, &mut mismatch);
                if mismatch {
                    Err(DistanceError::TypeMismatch)
                } else {
                    Ok(found)
                }
            }
        },
    }
}

/// Finds an ordered, cost-weighted sequence of consequences that transforms
/// the start state into one satisfying the goal.
///
/// The start state is first run through every action's `prepare`, in
/// registration order, and the prepared state is handed to
/// [`plan_prepared`], whose contract says when a plan, a no-plan or an error
/// is owed. A goal-against-field variant mismatch, at the prepared start or
/// on any transition the actions enumerate, is reported as
/// `Err(TypeMismatch)`; `Ok(None)` means the search exhausted every reachable
/// state without satisfying the goal.
///
/// A returned plan begins at the prepared start, continues through
/// consequence nodes only, and ends in a state whose goal distance is
/// exactly 0.
pub fn plan(start: &State, actions: &[Box<dyn Action>], goal: &Goal) -> (r: Result<
    Option<(Vec<Node>, u64)>,
    DistanceError,
>)
    ensures
        r matches Ok(Some(p)) ==> p.0.len() > 0 && (p.0[0] matches Node::State(_)) && (forall|i: int|
            1 <= i < p.0.len() ==> ((#[trigger] p.0[i]) matches Node::Consequence(_)))
            && goal_distance(p.0[p.0.len() - 1].spec_state(), goal@) == Some(0nat),
        r matches Err(e) ==> e == DistanceError::TypeMismatch,
{
    let mut prepared = start.clone();
    let mut i: usize = 0;
    while i < actions.len()
        decreases actions.len() - i,
    {
        prepared = actions[i].prepare(&prepared);
        i = i + 1;
    }
    plan_prepared(&prepared, actions, goal)
}

} // verus!
