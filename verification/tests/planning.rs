use soap::action::{Action, Consequence};
use soap::distance::DistanceError;
use soap::field::Field;
use soap::goal::Goal;
use soap::planner::{plan, plan_prepared, Node};
use soap::requirement::CompareRequirement;
use soap::scenarios::{
    AddAction, BuyAction, ChopAction, CollectAction, SellAction, SetTrueAction, SubAction,
};
use soap::state::State;

fn step_keys(path: &[Node]) -> Vec<String> {
    path.iter()
        .filter_map(|node| match node {
            Node::Consequence(c) => Some(c.action.clone()),
            Node::State(_) => None,
        })
        .collect()
}

#[test]
fn set_true_single_step_plan() {
    let start = State::new();
    let goal = Goal::new().with_req("done", CompareRequirement::Equals(Field::Bool(true)));
    let actions: Vec<Box<dyn Action>> = vec![Box::new(SetTrueAction {})];

    let result = plan(&start, &actions, &goal).expect("distances are well-typed");
    let (path, cost) = result.expect("a plan exists");
    assert_eq!(cost, 1);
    assert_eq!(step_keys(&path), vec!["set_true".to_owned()]);
    let last = path.last().unwrap();
    assert_eq!(last.state().get_as_bool("done"), Some(true));
    assert_eq!(last.state().distance_to_goal(&goal), Ok(0));
}

#[test]
fn addition_reaches_fifty() {
    let start = State::new().with_field("value", Field::I64(0));
    let goal = Goal::new().with_req("value", CompareRequirement::Equals(Field::I64(50)));
    let actions: Vec<Box<dyn Action>> = vec![Box::new(AddAction {}), Box::new(SubAction {})];

    let result = plan(&start, &actions, &goal).expect("distances are well-typed");
    let (path, cost) = result.expect("a plan exists");
    assert!(cost <= 4, "expected a plan of cost at most 4, got {cost}");
    let last = path.last().unwrap();
    assert_eq!(last.state().get_as_i64("value"), Some(50));
    assert_eq!(last.state().distance_to_goal(&goal), Ok(0));
}

#[test]
fn town_economy_reaches_goal() {
    let start = State::new();
    let goal = Goal::new()
        .with_req("coins", CompareRequirement::MoreThanEquals(Field::U64(10)))
        .with_req("wood", CompareRequirement::Equals(Field::U64(10)))
        .with_req("shrooms", CompareRequirement::Equals(Field::U64(2)));
    let actions: Vec<Box<dyn Action>> = vec![
        Box::new(ChopAction {}),
        Box::new(BuyAction {}),
        Box::new(SellAction {}),
        Box::new(CollectAction {}),
    ];

    let result = plan(&start, &actions, &goal).expect("distances are well-typed");
    let (path, _cost) = result.expect("a plan exists");
    let last = path.last().unwrap();
    let final_state = last.state();
    assert!(final_state.get_as_u64("coins").unwrap() >= 10);
    assert_eq!(final_state.get_as_u64("wood"), Some(10));
    assert_eq!(final_state.get_as_u64("shrooms"), Some(2));
    assert_eq!(final_state.distance_to_goal(&goal), Ok(0));
}

#[test]
fn unreachable_goal_returns_no_plan() {
    let start = State::new();
    let goal = Goal::new().with_req("gold", CompareRequirement::MoreThanEquals(Field::U64(1)));
    let actions: Vec<Box<dyn Action>> = vec![Box::new(SetTrueAction {})];

    let result = plan(&start, &actions, &goal).expect("distances are well-typed");
    assert!(result.is_none());
}

#[test]
fn mismatched_goal_is_reported_loudly() {
    // `done` already holds a number, but the goal asks for a boolean.
    let start = State::new().with_field("done", Field::U64(0));
    let goal = Goal::new().with_req("done", CompareRequirement::Equals(Field::Bool(true)));
    let actions: Vec<Box<dyn Action>> = vec![Box::new(SetTrueAction {})];

    assert_eq!(
        plan(&start, &actions, &goal),
        Err(DistanceError::TypeMismatch)
    );
}

#[test]
fn plan_path_begins_at_prepared_start() {
    let start = State::new();
    let goal = Goal::new().with_req("done", CompareRequirement::Equals(Field::Bool(true)));
    let actions: Vec<Box<dyn Action>> = vec![Box::new(SetTrueAction {})];

    let (path, _) = plan(&start, &actions, &goal).unwrap().unwrap();
    match &path[0] {
        Node::State(s) => {
            // prepare defaulted the flag to false before the search began
            assert_eq!(s.get_as_bool("done"), Some(false));
        }
        Node::Consequence(_) => panic!("the path must begin at the start state"),
    }
}

#[test]
fn consequences_compare_by_resulting_state_only() {
    let result = State::new().with_field("v", Field::U64(1));
    let a = Consequence {
        action: "one".to_owned(),
        argument: None,
        result: result.clone(),
    };
    let b = Consequence {
        action: "other".to_owned(),
        argument: Some(Field::U64(9)),
        result,
    };
    assert_eq!(a, b);
    let c = Consequence {
        action: "one".to_owned(),
        argument: None,
        result: State::new().with_field("v", Field::U64(2)),
    };
    assert_ne!(a, c);
}

#[test]
fn prepare_defaults_only_missing_fields() {
    let chop = ChopAction {};
    let state = State::new().with_field("wood", Field::U64(5));
    let prepared = chop.prepare(&state);
    assert_eq!(prepared.get_as_u64("wood"), Some(5));
    assert_eq!(prepared.get_as_bool("axe"), Some(false));
}

#[test]
fn chop_requires_an_axe() {
    let chop = ChopAction {};
    let without_axe = chop.prepare(&State::new());
    assert!(chop.options(&without_axe).is_empty());

    let with_axe = without_axe.with_field("axe", Field::Bool(true));
    let options = chop.options(&with_axe);
    assert_eq!(options.len(), 2);
    assert_eq!(options[0].0.result.get_as_u64("wood"), Some(2));
    assert_eq!(options[0].1, 1);
    assert_eq!(options[1].0.result.get_as_u64("wood"), Some(8));
    assert_eq!(options[1].1, 4);
}

#[test]
fn buy_needs_more_than_two_coins() {
    let buy = BuyAction {};
    let poor = buy.prepare(&State::new());
    assert!(buy.options(&poor).is_empty());

    let rich = poor.with_field("coins", Field::U64(3));
    let options = buy.options(&rich);
    assert_eq!(options.len(), 1);
    let result = &options[0].0.result;
    assert_eq!(result.get_as_bool("axe"), Some(true));
    assert_eq!(result.get_as_u64("coins"), Some(1));
}

#[test]
fn sell_offers_depend_on_holdings() {
    let sell = SellAction {};
    let bare = sell.prepare(&State::new());
    assert!(sell.options(&bare).is_empty());

    let stocked = bare
        .with_field("wood", Field::U64(4))
        .with_field("shrooms", Field::U64(3))
        .with_field("axe", Field::Bool(true))
        .with_field("coins", Field::U64(0));
    let options = sell.options(&stocked);
    assert_eq!(options.len(), 5);
    // selling all wood at once pays three coins per log
    assert_eq!(options[1].0.result.get_as_u64("wood"), Some(0));
    assert_eq!(options[1].0.result.get_as_u64("coins"), Some(12));
    // selling the axe back pays one coin
    assert_eq!(options[4].0.result.get_as_bool("axe"), Some(false));
    assert_eq!(options[4].0.result.get_as_u64("coins"), Some(1));
}

#[test]
fn addition_options_cover_all_amounts() {
    let add = AddAction {};
    let state = add.prepare(&State::new());
    let options = add.options(&state);
    let values: Vec<i64> = options
        .iter()
        .map(|(c, _)| c.result.get_as_i64("value").unwrap())
        .collect();
    assert_eq!(values, vec![1, 2, 4, 8, 16]);
    assert!(options.iter().all(|(_, cost)| *cost == 1));

    let sub = SubAction {};
    let options = sub.options(&state);
    let values: Vec<i64> = options
        .iter()
        .map(|(c, _)| c.result.get_as_i64("value").unwrap())
        .collect();
    assert_eq!(values, vec![-1, -2, -4, -8, -16]);
}

#[test]
fn node_exposes_its_state() {
    let s = State::new().with_field("v", Field::U64(7));
    let node = Node::State(s.clone());
    assert_eq!(node.state().get_as_u64("v"), Some(7));
    let node = Node::Consequence(Consequence {
        action: "a".to_owned(),
        argument: None,
        result: s,
    });
    assert_eq!(node.state().get_as_u64("v"), Some(7));
}

/// A buggy action: it writes `done` as a number although goals compare it as
/// a boolean.
struct MiswriteAction {}

impl Action for MiswriteAction {
    fn key(&self) -> String {
        "miswrite".to_owned()
    }

    fn prepare(&self, state: &State) -> State {
        state.clone()
    }

    fn options(&self, state: &State) -> Vec<(Consequence, u64)> {
        vec![(
            Consequence {
                action: self.key(),
                argument: None,
                result: state.with_field("done", Field::U64(1)),
            },
            1,
        )]
    }
}

#[test]
fn mid_search_mismatch_is_reported_loudly() {
    let start = State::new();
    let goal = Goal::new().with_req("done", CompareRequirement::Equals(Field::Bool(true)));
    let actions: Vec<Box<dyn Action>> = vec![Box::new(MiswriteAction {})];

    assert_eq!(
        plan(&start, &actions, &goal),
        Err(DistanceError::TypeMismatch)
    );
}

#[test]
fn satisfied_start_is_a_one_node_plan() {
    let start = State::new().with_field("done", Field::Bool(true));
    let goal = Goal::new().with_req("done", CompareRequirement::Equals(Field::Bool(true)));
    let actions: Vec<Box<dyn Action>> = vec![Box::new(SetTrueAction {})];

    let (path, cost) = plan(&start, &actions, &goal)
        .expect("distances are well-typed")
        .expect("the start already satisfies the goal");
    assert_eq!(cost, 0);
    assert_eq!(path.len(), 1);
    assert!(matches!(path[0], Node::State(_)));
    assert_eq!(path[0].state().distance_to_goal(&goal), Ok(0));
}

#[test]
fn plan_prepared_skips_the_prepare_fold() {
    // `done` is absent; without the prepare fold nothing defaults it in, and
    // the one registered action still closes the gap.
    let prepared = State::new();
    let goal = Goal::new().with_req("done", CompareRequirement::Equals(Field::Bool(true)));
    let actions: Vec<Box<dyn Action>> = vec![Box::new(SetTrueAction {})];

    let (path, cost) = plan_prepared(&prepared, &actions, &goal)
        .expect("distances are well-typed")
        .expect("a plan exists");
    assert_eq!(cost, 1);
    assert_eq!(step_keys(&path), vec!["set_true".to_owned()]);
}

/// An action whose single step quotes an absurd cost.
struct DearAction {}

impl Action for DearAction {
    fn key(&self) -> String {
        "dear".to_owned()
    }

    fn prepare(&self, state: &State) -> State {
        state.clone()
    }

    fn options(&self, state: &State) -> Vec<(Consequence, u64)> {
        vec![(
            Consequence {
                action: self.key(),
                argument: None,
                result: state.with_field("done", Field::Bool(true)),
            },
            u64::MAX,
        )]
    }
}

#[test]
fn edge_costs_are_clamped() {
    let start = State::new().with_field("done", Field::Bool(false));
    let goal = Goal::new().with_req("done", CompareRequirement::Equals(Field::Bool(true)));
    let actions: Vec<Box<dyn Action>> = vec![Box::new(DearAction {})];

    let (path, cost) = plan(&start, &actions, &goal)
        .expect("distances are well-typed")
        .expect("a plan exists");
    assert_eq!(cost, u64::from(u32::MAX));
    assert_eq!(step_keys(&path), vec!["dear".to_owned()]);
}
