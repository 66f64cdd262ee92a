//! Ready-made actions for small planning scenarios: a boolean flag, a
//! counter moved by additions and subtractions, and a town economy of
//! chopping, collecting, buying and selling.

use vstd::prelude::*;

use crate::action::{Action, Consequence};
use crate::distance::{lookup, sat64};
use crate::field::{Field, FieldVal};
use crate::state::State;

verus! {

/// The unsigned integer a state holds at a key, or 0 when the key is absent
/// or holds another variant: how these actions read their counters.
pub open spec fn u64_at(m: Map<Seq<char>, FieldVal>, k: Seq<char>) -> u64 {
    match lookup(m, k) {
        Some(FieldVal::U64(n)) => n,
        _ => 0u64,
    }
}

/// The signed integer a state holds at a key, or 0 when the key is absent or
/// holds another variant.
pub open spec fn i64_at(m: Map<Seq<char>, FieldVal>, k: Seq<char>) -> i64 {
    match lookup(m, k) {
        Some(FieldVal::I64(n)) => n,
        _ => 0i64,
    }
}

/// The boolean a state holds at a key, or false when the key is absent or
/// holds another variant.
pub open spec fn bool_at(m: Map<Seq<char>, FieldVal>, k: Seq<char>) -> bool {
    match lookup(m, k) {
        Some(FieldVal::Bool(b)) => b,
        _ => false,
    }
}

/// The state with the field defaulted in when absent: what one `prepare`
/// step does for one key.
pub open spec fn defaulted(
    m: Map<Seq<char>, FieldVal>,
    k: Seq<char>,
    v: FieldVal,
) -> Map<Seq<char>, FieldVal> {
    if m.contains_key(k) {
        m
    } else {
        m.insert(k, v)
    }
}

/// Sets the field at a key when it is absent, so the action's `options` can
/// assume it exists.
fn default_field(state: &State, key: &str, value: Field) -> (r: State)
    ensures
        r@ == defaulted(state@, key@, value@),
{
    if !state.contains_key(key) {
        state.with_field(key, value)
    } else {
        state.clone()
    }
}

/// An action that sets the `done` flag, whatever else the state holds.
pub struct SetTrueAction {}

impl Action for SetTrueAction {
    fn key(&self) -> (r: String)
        ensures
            r@ == "set_true"@,
    {
        "set_true".to_owned()
    }

    fn prepare(&self, state: &State) -> (r: State)
        ensures
            r@ == defaulted(state@, "done"@, FieldVal::Bool(false)),
    {
        default_field(state, "done", Field::Bool(false))
    }

    fn options(&self, state: &State) -> (r: Vec<(Consequence, u64)>)
        ensures
            r@.len() == 1,
            r@[0].0.action@ == "set_true"@,
            r@[0].0.argument is None,
            r@[0].0.result@ == state@.insert("done"@, FieldVal::Bool(true)),
            r@[0].1 == 1,
    {
        let consequence = Consequence {
            action: self.key(),
            argument: None,
            result: state.with_field("done", Field::Bool(true)),
        };
        let mut r: Vec<(Consequence, u64)> = Vec::new();
        r.push((consequence, 1));
        r
    }
}

/// An addition clamped to the range of `i64`.
pub open spec fn clamp_i64(x: int) -> i64 {
    if x > i64::MAX {
        i64::MAX
    } else if x < i64::MIN {
        i64::MIN
    } else {
        x as i64
    }
}

/// Adds two signed integers, clamping at the ends of the range.
fn sat_add_i64(a: i64, b: i64) -> (r: i64)
    ensures
        r == clamp_i64(a + b),
{
    let wide: i128 = a as i128 + b as i128;
    if wide > i64::MAX as i128 {
        i64::MAX
    } else if wide < i64::MIN as i128 {
        i64::MIN
    } else {
        wide as i64
    }
}

/// The amounts the counter actions add or subtract, by position.
pub open spec fn step_amount(i: int) -> i64 {
    if i == 0 {
        1i64
    } else if i == 1 {
        2i64
    } else if i == 2 {
        4i64
    } else if i == 3 {
        8i64
    } else {
        16i64
    }
}

/// An action that adds 1, 2, 4, 8 or 16 to the `value` counter, each at
/// cost 1, clamping at the ends of the signed range.
pub struct AddAction {}

impl Action for AddAction {
    fn key(&self) -> (r: String)
        ensures
            r@ == "addition"@,
    {
        "addition".to_owned()
    }

    fn prepare(&self, state: &State) -> (r: State)
        ensures
            r@ == defaulted(state@, "value"@, FieldVal::I64(0)),
    {
        default_field(state, "value", Field::I64(0))
    }

    fn options(&self, state: &State) -> (r: Vec<(Consequence, u64)>)
        ensures
            r@.len() == 5,
            forall|i: int|
                0 <= i < 5 ==> {
                    let expected = clamp_i64(i64_at(state@, "value"@) + step_amount(i));
                    (#[trigger] r@[i]).1 == 1 && r@[i].0.action@ == "addition"@ && r@[i].0.result@
                        == state@.insert("value"@, FieldVal::I64(expected)) && (r@[i].0.argument
                        matches Some(f) && f@ == FieldVal::I64(step_amount(i)))
                },
    {
        let prev = match state.get_as_i64("value") {
            Some(v) => v,
            None => 0,
        };
        let mut r: Vec<(Consequence, u64)> = Vec::new();
        let mut amounts: [i64; 5] = [1, 2, 4, 8, 16];
        let mut j: usize = 0;
        while j < 5
            invariant
                0 <= j <= 5,
                prev == i64_at(state@, "value"@),
                amounts@ =~= seq![1i64, 2i64, 4i64, 8i64, 16i64],
                r@.len() == j,
                forall|i: int|
                    0 <= i < j ==> {
                        let expected = clamp_i64(i64_at(state@, "value"@) + step_amount(i));
                        (#[trigger] r@[i]).1 == 1 && r@[i].0.action@ == "addition"@
                            && r@[i].0.result@ == state@.insert("value"@, FieldVal::I64(expected))
                            && (r@[i].0.argument matches Some(f) && f@ == FieldVal::I64(
                            step_amount(i),
                        ))
                    },
            decreases 5 - j,
        {
            let amount = amounts[j];
            proof {
                assert(amount == step_amount(j as int));
            }
            r.push(
                (
                    Consequence {
                        action: self.key(),
                        argument: Some(Field::I64(amount)),
                        result: state.with_field("value", Field::I64(sat_add_i64(prev, amount))),
                    },
                    1,
                ),
            );
            j = j + 1;
        }
        r
    }
}

/// An action that subtracts 1, 2, 4, 8 or 16 from the `value` counter, each
/// at cost 1, clamping at the ends of the signed range.
pub struct SubAction {}

impl Action for SubAction {
    fn key(&self) -> (r: String)
        ensures
            r@ == "subtraction"@,
    {
        "subtraction".to_owned()
    }

    fn prepare(&self, state: &State) -> (r: State)
        ensures
            r@ == defaulted(state@, "value"@, FieldVal::I64(0)),
    {
        default_field(state, "value", Field::I64(0))
    }

    fn options(&self, state: &State) -> (r: Vec<(Consequence, u64)>)
        ensures
            r@.len() == 5,
            forall|i: int|
                0 <= i < 5 ==> {
                    let expected = clamp_i64(i64_at(state@, "value"@) - step_amount(i));
                    (#[trigger] r@[i]).1 == 1 && r@[i].0.action@ == "subtraction"@
                        && r@[i].0.result@ == state@.insert("value"@, FieldVal::I64(expected)) && (
                    r@[i].0.argument matches Some(f) && f@ == FieldVal::I64(step_amount(i)))
                },
    {
        let prev = match state.get_as_i64("value") {
            Some(v) => v,
            None => 0,
        };
        let mut r: Vec<(Consequence, u64)> = Vec::new();
        let mut amounts: [i64; 5] = [1, 2, 4, 8, 16];
        let mut j: usize = 0;
        while j < 5
            invariant
                0 <= j <= 5,
                prev == i64_at(state@, "value"@),
                amounts@ =~= seq![1i64, 2i64, 4i64, 8i64, 16i64],
                r@.len() == j,
                forall|i: int|
                    0 <= i < j ==> {
                        let expected = clamp_i64(i64_at(state@, "value"@) - step_amount(i));
                        (#[trigger] r@[i]).1 == 1 && r@[i].0.action@ == "subtraction"@
                            && r@[i].0.result@ == state@.insert("value"@, FieldVal::I64(expected))
                            && (r@[i].0.argument matches Some(f) && f@ == FieldVal::I64(
                            step_amount(i),
                        ))
                    },
            decreases 5 - j,
        {
            let amount = amounts[j];
            proof {
                assert(amount == step_amount(j as int));
            }
            let wide: i128 = prev as i128 - amount as i128;
            let next: i64 = if wide < i64::MIN as i128 {
                i64::MIN
            } else {
                wide as i64
            };
            r.push(
                (
                    Consequence {
                        action: self.key(),
                        argument: Some(Field::I64(amount)),
                        result: state.with_field("value", Field::I64(next)),
                    },
                    1,
                ),
            );
            j = j + 1;
        }
        r
    }
}

/// An action that chops wood, in a slow cheap stroke or a fast dear one; it
/// needs an axe, and is inapplicable without one.
pub struct ChopAction {}

impl Action for ChopAction {
    fn key(&self) -> (r: String)
        ensures
            r@ == "chop"@,
    {
        "chop".to_owned()
    }

    fn prepare(&self, state: &State) -> (r: State)
        ensures
            r@ == defaulted(
                defaulted(state@, "wood"@, FieldVal::U64(0)),
                "axe"@,
                FieldVal::Bool(false),
            ),
    {
        let with_wood = default_field(state, "wood", Field::U64(0));
        default_field(&with_wood, "axe", Field::Bool(false))
    }

    fn options(&self, state: &State) -> (r: Vec<(Consequence, u64)>)
        ensures
            !bool_at(state@, "axe"@) ==> r@.len() == 0,
            bool_at(state@, "axe"@) ==> {
                let wood = u64_at(state@, "wood"@);
                r@.len() == 2 && r@[0].0.result@ == state@.insert(
                    "wood"@,
                    FieldVal::U64(sat64((wood + 2) as nat)),
                ) && r@[0].1 == 1 && r@[1].0.result@ == state@.insert(
                    "wood"@,
                    FieldVal::U64(sat64((wood + 8) as nat)),
                ) && r@[1].1 == 4
            },
            forall|i: int|
                0 <= i < r@.len() ==> (#[trigger] r@[i]).0.action@ == "chop"@ && r@[i].0.argument
                    is None,
    {
        let wood = match state.get_as_u64("wood") {
            Some(v) => v,
            None => 0,
        };
        let axe = match state.get_as_bool("axe") {
            Some(v) => v,
            None => false,
        };
        let mut r: Vec<(Consequence, u64)> = Vec::new();
        if axe {
            r.push(
                (
                    Consequence {
                        action: self.key(),
                        argument: None,
                        result: state.with_field("wood", Field::U64(wood.saturating_add(2))),
                    },
                    1,
                ),
            );
            r.push(
                (
                    Consequence {
                        action: self.key(),
                        argument: None,
                        result: state.with_field("wood", Field::U64(wood.saturating_add(8))),
                    },
                    4,
                ),
            );
        }
        r
    }
}

/// An action that collects one mushroom at a time.
pub struct CollectAction {}

impl Action for CollectAction {
    fn key(&self) -> (r: String)
        ensures
            r@ == "collect"@,
    {
        "collect".to_owned()
    }

    fn prepare(&self, state: &State) -> (r: State)
        ensures
            r@ == defaulted(state@, "shrooms"@, FieldVal::U64(0)),
    {
        default_field(state, "shrooms", Field::U64(0))
    }

    fn options(&self, state: &State) -> (r: Vec<(Consequence, u64)>)
        ensures
            r@.len() == 1,
            r@[0].0.action@ == "collect"@,
            (r@[0].0.argument matches Some(f) && f@ == FieldVal::Text("shrooms"@)),
            r@[0].0.result@ == state@.insert(
                "shrooms"@,
                FieldVal::U64(sat64((u64_at(state@, "shrooms"@) + 1) as nat)),
            ),
            r@[0].1 == 1,
    {
        let shrooms = match state.get_as_u64("shrooms") {
            Some(v) => v,
            None => 0,
        };
        let mut r: Vec<(Consequence, u64)> = Vec::new();
        r.push(
            (
                Consequence {
                    action: self.key(),
                    argument: Some(Field::String("shrooms".to_owned())),
                    result: state.with_field(
                        "shrooms",
                        Field::U64(shrooms.saturating_add(1)),
                    ),
                },
                1,
            ),
        );
        r
    }
}

/// An action that buys an axe for two coins; it is inapplicable unless the
/// buyer holds more than two coins.
pub struct BuyAction {}

impl Action for BuyAction {
    fn key(&self) -> (r: String)
        ensures
            r@ == "buy"@,
    {
        "buy".to_owned()
    }

    fn prepare(&self, state: &State) -> (r: State)
        ensures
            r@ == defaulted(
                defaulted(
                    defaulted(
                        defaulted(state@, "coins"@, FieldVal::U64(0)),
                        "axe"@,
                        FieldVal::Bool(false),
                    ),
                    "shrooms"@,
                    FieldVal::U64(0),
                ),
                "wood"@,
                FieldVal::U64(0),
            ),
    {
        let s = default_field(state, "coins", Field::U64(0));
        let s = default_field(&s, "axe", Field::Bool(false));
        let s = default_field(&s, "shrooms", Field::U64(0));
        default_field(&s, "wood", Field::U64(0))
    }

    fn options(&self, state: &State) -> (r: Vec<(Consequence, u64)>)
        ensures
            u64_at(state@, "coins"@) <= 2 ==> r@.len() == 0,
            u64_at(state@, "coins"@) > 2 ==> {
                let coins = u64_at(state@, "coins"@);
                r@.len() == 1 && r@[0].0.action@ == "buy"@ && (r@[0].0.argument matches Some(f)
                    && f@ == FieldVal::Text("axe"@)) && r@[0].0.result@ == state@.insert(
                    "axe"@,
                    FieldVal::Bool(true),
                ).insert("coins"@, FieldVal::U64((coins - 2) as u64)) && r@[0].1 == 1
            },
    {
        let coins = match state.get_as_u64("coins") {
            Some(v) => v,
            None => 0,
        };
        let mut r: Vec<(Consequence, u64)> = Vec::new();
        if coins > 2 {
            r.push(
                (
                    Consequence {
                        action: self.key(),
                        argument: Some(Field::String("axe".to_owned())),
                        result: state.with_field("axe", Field::Bool(true)).with_field(
                            "coins",
                            Field::U64(coins - 2),
                        ),
                    },
                    1,
                ),
            );
        }
        r
    }
}

/// What the sell action offers from a state: each entry is the resulting
/// state, the cost, and the argument naming what is sold. Wood and mushrooms
/// can each be sold one at a time or all at once when more than one is held,
/// and a held axe can be sold back for a coin.
pub open spec fn sell_offer(m: Map<Seq<char>, FieldVal>) -> Seq<
    (Map<Seq<char>, FieldVal>, u64, Seq<char>),
> {
    let coins = u64_at(m, "coins"@);
    let wood = u64_at(m, "wood"@);
    let shrooms = u64_at(m, "shrooms"@);
    let axe = bool_at(m, "axe"@);
    (if wood > 1 {
        seq![
            (
                m.insert("wood"@, FieldVal::U64((wood - 1) as u64)).insert(
                    "coins"@,
                    FieldVal::U64(sat64((coins + 3) as nat)),
                ),
                1u64,
                "wood"@,
            ),
            (
                m.insert("wood"@, FieldVal::U64(0)).insert(
                    "coins"@,
                    FieldVal::U64(sat64((coins + wood * 3) as nat)),
                ),
                1u64,
                "wood"@,
            ),
        ]
    } else {
        Seq::empty()
    }) + (if shrooms > 1 {
        seq![
            (
                m.insert("shrooms"@, FieldVal::U64((shrooms - 1) as u64)).insert(
                    "coins"@,
                    FieldVal::U64(sat64((coins + 1) as nat)),
                ),
                1u64,
                "shrooms"@,
            ),
            (
                m.insert("shrooms"@, FieldVal::U64(0)).insert(
                    "coins"@,
                    FieldVal::U64(sat64((coins + shrooms) as nat)),
                ),
                1u64,
                "shrooms"@,
            ),
        ]
    } else {
        Seq::empty()
    }) + (if axe {
        seq![
            (
                m.insert("axe"@, FieldVal::Bool(false)).insert(
                    "coins"@,
                    FieldVal::U64(sat64((coins + 1) as nat)),
                ),
                1u64,
                "axe"@,
            ),
        ]
    } else {
        Seq::empty()
    })
}

/// An action that sells wood, mushrooms or the axe for coins.
pub struct SellAction {}

impl Action for SellAction {
    fn key(&self) -> (r: String)
        ensures
            r@ == "sell"@,
    {
        "sell".to_owned()
    }

    fn prepare(&self, state: &State) -> (r: State)
        ensures
            r@ == defaulted(
                defaulted(
                    defaulted(
                        defaulted(state@, "coins"@, FieldVal::U64(0)),
                        "axe"@,
                        FieldVal::Bool(false),
                    ),
                    "shrooms"@,
                    FieldVal::U64(0),
                ),
                "wood"@,
                FieldVal::U64(0),
            ),
    {
        let s = default_field(state, "coins", Field::U64(0));
        let s = default_field(&s, "axe", Field::Bool(false));
        let s = default_field(&s, "shrooms", Field::U64(0));
        default_field(&s, "wood", Field::U64(0))
    }

    fn options(&self, state: &State) -> (r: Vec<(Consequence, u64)>)
        ensures
            r@.len() == sell_offer(state@).len(),
            forall|i: int|
                0 <= i < r@.len() ==> {
                    let offer = sell_offer(state@)[i];
                    (#[trigger] r@[i]).0.action@ == "sell"@ && r@[i].0.result@ == offer.0 && r@[
                        i
                    ].1 == offer.1 && (r@[i].0.argument matches Some(f) && f@ == FieldVal::Text(
                        offer.2,
                    ))
                },
    {
        let coins = match state.get_as_u64("coins") {
            Some(v) => v,
            None => 0,
        };
        let wood = match state.get_as_u64("wood") {
            Some(v) => v,
            None => 0,
        };
        let shrooms = match state.get_as_u64("shrooms") {
            Some(v) => v,
            None => 0,
        };
        let axe = match state.get_as_bool("axe") {
            Some(v) => v,
            None => false,
        };
        let mut r: Vec<(Consequence, u64)> = Vec::new();
        if wood > 1 {
            r.push(
                (
                    Consequence {
                        action: self.key(),
                        argument: Some(Field::String("wood".to_owned())),
                        result: state.with_field("wood", Field::U64(wood - 1)).with_field(
                            "coins",
                            Field::U64(coins.saturating_add(3)),
                        ),
                    },
                    1,
                ),
            );
            let sale: u64 = if wood > u64::MAX / 3 {
                u64::MAX
            } else {
                wood * 3
            };
            r.push(
                (
                    Consequence {
                        action: self.key(),
                        argument: Some(Field::String("wood".to_owned())),
                        result: state.with_field("wood", Field::U64(0)).with_field(
                            "coins",
                            Field::U64(coins.saturating_add(sale)),
                        ),
                    },
                    1,
                ),
            );
        }
        if shrooms > 1 {
            r.push(
                (
                    Consequence {
                        action: self.key(),
                        argument: Some(Field::String("shrooms".to_owned())),
                        result: state.with_field("shrooms", Field::U64(shrooms - 1)).with_field(
                            "coins",
                            Field::U64(coins.saturating_add(1)),
                        ),
                    },
                    1,
                ),
            );
            r.push(
                (
                    Consequence {
                        action: self.key(),
                        argument: Some(Field::String("shrooms".to_owned())),
                        result: state.with_field("shrooms", Field::U64(0)).with_field(
                            "coins",
                            Field::U64(coins.saturating_add(shrooms)),
                        ),
                    },
                    1,
                ),
            );
        }
        if axe {
            r.push(
                (
                    Consequence {
                        action: self.key(),
                        argument: Some(Field::String("axe".to_owned())),
                        result: state.with_field("axe", Field::Bool(false)).with_field(
                            "coins",
                            Field::U64(coins.saturating_add(1)),
                        ),
                    },
                    1,
                ),
            );
        }
        r
    }
}

} // verus!
