//! Distance between two scalar values of the same kind: the building block
//! for the per-field, per-state and per-goal distance measures.

use vstd::prelude::*;
use crate::field::{Field, FieldVal};
use vstd::std_specs::cmp::PartialEqSpec;

verus! {

/// Distance between two values compared only for equality: 0 when they are
/// equal, 1 otherwise.
pub fn distance_eq<T: PartialEq>(this: T, other: T) -> (r: u64)
    ensures
        T::obeys_eq_spec() ==> r == (if this.eq_spec(&other) {
            0u64
        } else {
            1u64
        }),
{
    if this == other {
        0
    } else {
        1
    }
}

/// Absolute difference of two signed integers, computed in a wider domain so
/// that no subtraction can overflow.
pub fn distance_i64(this: i64, other: i64) -> (r: u64)
    ensures
        r == abs_diff_int(this as int, other as int),
{
    let wide: i128 = if this >= other {
        this as i128 - other as i128
    } else {
        other as i128 - this as i128
    };
    wide as u64
}

/// Absolute difference of two unsigned integers.
pub fn distance_u64(this: u64, other: u64) -> (r: u64)
    ensures
        r == abs_diff_int(this as int, other as int),
{
    if this >= other {
        this - other
    } else {
        other - this
    }
}

/// The absolute difference of two integers.
pub open spec fn abs_diff_int(this: int, other: int) -> nat {
    if this >= other {
        (this - other) as nat
    } else {
        (other - this) as nat
    }
}

/// The error reported when a distance is asked of two fields of different
/// variants, or of a comparison that does not apply to the field's variant.
#[derive(Clone, Copy, Debug, PartialEq, Eq, Structural)]
pub enum DistanceError {
    TypeMismatch,
}

/// The distance between two field values, or nothing when their variants
/// differ: 0-or-1 for booleans and strings, the absolute difference for the
/// numeric variants.
pub open spec fn field_distance(a: FieldVal, b: FieldVal) -> Option<nat> {
    match (a, b) {
        (FieldVal::Bool(x), FieldVal::Bool(y)) => Some(if x == y {
            0nat
        } else {
            1nat
        }),
        (FieldVal::Text(x), FieldVal::Text(y)) => Some(if x == y {
            0nat
        } else {
            1nat
        }),
        (FieldVal::U64(x), FieldVal::U64(y)) => Some(abs_diff_int(x as int, y as int)),
        (FieldVal::I64(x), FieldVal::I64(y)) => Some(abs_diff_int(x as int, y as int)),
        (FieldVal::Centi(x), FieldVal::Centi(y)) => Some(abs_diff_int(x as int, y as int)),
        _ => None,
    }
}

impl Field {
    /// The distance from this field to another of the same variant, and a
    /// `TypeMismatch` error exactly when the variants differ.
    pub fn distance_to(&self, other: &Field) -> (r: Result<u64, DistanceError>)
        ensures
            match r {
                Ok(d) => field_distance(self@, other@) == Some(d as nat),
                Err(e) => field_distance(self@, other@) is None && e == DistanceError::TypeMismatch,
            },
    {
        match (self, other) {
            (Field::Bool(a), Field::Bool(b)) => Ok(distance_eq(*a, *b)),
            (Field::String(a), Field::String(b)) => Ok(
                if *a == *b {
                    0
                } else {
                    1
                },
            ),
            (Field::U64(a), Field::U64(b)) => Ok(distance_u64(*a, *b)),
            (Field::I64(a), Field::I64(b)) => Ok(distance_i64(*a, *b)),
            (Field::Centi(a), Field::Centi(b)) => Ok(distance_u64(*a, *b)),
            _ => Err(DistanceError::TypeMismatch),
        }
    }
}

/// A mathematical distance clamped to what a `u64` can report.
pub open spec fn sat64(n: nat) -> u64 {
    if n <= u64::MAX {
        n as u64
    } else {
        u64::MAX
    }
}

/// The sum of two optional distances; a mismatch on either side spoils the
/// whole sum.
pub open spec fn add_dist(a: Option<nat>, b: Option<nat>) -> Option<nat> {
    match (a, b) {
        (Some(x), Some(y)) => Some((x + y) as nat),
        _ => None,
    }
}

/// The field a state holds at a key, or nothing when the key is absent.
pub open spec fn lookup(m: Map<Seq<char>, FieldVal>, k: Seq<char>) -> Option<FieldVal> {
    if m.contains_key(k) {
        Some(m[k])
    } else {
        None
    }
}

/// The sum, over every key of `to`, of `term` applied to what `from` holds at
/// that key and to `to`'s own value there.
pub open spec fn sum_over<T>(
    from: Map<Seq<char>, FieldVal>,
    to: Map<Seq<char>, T>,
    term: spec_fn(Option<FieldVal>, T) -> Option<nat>,
) -> Option<nat>
    decreases to.dom().len(),
    when to.dom().finite()
{
    if to.dom().len() == 0 {
        Some(0nat)
    } else {
        let k = to.dom().choose();
        add_dist(term(lookup(from, k), to[k]), sum_over(from, to.remove(k), term))
    }
}

/// The per-key term of the state-to-state distance: the field distance where
/// the key is shared, a penalty of 1 where `from` lacks the key.
pub open spec fn state_term() -> spec_fn(Option<FieldVal>, FieldVal) -> Option<nat> {
    |fv: Option<FieldVal>, tv: FieldVal|
        match fv {
            Some(a) => field_distance(a, tv),
            None => Some(1nat),
        }
}

/// The directional distance from the state `from` to the state `to`: the sum
/// of `to`'s per-key terms. Keys only `from` holds do not count.
pub open spec fn state_distance(
    from: Map<Seq<char>, FieldVal>,
    to: Map<Seq<char>, FieldVal>,
) -> Option<nat> {
    sum_over(from, to, state_term())
}

/// Extending `to` by a fresh key adds that key's term to the sum.
pub proof fn lemma_sum_over_insert<T>(
    from: Map<Seq<char>, FieldVal>,
    to: Map<Seq<char>, T>,
    term: spec_fn(Option<FieldVal>, T) -> Option<nat>,
    k: Seq<char>,
    v: T,
)
    requires
        to.dom().finite(),
        !to.contains_key(k),
    ensures
        sum_over(from, to.insert(k, v), term) == add_dist(
            term(lookup(from, k), v),
            sum_over(from, to, term),
        ),
    decreases to.dom().len(),
{
    let big = to.insert(k, v);
    let k2 = big.dom().choose();
    assert(big.dom().len() == to.dom().len() + 1);
    assert(big.dom().contains(k2));
    if k2 == k {
        assert(big.remove(k) =~= to);
    } else {
        assert(to.contains_key(k2));
        let rest = to.remove(k2);
        assert(big.remove(k2) =~= rest.insert(k, v));
        lemma_sum_over_insert(from, rest, term, k, v);
        assert(to =~= rest.insert(k2, to[k2]));
        lemma_sum_over_insert(from, rest, term, k2, to[k2]);
        assert(sum_over(from, big, term) == add_dist(
            term(lookup(from, k2), to[k2]),
            add_dist(term(lookup(from, k), v), sum_over(from, rest, term)),
        ));
        assert(add_dist(
            term(lookup(from, k2), to[k2]),
            add_dist(term(lookup(from, k), v), sum_over(from, rest, term)),
        ) == add_dist(
            term(lookup(from, k), v),
            add_dist(term(lookup(from, k2), to[k2]), sum_over(from, rest, term)),
        ));
    }
}

/// A key whose term is a mismatch spoils the whole sum.
pub proof fn lemma_sum_over_none<T>(
    from: Map<Seq<char>, FieldVal>,
    to: Map<Seq<char>, T>,
    term: spec_fn(Option<FieldVal>, T) -> Option<nat>,
    k: Seq<char>,
)
    requires
        to.dom().finite(),
        to.contains_key(k),
        term(lookup(from, k), to[k]) is None,
    ensures
        sum_over(from, to, term) is None,
{
    let rest = to.remove(k);
    assert(to =~= rest.insert(k, to[k]));
    lemma_sum_over_insert(from, rest, term, k, to[k]);
}

/// The sum is 0 exactly when every key's term is 0.
pub proof fn lemma_sum_over_zero<T>(
    from: Map<Seq<char>, FieldVal>,
    to: Map<Seq<char>, T>,
    term: spec_fn(Option<FieldVal>, T) -> Option<nat>,
)
    requires
        to.dom().finite(),
    ensures
        (sum_over(from, to, term) == Some(0nat)) <==> (forall|k: Seq<char>|
            to.contains_key(k) ==> term(lookup(from, k), to[k]) == Some(0nat)),
    decreases to.dom().len(),
{
    if to.dom().len() != 0 {
        let k = to.dom().choose();
        let rest = to.remove(k);
        lemma_sum_over_zero(from, rest, term);
        if sum_over(from, to, term) == Some(0nat) {
            assert forall|k2: Seq<char>| to.contains_key(k2) implies term(
                lookup(from, k2),
                to[k2],
            ) == Some(0nat) by {
                if k2 != k {
                    assert(rest.contains_key(k2) && rest[k2] == to[k2]);
                }
            }
        } else {
            if forall|k2: Seq<char>| to.contains_key(k2) ==> term(lookup(from, k2), to[k2])
                == Some(0nat) {
                assert forall|k2: Seq<char>| rest.contains_key(k2) implies term(
                    lookup(from, k2),
                    rest[k2],
                ) == Some(0nat) by {
                    assert(to.contains_key(k2) && to[k2] == rest[k2]);
                }
                assert(term(lookup(from, k), to[k]) == Some(0nat));
            }
        }
    }
}

/// A distance between two field values is defined exactly when they hold
/// the same variant; otherwise comparing them is a type mismatch.
pub proof fn lemma_field_distance_defined(a: FieldVal, b: FieldVal)
    ensures
        (field_distance(a, b) is Some) <==> crate::field::same_variant(a, b),
{
}

/// The distance from any field value to itself is 0.
pub proof fn lemma_field_distance_self(a: FieldVal)
    ensures
        field_distance(a, a) == Some(0nat),
{
}

/// The distance between two field values of the same variant is symmetric;
/// so is the mismatch between two variants.
pub proof fn lemma_field_distance_symmetric(a: FieldVal, b: FieldVal)
    ensures
        field_distance(a, b) == field_distance(b, a),
{
}

} // verus!
