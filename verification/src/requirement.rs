//! A single-field goal predicate: a comparison mode bound to one target
//! field, with a distance-to-satisfaction measure that is 0 exactly when the
//! candidate field satisfies the comparison.

use vstd::prelude::*;

use crate::distance::{abs_diff_int, field_distance, DistanceError};
use crate::field::{same_variant, Field, FieldVal};

verus! {

/// The mathematical value of a [`CompareRequirement`].
pub enum ReqVal {
    Equals(FieldVal),
    MoreThan(FieldVal),
    MoreThanEquals(FieldVal),
    LessThan(FieldVal),
    LessThanEquals(FieldVal),
}

/// A requirement comparing a candidate field against one target field.
///
/// `Equals` applies to every variant; the four inequality modes apply only to
/// the numeric variants, and asking them of a boolean or string field is
/// reported as a `TypeMismatch` error.
#[derive(Debug)]
pub enum CompareRequirement {
    Equals(Field),
    MoreThan(Field),
    MoreThanEquals(Field),
    LessThan(Field),
    LessThanEquals(Field),
}

impl View for CompareRequirement {
    type V = ReqVal;

    open spec fn view(&self) -> ReqVal {
        match self {
            CompareRequirement::Equals(f) => ReqVal::Equals(f@),
            CompareRequirement::MoreThan(f) => ReqVal::MoreThan(f@),
            CompareRequirement::MoreThanEquals(f) => ReqVal::MoreThanEquals(f@),
            CompareRequirement::LessThan(f) => ReqVal::LessThan(f@),
            CompareRequirement::LessThanEquals(f) => ReqVal::LessThanEquals(f@),
        }
    }
}

impl Clone for CompareRequirement {
    fn clone(&self) -> (r: Self)
        ensures
            r == *self,
    {
        match self {
            CompareRequirement::Equals(f) => CompareRequirement::Equals(f.clone()),
            CompareRequirement::MoreThan(f) => CompareRequirement::MoreThan(f.clone()),
            CompareRequirement::MoreThanEquals(f) => CompareRequirement::MoreThanEquals(f.clone()),
            CompareRequirement::LessThan(f) => CompareRequirement::LessThan(f.clone()),
            CompareRequirement::LessThanEquals(f) => CompareRequirement::LessThanEquals(f.clone()),
        }
    }
}

/// The two integers of a numeric target/candidate pair of the same variant;
/// the inequality comparisons are defined only for these.
pub open spec fn numeric_pair(t: FieldVal, c: FieldVal) -> Option<(int, int)> {
    match (t, c) {
        (FieldVal::U64(a), FieldVal::U64(b)) => Some((a as int, b as int)),
        (FieldVal::I64(a), FieldVal::I64(b)) => Some((a as int, b as int)),
        (FieldVal::Centi(a), FieldVal::Centi(b)) => Some((a as int, b as int)),
        _ => None,
    }
}

/// Distance of the candidate `c` from an inequality against the target `t`:
/// 0 when the comparison already holds, 1 on the boundary of a strict
/// comparison, and the absolute difference otherwise.
pub open spec fn spec_inequality_distance(t: int, c: int, more: bool, strict: bool) -> nat {
    if (more && c > t) || (!more && c < t) {
        0nat
    } else if c == t {
        if strict {
            1nat
        } else {
            0nat
        }
    } else {
        abs_diff_int(t, c)
    }
}

/// The distance of the candidate field from satisfying the requirement, or
/// nothing when the requirement does not apply to the candidate's variant.
pub open spec fn req_distance(req: ReqVal, candidate: FieldVal) -> Option<nat> {
    match req {
        ReqVal::Equals(t) => field_distance(t, candidate),
        ReqVal::MoreThan(t) => match numeric_pair(t, candidate) {
            Some(p) => Some(spec_inequality_distance(p.0, p.1, true, true)),
            None => None,
        },
        ReqVal::MoreThanEquals(t) => match numeric_pair(t, candidate) {
            Some(p) => Some(spec_inequality_distance(p.0, p.1, true, false)),
            None => None,
        },
        ReqVal::LessThan(t) => match numeric_pair(t, candidate) {
            Some(p) => Some(spec_inequality_distance(p.0, p.1, false, true)),
            None => None,
        },
        ReqVal::LessThanEquals(t) => match numeric_pair(t, candidate) {
            Some(p) => Some(spec_inequality_distance(p.0, p.1, false, false)),
            None => None,
        },
    }
}

/// Whether the candidate field satisfies the requirement.
pub open spec fn req_satisfied(req: ReqVal, candidate: FieldVal) -> bool {
    match req {
        ReqVal::Equals(t) => same_variant(t, candidate) && t == candidate,
        ReqVal::MoreThan(t) => numeric_pair(t, candidate) matches Some(p) && p.1 > p.0,
        ReqVal::MoreThanEquals(t) => numeric_pair(t, candidate) matches Some(p) && p.1 >= p.0,
        ReqVal::LessThan(t) => numeric_pair(t, candidate) matches Some(p) && p.1 < p.0,
        ReqVal::LessThanEquals(t) => numeric_pair(t, candidate) matches Some(p) && p.1 <= p.0,
    }
}

/// The requirement distance is 0 exactly when the candidate satisfies the
/// requirement.
pub proof fn lemma_req_distance_zero(req: ReqVal, candidate: FieldVal)
    ensures
        (req_distance(req, candidate) == Some(0nat)) <==> req_satisfied(req, candidate),
{
}

/// Exec counterpart of [`spec_inequality_distance`], computed in a domain
/// wide enough that no subtraction overflows.
fn inequality_distance(t: i128, c: i128, more: bool, strict: bool) -> (r: u64)
    requires
        abs_diff_int(t as int, c as int) <= u64::MAX,
    ensures
        r as nat == spec_inequality_distance(t as int, c as int, more, strict),
{
    if (more && c > t) || (!more && c < t) {
        0
    } else if c == t {
        if strict {
            1
        } else {
            0
        }
    } else if t >= c {
        (t - c) as u64
    } else {
        (c - t) as u64
    }
}

impl CompareRequirement {
    /// The distance of the candidate field from satisfying this requirement,
    /// and a `TypeMismatch` error exactly when the requirement does not apply
    /// to the candidate's variant.
    pub fn distance_from(&self, other: &Field) -> (r: Result<u64, DistanceError>)
        ensures
            match r {
                Ok(d) => req_distance(self@, other@) == Some(d as nat),
                Err(e) => req_distance(self@, other@) is None && e == DistanceError::TypeMismatch,
            },
    {
        match self {
            CompareRequirement::Equals(t) => t.distance_to(other),
            CompareRequirement::MoreThan(t) => Self::inequality_from(t, other, true, true),
            CompareRequirement::MoreThanEquals(t) => Self::inequality_from(t, other, true, false),
            CompareRequirement::LessThan(t) => Self::inequality_from(t, other, false, true),
            CompareRequirement::LessThanEquals(t) => Self::inequality_from(t, other, false, false),
        }
    }

    /// One inequality comparison, dispatched over the numeric variants.
    fn inequality_from(t: &Field, c: &Field, more: bool, strict: bool) -> (r: Result<
        u64,
        DistanceError,
    >)
        ensures
            match r {
                Ok(d) => numeric_pair(t@, c@) matches Some(p) && d as nat
                    == spec_inequality_distance(p.0, p.1, more, strict),
                Err(e) => numeric_pair(t@, c@) is None && e == DistanceError::TypeMismatch,
            },
    {
        match (t, c) {
            (Field::U64(a), Field::U64(b)) => Ok(
                inequality_distance(*a as i128, *b as i128, more, strict),
            ),
            (Field::I64(a), Field::I64(b)) => Ok(
                inequality_distance(*a as i128, *b as i128, more, strict),
            ),
            (Field::Centi(a), Field::Centi(b)) => Ok(
                inequality_distance(*a as i128, *b as i128, more, strict),
            ),
            _ => Err(DistanceError::TypeMismatch),
        }
    }

    /// A short rendering of the comparison operator, for diagnostics.
    pub fn description(&self) -> (r: String)
        ensures
            r@ == self.spec_description(),
    {
        match self {
            CompareRequirement::Equals(_) => "==".to_owned(),
            CompareRequirement::MoreThan(_) => ">".to_owned(),
            CompareRequirement::MoreThanEquals(_) => ">=".to_owned(),
            CompareRequirement::LessThan(_) => "<".to_owned(),
            CompareRequirement::LessThanEquals(_) => "<=".to_owned(),
        }
    }

    /// The rendering `description` returns for each comparison mode.
    pub open spec fn spec_description(self) -> Seq<char> {
        match self@ {
            ReqVal::Equals(_) => "=="@,
            ReqVal::MoreThan(_) => ">"@,
            ReqVal::MoreThanEquals(_) => ">="@,
            ReqVal::LessThan(_) => "<"@,
            ReqVal::LessThanEquals(_) => "<="@,
        }
    }
}

} // verus!
