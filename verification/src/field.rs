//! A tagged scalar value stored in a world state.

use vstd::prelude::*;

verus! {

/// The mathematical value of a [`Field`]: the same variants, with the string
/// content as a sequence of characters.
pub enum FieldVal {
    Bool(bool),
    Text(Seq<char>),
    U64(u64),
    I64(i64),
    Centi(u64),
}

/// A tagged scalar value: a boolean, a string, an unsigned integer, a signed
/// integer, or a fractional number held as a whole count of hundredths.
///
/// Distance and equality are meaningful only between two fields of the same
/// variant; the distance operations report a mismatch as an error rather than
/// coercing.
#[derive(Debug, Hash)]
pub enum Field {
    Bool(bool),
    String(String),
    U64(u64),
    I64(i64),
    /// A fractional value as a whole number of hundredths: the resolution at
    /// which fractional fields are stored and compared, so values closer than
    /// a hundredth apart count as equal.
    Centi(u64),
}

impl View for Field {
    type V = FieldVal;

    open spec fn view(&self) -> FieldVal {
        match self {
            Field::Bool(b) => FieldVal::Bool(*b),
            Field::String(s) => FieldVal::Text(s@),
            Field::U64(n) => FieldVal::U64(*n),
            Field::I64(n) => FieldVal::I64(*n),
            Field::Centi(n) => FieldVal::Centi(*n),
        }
    }
}

impl Clone for Field {
    fn clone(&self) -> (r: Self)
        ensures
            r == *self,
    {
        match self {
            Field::Bool(b) => Field::Bool(*b),
            Field::String(s) => Field::String(s.clone()),
            Field::U64(n) => Field::U64(*n),
            Field::I64(n) => Field::I64(*n),
            Field::Centi(n) => Field::Centi(*n),
        }
    }
}

impl PartialEq for Field {
    fn eq(&self, other: &Self) -> (r: bool) {
        match (self, other) {
            (Field::Bool(a), Field::Bool(b)) => *a == *b,
            (Field::String(a), Field::String(b)) => *a == *b,
            (Field::U64(a), Field::U64(b)) => *a == *b,
            (Field::I64(a), Field::I64(b)) => *a == *b,
            (Field::Centi(a), Field::Centi(b)) => *a == *b,
            _ => false,
        }
    }
}

impl vstd::std_specs::cmp::PartialEqSpecImpl for Field {
    open spec fn obeys_eq_spec() -> bool {
        true
    }

    open spec fn eq_spec(&self, other: &Self) -> bool {
        self@ == other@
    }
}

impl Eq for Field {}

impl Field {
    /// The boolean held, if this field is a boolean.
    pub fn as_bool(&self) -> (r: Option<bool>)
        ensures
            r == (match self@ {
                FieldVal::Bool(b) => Some(b),
                _ => None::<bool>,
            }),
    {
        match self {
            Field::Bool(b) => Some(*b),
            _ => None,
        }
    }

    /// The signed integer held, if this field is a signed integer.
    pub fn as_i64(&self) -> (r: Option<i64>)
        ensures
            r == (match self@ {
                FieldVal::I64(n) => Some(n),
                _ => None::<i64>,
            }),
    {
        match self {
            Field::I64(n) => Some(*n),
            _ => None,
        }
    }

    /// The unsigned integer held, if this field is an unsigned integer.
    pub fn as_u64(&self) -> (r: Option<u64>)
        ensures
            r == (match self@ {
                FieldVal::U64(n) => Some(n),
                _ => None::<u64>,
            }),
    {
        match self {
            Field::U64(n) => Some(*n),
            _ => None,
        }
    }

    /// The count of hundredths held, if this field is a fractional value.
    pub fn as_centi(&self) -> (r: Option<u64>)
        ensures
            r == (match self@ {
                FieldVal::Centi(n) => Some(n),
                _ => None::<u64>,
            }),
    {
        match self {
            Field::Centi(n) => Some(*n),
            _ => None,
        }
    }
}

/// True when the two values hold the same variant.
pub open spec fn same_variant(a: FieldVal, b: FieldVal) -> bool {
    match (a, b) {
        (FieldVal::Bool(_), FieldVal::Bool(_)) => true,
        (FieldVal::Text(_), FieldVal::Text(_)) => true,
        (FieldVal::U64(_), FieldVal::U64(_)) => true,
        (FieldVal::I64(_), FieldVal::I64(_)) => true,
        (FieldVal::Centi(_), FieldVal::Centi(_)) => true,
        _ => false,
    }
}

impl From<bool> for Field {
    fn from(val: bool) -> (r: Self)
        ensures
            r == Field::Bool(val),
    {
        Field::Bool(val)
    }
}

impl vstd::std_specs::convert::FromSpecImpl<bool> for Field {
    open spec fn obeys_from_spec() -> bool {
        true
    }

    open spec fn from_spec(val: bool) -> Self {
        Field::Bool(val)
    }
}

impl From<u64> for Field {
    fn from(val: u64) -> (r: Self)
        ensures
            r == Field::U64(val),
    {
        Field::U64(val)
    }
}

impl vstd::std_specs::convert::FromSpecImpl<u64> for Field {
    open spec fn obeys_from_spec() -> bool {
        true
    }

    open spec fn from_spec(val: u64) -> Self {
        Field::U64(val)
    }
}

impl From<i64> for Field {
    fn from(val: i64) -> (r: Self)
        ensures
            r == Field::I64(val),
    {
        Field::I64(val)
    }
}

impl vstd::std_specs::convert::FromSpecImpl<i64> for Field {
    open spec fn obeys_from_spec() -> bool {
        true
    }

    open spec fn from_spec(val: i64) -> Self {
        Field::I64(val)
    }
}

} // verus!
