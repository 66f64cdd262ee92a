use soap::distance::{distance_eq, distance_i64, distance_u64, DistanceError};
use soap::field::Field;
use soap::requirement::CompareRequirement;

#[test]
fn distance_eq_zero_when_equal() {
    assert_eq!(distance_eq(true, true), 0);
    assert_eq!(distance_eq(false, true), 1);
    assert_eq!(distance_eq(7u64, 7u64), 0);
    assert_eq!(distance_eq(7u64, 8u64), 1);
}

#[test]
fn distance_u64_is_absolute_difference() {
    assert_eq!(distance_u64(10, 3), 7);
    assert_eq!(distance_u64(3, 10), 7);
    assert_eq!(distance_u64(5, 5), 0);
    assert_eq!(distance_u64(u64::MAX, 0), u64::MAX);
}

#[test]
fn distance_i64_is_absolute_difference() {
    assert_eq!(distance_i64(10, 3), 7);
    assert_eq!(distance_i64(-10, 3), 13);
    assert_eq!(distance_i64(-4, -9), 5);
    assert_eq!(distance_i64(i64::MAX, i64::MIN), u64::MAX);
}

#[test]
fn field_distance_to_self_is_zero() {
    let fields = vec![
        Field::Bool(true),
        Field::String("hello".to_owned()),
        Field::U64(42),
        Field::I64(-42),
        Field::Centi(125),
    ];
    for f in &fields {
        assert_eq!(f.distance_to(f), Ok(0));
    }
}

#[test]
fn field_distance_is_symmetric() {
    let pairs = vec![
        (Field::Bool(true), Field::Bool(false)),
        (Field::String("a".to_owned()), Field::String("b".to_owned())),
        (Field::U64(3), Field::U64(11)),
        (Field::I64(-3), Field::I64(11)),
        (Field::Centi(250), Field::Centi(100)),
        (Field::U64(3), Field::I64(3)),
    ];
    for (a, b) in &pairs {
        assert_eq!(a.distance_to(b), b.distance_to(a));
    }
}

#[test]
fn field_distance_values() {
    assert_eq!(Field::Bool(true).distance_to(&Field::Bool(false)), Ok(1));
    assert_eq!(
        Field::String("x".to_owned()).distance_to(&Field::String("y".to_owned())),
        Ok(1)
    );
    assert_eq!(Field::U64(10).distance_to(&Field::U64(4)), Ok(6));
    assert_eq!(Field::I64(-5).distance_to(&Field::I64(5)), Ok(10));
    assert_eq!(Field::Centi(150).distance_to(&Field::Centi(149)), Ok(1));
}

#[test]
fn field_distance_mismatch_is_error() {
    assert_eq!(
        Field::Bool(true).distance_to(&Field::U64(1)),
        Err(DistanceError::TypeMismatch)
    );
    assert_eq!(
        Field::U64(1).distance_to(&Field::I64(1)),
        Err(DistanceError::TypeMismatch)
    );
    assert_eq!(
        Field::Centi(100).distance_to(&Field::U64(1)),
        Err(DistanceError::TypeMismatch)
    );
}

#[test]
fn field_accessors_match_variant() {
    assert_eq!(Field::Bool(true).as_bool(), Some(true));
    assert_eq!(Field::Bool(true).as_u64(), None);
    assert_eq!(Field::U64(9).as_u64(), Some(9));
    assert_eq!(Field::U64(9).as_i64(), None);
    assert_eq!(Field::I64(-9).as_i64(), Some(-9));
    assert_eq!(Field::Centi(450).as_centi(), Some(450));
    assert_eq!(Field::String("s".to_owned()).as_bool(), None);
}

#[test]
fn field_from_primitives() {
    assert_eq!(Field::from(true), Field::Bool(true));
    assert_eq!(Field::from(3u64), Field::U64(3));
    assert_eq!(Field::from(-3i64), Field::I64(-3));
}

#[test]
fn field_equality_is_by_variant_and_value() {
    assert_eq!(Field::U64(1), Field::U64(1));
    assert_ne!(Field::U64(1), Field::U64(2));
    assert_ne!(Field::U64(1), Field::I64(1));
    assert_eq!(
        Field::String("ab".to_owned()),
        Field::String("ab".to_owned())
    );
}

#[test]
fn more_than_boundary_penalty() {
    let req = CompareRequirement::MoreThan(Field::U64(5));
    assert_eq!(req.distance_from(&Field::U64(5)), Ok(1));
    assert_eq!(req.distance_from(&Field::U64(6)), Ok(0));
    assert_eq!(req.distance_from(&Field::U64(4)), Ok(1));
    assert_eq!(req.distance_from(&Field::U64(1)), Ok(4));
}

#[test]
fn requirement_modes_on_integers() {
    let eq = CompareRequirement::Equals(Field::I64(10));
    assert_eq!(eq.distance_from(&Field::I64(10)), Ok(0));
    assert_eq!(eq.distance_from(&Field::I64(7)), Ok(3));

    let ge = CompareRequirement::MoreThanEquals(Field::I64(10));
    assert_eq!(ge.distance_from(&Field::I64(10)), Ok(0));
    assert_eq!(ge.distance_from(&Field::I64(11)), Ok(0));
    assert_eq!(ge.distance_from(&Field::I64(8)), Ok(2));

    let lt = CompareRequirement::LessThan(Field::I64(10));
    assert_eq!(lt.distance_from(&Field::I64(9)), Ok(0));
    assert_eq!(lt.distance_from(&Field::I64(10)), Ok(1));
    assert_eq!(lt.distance_from(&Field::I64(13)), Ok(3));

    let le = CompareRequirement::LessThanEquals(Field::I64(10));
    assert_eq!(le.distance_from(&Field::I64(10)), Ok(0));
    assert_eq!(le.distance_from(&Field::I64(12)), Ok(2));
}

#[test]
fn requirement_equals_on_booleans_and_strings() {
    let req = CompareRequirement::Equals(Field::Bool(true));
    assert_eq!(req.distance_from(&Field::Bool(true)), Ok(0));
    assert_eq!(req.distance_from(&Field::Bool(false)), Ok(1));

    let req = CompareRequirement::Equals(Field::String("axe".to_owned()));
    assert_eq!(req.distance_from(&Field::String("axe".to_owned())), Ok(0));
    assert_eq!(req.distance_from(&Field::String("saw".to_owned())), Ok(1));
}

#[test]
fn inequality_on_booleans_is_error() {
    let req = CompareRequirement::MoreThan(Field::Bool(false));
    assert_eq!(
        req.distance_from(&Field::Bool(true)),
        Err(DistanceError::TypeMismatch)
    );
    let req = CompareRequirement::LessThanEquals(Field::String("a".to_owned()));
    assert_eq!(
        req.distance_from(&Field::String("a".to_owned())),
        Err(DistanceError::TypeMismatch)
    );
}

#[test]
fn requirement_variant_mismatch_is_error() {
    let req = CompareRequirement::Equals(Field::U64(5));
    assert_eq!(
        req.distance_from(&Field::I64(5)),
        Err(DistanceError::TypeMismatch)
    );
    let req = CompareRequirement::MoreThan(Field::U64(5));
    assert_eq!(
        req.distance_from(&Field::Centi(500)),
        Err(DistanceError::TypeMismatch)
    );
}

#[test]
fn requirement_descriptions() {
    assert_eq!(
        CompareRequirement::Equals(Field::U64(1)).description(),
        "=="
    );
    assert_eq!(
        CompareRequirement::MoreThan(Field::U64(1)).description(),
        ">"
    );
    assert_eq!(
        CompareRequirement::MoreThanEquals(Field::U64(1)).description(),
        ">="
    );
    assert_eq!(
        CompareRequirement::LessThan(Field::U64(1)).description(),
        "<"
    );
    assert_eq!(
        CompareRequirement::LessThanEquals(Field::U64(1)).description(),
        "<="
    );
}

#[test]
fn centi_fields_collapse_sub_hundredth_differences() {
    // 1.234 and 1.235 both land on 123 hundredths when rounded.
    let a = Field::Centi((1.234f64 * 100.0).round() as u64);
    let b = Field::Centi((1.2349f64 * 100.0).round() as u64);
    assert_eq!(a.distance_to(&b), Ok(0));
    let c = Field::Centi((1.25f64 * 100.0).round() as u64);
    assert_eq!(a.distance_to(&c), Ok(2));
}
