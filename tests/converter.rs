use unitconv::{conversion_plan, validate, ConvertError, Formula, Plan, Ratio, Unit, UnitDimension};

fn ratio(r: &Ratio) -> f64 {
    r.num as f64 / r.den as f64
}

fn apply(formula: &Formula, v: f64) -> f64 {
    match formula {
        Formula::Identity => v,
        Formula::ScaledDifference { scale, offset } => ratio(scale) * (v - ratio(offset)),
        Formula::ScaledSum { scale, offset } => (ratio(scale) * v) + ratio(offset),
        Formula::Add(c) => v + ratio(c),
        Formula::Subtract(c) => v - ratio(c),
        Formula::Multiply(c) => v * ratio(c),
        Formula::Divide(c) => v / ratio(c),
    }
}

fn convert(from: Unit, to: Unit, v: f64) -> Result<f64, ConvertError> {
    match conversion_plan(&from, &to)? {
        Plan::Unchanged => Ok(v),
        Plan::ViaBase { to_base, from_base } => Ok(apply(&from_base, apply(&to_base, v))),
    }
}

#[test]
fn same_unit_is_unchanged() {
    for u in Unit::all_units() {
        assert_eq!(conversion_plan(&u, &u), Ok(Plan::Unchanged));
        for v in [0.1, -40.0, 98.6, 1e300, 123456.789] {
            assert_eq!(convert(u, u, v), Ok(v));
        }
    }
}

#[test]
fn round_trip_within_tolerance() {
    let units = Unit::all_units();
    for a in units {
        for b in units {
            if a.dimension() != b.dimension() {
                continue;
            }
            for v in [0.0, 1.0, -40.0, 98.6, 1234.5] {
                let there = convert(a, b, v).unwrap();
                let back = convert(b, a, there).unwrap();
                assert!((back - v).abs() <= 1e-9 * (1.0 + v.abs()), "{:?} {:?} {}", a, b, v);
            }
        }
    }
}

#[test]
fn cross_dimension_always_fails() {
    let units = Unit::all_units();
    for a in units {
        for b in units {
            if a.dimension() == b.dimension() {
                assert!(validate(&a, &b).is_ok());
                continue;
            }
            let expected = ConvertError {
                from_dim: a.dimension(),
                from_unit: a,
                to_dim: b.dimension(),
                to_unit: b,
            };
            assert_eq!(validate(&a, &b), Err(expected));
            assert_eq!(conversion_plan(&a, &b), Err(expected));
        }
    }
}

#[test]
fn known_conversions() {
    assert_eq!(convert(Unit::Celsius, Unit::Fahrenheit, 100.0), Ok(212.0));
    assert_eq!(convert(Unit::Celsius, Unit::Fahrenheit, 0.0), Ok(32.0));
    assert!((convert(Unit::Fahrenheit, Unit::Celsius, 212.0).unwrap() - 100.0).abs() < 1e-9);
    assert!((convert(Unit::Celsius, Unit::Kelvin, 0.0).unwrap() - 273.15).abs() < 1e-9);
    assert!((convert(Unit::Inch, Unit::Centimeter, 1.0).unwrap() - 2.54).abs() < 1e-12);
    assert!((convert(Unit::Mile, Unit::Kilometer, 1.0).unwrap() - 1.6093).abs() < 1e-12);
    assert!((convert(Unit::Kilometer, Unit::Mile, 10.0).unwrap() - 1e6 / 160930.0).abs() < 1e-12);
}

#[test]
fn formula_table() {
    assert_eq!(Unit::Celsius.to_base(), Formula::Identity);
    assert_eq!(
        Unit::Fahrenheit.to_base(),
        Formula::ScaledDifference {
            scale: Ratio { num: 5, den: 9 },
            offset: Ratio { num: 32, den: 1 }
        }
    );
    assert_eq!(
        Unit::Fahrenheit.from_base(),
        Formula::ScaledSum { scale: Ratio { num: 9, den: 5 }, offset: Ratio { num: 32, den: 1 } }
    );
    assert_eq!(Unit::Kelvin.from_base(), Formula::Add(Ratio { num: 27315, den: 100 }));
    assert_eq!(Unit::Mile.to_base(), Formula::Multiply(Ratio { num: 160930, den: 1 }));
    assert_eq!(Unit::Inch.from_base(), Formula::Divide(Ratio { num: 254, den: 100 }));
}

#[test]
fn incompatible_dimensions_message() {
    let e = validate(&Unit::Celsius, &Unit::Mile).unwrap_err();
    assert_eq!(e.from_dim, UnitDimension::Temperature);
    assert_eq!(
        e.message(),
        "Error: [ERROR] Cannot convert between different unit categories: [temperature] celsius → [length] miles"
    );
}
