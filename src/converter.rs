//! The conversion engine: checks that two units share a dimension and
//! describes how a value moves between them through the dimension's base
//! unit (Celsius for temperature, centimeter for length).
//!
//! Every formula is stored with exact ratios as its constants; evaluating
//! one on a number is left to the caller. `affine` gives the exact meaning
//! of a formula as a map `x ↦ (p·x + q) / r` over the rationals, which the
//! laws below are stated over.

use vstd::prelude::*;
use crate::units::{Unit, UnitDimension};

verus! {

/// The exact fraction `num / den`.
#[derive(PartialEq, Eq, Structural, Clone, Copy, Debug)]
pub struct Ratio {
    pub num: u64,
    pub den: u64,
}

/// One step of a conversion, in terms of the value `v` it is applied to.
#[derive(PartialEq, Eq, Structural, Clone, Copy, Debug)]
pub enum Formula {
    /// `v`
    Identity,
    /// `scale * (v - offset)`
    ScaledDifference { scale: Ratio, offset: Ratio },
    /// `scale * v + offset`
    ScaledSum { scale: Ratio, offset: Ratio },
    /// `v + c`
    Add(Ratio),
    /// `v - c`
    Subtract(Ratio),
    /// `v * c`
    Multiply(Ratio),
    /// `v / c`
    Divide(Ratio),
}

/// How to obtain the value in the target unit from the value in the source
/// unit.
#[derive(PartialEq, Eq, Structural, Clone, Copy, Debug)]
pub enum Plan {
    /// Source and target are the same unit: the value is returned untouched.
    Unchanged,
    /// Apply `to_base` to reach the base unit, then `from_base`.
    ViaBase { to_base: Formula, from_base: Formula },
}

/// A conversion between units of different dimensions.
#[derive(PartialEq, Eq, Structural, Clone, Copy, Debug)]
pub struct ConvertError {
    pub from_dim: UnitDimension,
    pub from_unit: Unit,
    pub to_dim: UnitDimension,
    pub to_unit: Unit,
}

impl Ratio {
    pub open spec fn wf(self) -> bool {
        self.den > 0
    }
}

impl Formula {
    /// Every fraction has a nonzero denominator and nothing divides by zero.
    pub open spec fn wf(self) -> bool {
        match self {
            Formula::Identity => true,
            Formula::ScaledDifference { scale, offset } => scale.wf() && offset.wf(),
            Formula::ScaledSum { scale, offset } => scale.wf() && offset.wf(),
            Formula::Add(c) => c.wf(),
            Formula::Subtract(c) => c.wf(),
            Formula::Multiply(c) => c.wf(),
            Formula::Divide(c) => c.wf() && c.num > 0,
        }
    }

    /// The formula as `(p, q, r)`, standing for `x ↦ (p·x + q) / r`.
    pub open spec fn affine(self) -> (int, int, int) {
        match self {
            Formula::Identity => (1, 0, 1),
            Formula::ScaledDifference { scale, offset } => (
                scale.num * offset.den,
                -(scale.num * offset.num),
                scale.den * offset.den,
            ),
            Formula::ScaledSum { scale, offset } => (
                scale.num * offset.den,
                scale.den * offset.num,
                scale.den * offset.den,
            ),
            Formula::Add(c) => (c.den as int, c.num as int, c.den as int),
            Formula::Subtract(c) => (c.den as int, -c.num, c.den as int),
            Formula::Multiply(c) => (c.num as int, 0, c.den as int),
            Formula::Divide(c) => (c.den as int, 0, c.num as int),
        }
    }
}

/// The map `f` followed by the map `g`, both in the form of `Formula::affine`.
pub open spec fn compose(f: (int, int, int), g: (int, int, int)) -> (int, int, int) {
    (g.0 * f.0, g.0 * f.1 + g.1 * f.2, f.2 * g.2)
}

/// `x ↦ (p·x + q) / r` sends every `x` to itself.
pub open spec fn is_identity(f: (int, int, int)) -> bool {
    f.2 != 0 && f.0 == f.2 && f.1 == 0
}

impl Plan {
    pub open spec fn affine(self) -> (int, int, int) {
        match self {
            Plan::Unchanged => (1, 0, 1),
            Plan::ViaBase { to_base, from_base } => compose(to_base.affine(), from_base.affine()),
        }
    }
}

impl Unit {
    /// The formula taking a value in this unit to the base unit.
    pub open spec fn spec_to_base(self) -> Formula {
        match self {
            Unit::Celsius => Formula::Identity,
            Unit::Fahrenheit => Formula::ScaledDifference {
                scale: Ratio { num: 5, den: 9 },
                offset: Ratio { num: 32, den: 1 },
            },
            Unit::Kelvin => Formula::Subtract(Ratio { num: 27315, den: 100 }),
            Unit::Centimeter => Formula::Identity,
            Unit::Inch => Formula::Multiply(Ratio { num: 254, den: 100 }),
            Unit::Kilometer => Formula::Multiply(Ratio { num: 100000, den: 1 }),
            Unit::Mile => Formula::Multiply(Ratio { num: 160930, den: 1 }),
        }
    }

    /// The formula taking a value in the base unit to this unit.
    pub open spec fn spec_from_base(self) -> Formula {
        match self {
            Unit::Celsius => Formula::Identity,
            Unit::Fahrenheit => Formula::ScaledSum {
                scale: Ratio { num: 9, den: 5 },
                offset: Ratio { num: 32, den: 1 },
            },
            Unit::Kelvin => Formula::Add(Ratio { num: 27315, den: 100 }),
            Unit::Centimeter => Formula::Identity,
            Unit::Inch => Formula::Divide(Ratio { num: 254, den: 100 }),
            Unit::Kilometer => Formula::Divide(Ratio { num: 100000, den: 1 }),
            Unit::Mile => Formula::Divide(Ratio { num: 160930, den: 1 }),
        }
    }

    /// The formula taking a value in this unit to the base unit of its
    /// dimension.
    pub fn to_base(&self) -> (r: Formula)
        ensures
            r == self.spec_to_base(),
            r.wf(),
    {
        match self {
            Unit::Celsius => Formula::Identity,
            Unit::Fahrenheit => Formula::ScaledDifference {
                scale: Ratio { num: 5, den: 9 },
                offset: Ratio { num: 32, den: 1 },
            },
            Unit::Kelvin => Formula::Subtract(Ratio { num: 27315, den: 100 }),
            Unit::Centimeter => Formula::Identity,
            Unit::Inch => Formula::Multiply(Ratio { num: 254, den: 100 }),
            Unit::Kilometer => Formula::Multiply(Ratio { num: 100000, den: 1 }),
            Unit::Mile => Formula::Multiply(Ratio { num: 160930, den: 1 }),
        }
    }

    /// The formula taking a value in the base unit of this unit's dimension
    /// to this unit.
    pub fn from_base(&self) -> (r: Formula)
        ensures
            r == self.spec_from_base(),
            r.wf(),
    {
        match self {
            Unit::Celsius => Formula::Identity,
            Unit::Fahrenheit => Formula::ScaledSum {
                scale: Ratio { num: 9, den: 5 },
                offset: Ratio { num: 32, den: 1 },
            },
            Unit::Kelvin => Formula::Add(Ratio { num: 27315, den: 100 }),
            Unit::Centimeter => Formula::Identity,
            Unit::Inch => Formula::Divide(Ratio { num: 254, den: 100 }),
            Unit::Kilometer => Formula::Divide(Ratio { num: 100000, den: 1 }),
            Unit::Mile => Formula::Divide(Ratio { num: 160930, den: 1 }),
        }
    }
}

impl ConvertError {
    pub open spec fn spec_message(self) -> Seq<char> {
        "Error: [ERROR] Cannot convert between different unit categories: ["@
            + self.from_dim.spec_name() + "] "@ + self.from_unit.spec_name() + " → ["@
            + self.to_dim.spec_name() + "] "@ + self.to_unit.spec_name()
    }

    /// The message shown to the user.
    pub fn message(&self) -> (r: String)
        ensures
            r@ == self.spec_message(),
    {
        let mut r = String::from_str(
            "Error: [ERROR] Cannot convert between different unit categories: [",
        );
        r.append(self.from_dim.name().as_str());
        r.append("] ");
        r.append(self.from_unit.name().as_str());
        r.append(" → [");
        r.append(self.to_dim.name().as_str());
        r.append("] ");
        r.append(self.to_unit.name().as_str());
        r
    }
}

/// The error for converting `from` to `to`, naming both dimensions and units.
pub open spec fn spec_mismatch(from: Unit, to: Unit) -> ConvertError {
    ConvertError {
        from_dim: from.spec_dimension(),
        from_unit: from,
        to_dim: to.spec_dimension(),
        to_unit: to,
    }
}

/// The outcome of converting from `from` to `to`.
pub open spec fn spec_plan(from: Unit, to: Unit) -> Result<Plan, ConvertError> {
    if from.spec_dimension() != to.spec_dimension() {
        Err(spec_mismatch(from, to))
    } else if from == to {
        Ok(Plan::Unchanged)
    } else {
        Ok(Plan::ViaBase { to_base: from.spec_to_base(), from_base: to.spec_from_base() })
    }
}

/// Succeeds exactly when both units measure the same dimension.
pub fn validate(from: &Unit, to: &Unit) -> (r: Result<(), ConvertError>)
    ensures
        r is Ok <==> from.spec_dimension() == to.spec_dimension(),
        r is Err ==> r == Err::<(), ConvertError>(spec_mismatch(*from, *to)),
{
    let from_dim = from.dimension();
    let to_dim = to.dimension();
    if from_dim != to_dim {
        return Err(ConvertError { from_dim, from_unit: *from, to_dim, to_unit: *to });
    }
    Ok(())
}

/// How a value in `from` becomes a value in `to`, or the error when the two
/// units measure different dimensions.
pub fn conversion_plan(from: &Unit, to: &Unit) -> (r: Result<Plan, ConvertError>)
    ensures
        r == spec_plan(*from, *to),
        r matches Ok(Plan::ViaBase { to_base, from_base }) ==> to_base.wf() && from_base.wf(),
{
    validate(from, to)?;
    if *from == *to {
        return Ok(Plan::Unchanged);
    }
    Ok(Plan::ViaBase { to_base: from.to_base(), from_base: to.from_base() })
}

/// Converting a unit to itself leaves the value untouched.
pub proof fn lemma_same_unit_unchanged(u: Unit)
    ensures
        spec_plan(u, u) == Ok::<Plan, ConvertError>(Plan::Unchanged),
        is_identity(Plan::Unchanged.affine()),
{
}

/// The exact maps of each unit's two formulas, as integer triples.
proof fn lemma_affine_table(u: Unit)
    ensures
        (u.spec_to_base().affine(), u.spec_from_base().affine()) == match u {
            Unit::Celsius => ((1int, 0int, 1int), (1int, 0int, 1int)),
            Unit::Fahrenheit => ((5int, -160int, 9int), (9int, 160int, 5int)),
            Unit::Kelvin => ((100int, -27315int, 100int), (100int, 27315int, 100int)),
            Unit::Centimeter => ((1int, 0int, 1int), (1int, 0int, 1int)),
            Unit::Inch => ((254int, 0int, 100int), (100int, 0int, 254int)),
            Unit::Kilometer => ((100000int, 0int, 1int), (1int, 0int, 100000int)),
            Unit::Mile => ((160930int, 0int, 1int), (1int, 0int, 160930int)),
        },
{
}

/// Converting from `a` to `b` and then back is the identity map.
pub open spec fn round_trips(a: Unit, b: Unit) -> bool {
    is_identity(compose(spec_plan(a, b)->Ok_0.affine(), spec_plan(b, a)->Ok_0.affine()))
}

/// Converting from `a` to `b` and back again gives the starting value, in
/// exact arithmetic.
pub proof fn lemma_round_trip(a: Unit, b: Unit)
    requires
        a.spec_dimension() == b.spec_dimension(),
    ensures
        spec_plan(a, b) is Ok,
        spec_plan(b, a) is Ok,
        round_trips(a, b),
{
    lemma_affine_table(a);
    lemma_affine_table(b);
    match a {
        Unit::Celsius => match b {
            Unit::Celsius => {},
            Unit::Fahrenheit => {
                assert(spec_plan(a, b)->Ok_0.affine() == (9int, 160int, 5int));
                assert(spec_plan(b, a)->Ok_0.affine() == (5int, -160int, 9int));
                assert(compose((9int, 160int, 5int), (5int, -160int, 9int))
                    == (45int, 0int, 45int)) by (nonlinear_arith);
            },
            Unit::Kelvin => {
                assert(spec_plan(a, b)->Ok_0.affine() == (100int, 27315int, 100int));
                assert(spec_plan(b, a)->Ok_0.affine() == (100int, -27315int, 100int));
                assert(compose((100int, 27315int, 100int), (100int, -27315int, 100int))
                    == (10000int, 0int, 10000int)) by (nonlinear_arith);
            },
            Unit::Centimeter => {},
            Unit::Inch => {},
            Unit::Kilometer => {},
            Unit::Mile => {},
        },
        Unit::Fahrenheit => match b {
            Unit::Celsius => {
                assert(spec_plan(a, b)->Ok_0.affine() == (5int, -160int, 9int));
                assert(spec_plan(b, a)->Ok_0.affine() == (9int, 160int, 5int));
                assert(compose((5int, -160int, 9int), (9int, 160int, 5int))
                    == (45int, 0int, 45int)) by (nonlinear_arith);
            },
            Unit::Fahrenheit => {},
            Unit::Kelvin => {
                assert(spec_plan(a, b)->Ok_0.affine() == (500int, 229835int, 900int));
                assert(spec_plan(b, a)->Ok_0.affine() == (900int, -229835int, 500int));
                assert(compose((500int, 229835int, 900int), (900int, -229835int, 500int))
                    == (450000int, 0int, 450000int)) by (nonlinear_arith);
            },
            Unit::Centimeter => {},
            Unit::Inch => {},
            Unit::Kilometer => {},
            Unit::Mile => {},
        },
        Unit::Kelvin => match b {
            Unit::Celsius => {
                assert(spec_plan(a, b)->Ok_0.affine() == (100int, -27315int, 100int));
                assert(spec_plan(b, a)->Ok_0.affine() == (100int, 27315int, 100int));
                assert(compose((100int, -27315int, 100int), (100int, 27315int, 100int))
                    == (10000int, 0int, 10000int)) by (nonlinear_arith);
            },
            Unit::Fahrenheit => {
                assert(spec_plan(a, b)->Ok_0.affine() == (900int, -229835int, 500int));
                assert(spec_plan(b, a)->Ok_0.affine() == (500int, 229835int, 900int));
                assert(compose((900int, -229835int, 500int), (500int, 229835int, 900int))
                    == (450000int, 0int, 450000int)) by (nonlinear_arith);
            },
            Unit::Kelvin => {},
            Unit::Centimeter => {},
            Unit::Inch => {},
            Unit::Kilometer => {},
            Unit::Mile => {},
        },
        Unit::Centimeter => match b {
            Unit::Celsius => {},
            Unit::Fahrenheit => {},
            Unit::Kelvin => {},
            Unit::Centimeter => {},
            Unit::Inch => {
                assert(spec_plan(a, b)->Ok_0.affine() == (100int, 0int, 254int));
                assert(spec_plan(b, a)->Ok_0.affine() == (254int, 0int, 100int));
                assert(compose((100int, 0int, 254int), (254int, 0int, 100int))
                    == (25400int, 0int, 25400int)) by (nonlinear_arith);
            },
            Unit::Kilometer => {
                assert(spec_plan(a, b)->Ok_0.affine() == (1int, 0int, 100000int));
                assert(spec_plan(b, a)->Ok_0.affine() == (100000int, 0int, 1int));
                assert(compose((1int, 0int, 100000int), (100000int, 0int, 1int))
                    == (100000int, 0int, 100000int)) by (nonlinear_arith);
            },
            Unit::Mile => {
                assert(spec_plan(a, b)->Ok_0.affine() == (1int, 0int, 160930int));
                assert(spec_plan(b, a)->Ok_0.affine() == (160930int, 0int, 1int));
                assert(compose((1int, 0int, 160930int), (160930int, 0int, 1int))
                    == (160930int, 0int, 160930int)) by (nonlinear_arith);
            },
        },
        Unit::Inch => match b {
            Unit::Celsius => {},
            Unit::Fahrenheit => {},
            Unit::Kelvin => {},
            Unit::Centimeter => {
                assert(spec_plan(a, b)->Ok_0.affine() == (254int, 0int, 100int));
                assert(spec_plan(b, a)->Ok_0.affine() == (100int, 0int, 254int));
                assert(compose((254int, 0int, 100int), (100int, 0int, 254int))
                    == (25400int, 0int, 25400int)) by (nonlinear_arith);
            },
            Unit::Inch => {},
            Unit::Kilometer => {
                assert(spec_plan(a, b)->Ok_0.affine() == (254int, 0int, 10000000int));
                assert(spec_plan(b, a)->Ok_0.affine() == (10000000int, 0int, 254int));
                assert(compose((254int, 0int, 10000000int), (10000000int, 0int, 254int))
                    == (2540000000int, 0int, 2540000000int)) by (nonlinear_arith);
            },
            Unit::Mile => {
                assert(spec_plan(a, b)->Ok_0.affine() == (254int, 0int, 16093000int));
                assert(spec_plan(b, a)->Ok_0.affine() == (16093000int, 0int, 254int));
                assert(compose((254int, 0int, 16093000int), (16093000int, 0int, 254int))
                    == (4087622000int, 0int, 4087622000int)) by (nonlinear_arith);
            },
        },
        Unit::Kilometer => match b {
            Unit::Celsius => {},
            Unit::Fahrenheit => {},
            Unit::Kelvin => {},
            Unit::Centimeter => {
                assert(spec_plan(a, b)->Ok_0.affine() == (100000int, 0int, 1int));
                assert(spec_plan(b, a)->Ok_0.affine() == (1int, 0int, 100000int));
                assert(compose((100000int, 0int, 1int), (1int, 0int, 100000int))
                    == (100000int, 0int, 100000int)) by (nonlinear_arith);
            },
            Unit::Inch => {
                assert(spec_plan(a, b)->Ok_0.affine() == (10000000int, 0int, 254int));
                assert(spec_plan(b, a)->Ok_0.affine() == (254int, 0int, 10000000int));
                assert(compose((10000000int, 0int, 254int), (254int, 0int, 10000000int))
                    == (2540000000int, 0int, 2540000000int)) by (nonlinear_arith);
            },
            Unit::Kilometer => {},
            Unit::Mile => {
                assert(spec_plan(a, b)->Ok_0.affine() == (100000int, 0int, 160930int));
                assert(spec_plan(b, a)->Ok_0.affine() == (160930int, 0int, 100000int));
                assert(compose((100000int, 0int, 160930int), (160930int, 0int, 100000int))
                    == (16093000000int, 0int, 16093000000int)) by (nonlinear_arith);
            },
        },
        Unit::Mile => match b {
            Unit::Celsius => {},
            Unit::Fahrenheit => {},
            Unit::Kelvin => {},
            Unit::Centimeter => {
                assert(spec_plan(a, b)->Ok_0.affine() == (160930int, 0int, 1int));
                assert(spec_plan(b, a)->Ok_0.affine() == (1int, 0int, 160930int));
                assert(compose((160930int, 0int, 1int), (1int, 0int, 160930int))
                    == (160930int, 0int, 160930int)) by (nonlinear_arith);
            },
            Unit::Inch => {
                assert(spec_plan(a, b)->Ok_0.affine() == (16093000int, 0int, 254int));
                assert(spec_plan(b, a)->Ok_0.affine() == (254int, 0int, 16093000int));
                assert(compose((16093000int, 0int, 254int), (254int, 0int, 16093000int))
                    == (4087622000int, 0int, 4087622000int)) by (nonlinear_arith);
            },
            Unit::Kilometer => {
                assert(spec_plan(a, b)->Ok_0.affine() == (160930int, 0int, 100000int));
                assert(spec_plan(b, a)->Ok_0.affine() == (100000int, 0int, 160930int));
                assert(compose((160930int, 0int, 100000int), (100000int, 0int, 160930int))
                    == (16093000000int, 0int, 16093000000int)) by (nonlinear_arith);
            },
            Unit::Mile => {},
        },
    }
}

/// Units of different dimensions never convert.
pub proof fn lemma_cross_dimension_fails(a: Unit, b: Unit)
    requires
        a.spec_dimension() != b.spec_dimension(),
    ensures
        spec_plan(a, b) == Err::<Plan, ConvertError>(spec_mismatch(a, b)),
{
}

} // verus!
