//! The catalog of supported units: their dimension, name and symbol, and
//! parsing of a unit from its name.

use vstd::prelude::*;
use crate::text::{decimal_text, spec_decimal};

verus! {

/// Whether a unit is the one converted from or the one converted to.
#[derive(PartialEq, Eq, Structural, Clone, Copy, Debug)]
pub enum UnitType {
    Source,
    Target,
}

/// The physical quantity a unit measures.
#[derive(PartialEq, Eq, Structural, Clone, Copy, Debug)]
pub enum UnitDimension {
    Temperature,
    Length,
}

/// Every supported unit.
#[derive(PartialEq, Eq, Structural, Clone, Copy, Debug)]
pub enum Unit {
    Celsius,
    Fahrenheit,
    Kelvin,
    Centimeter,
    Inch,
    Kilometer,
    Mile,
}

impl UnitType {
    pub open spec fn spec_name(self) -> Seq<char> {
        match self {
            UnitType::Source => "Source"@,
            UnitType::Target => "Target"@,
        }
    }

    /// The capitalized name of the role.
    pub fn name(&self) -> (r: String)
        ensures
            r@ == self.spec_name(),
    {
        match self {
            UnitType::Source => String::from_str("Source"),
            UnitType::Target => String::from_str("Target"),
        }
    }
}

impl UnitDimension {
    pub open spec fn spec_name(self) -> Seq<char> {
        match self {
            UnitDimension::Temperature => "temperature"@,
            UnitDimension::Length => "length"@,
        }
    }

    /// The lowercase name of the dimension.
    pub fn name(&self) -> (r: String)
        ensures
            r@ == self.spec_name(),
    {
        match self {
            UnitDimension::Temperature => String::from_str("temperature"),
            UnitDimension::Length => String::from_str("length"),
        }
    }
}

impl Unit {
    pub open spec fn spec_dimension(self) -> UnitDimension {
        match self {
            Unit::Celsius | Unit::Fahrenheit | Unit::Kelvin => UnitDimension::Temperature,
            _ => UnitDimension::Length,
        }
    }

    /// The canonical name, which is also the key it is parsed from.
    pub open spec fn spec_name(self) -> Seq<char> {
        match self {
            Unit::Celsius => "celsius"@,
            Unit::Fahrenheit => "fahrenheit"@,
            Unit::Kelvin => "kelvin"@,
            Unit::Centimeter => "cm"@,
            Unit::Inch => "inch"@,
            Unit::Kilometer => "km"@,
            Unit::Mile => "miles"@,
        }
    }

    pub open spec fn spec_symbol(self) -> Seq<char> {
        match self {
            Unit::Celsius => "°C"@,
            Unit::Fahrenheit => "°F"@,
            Unit::Kelvin => "K"@,
            Unit::Centimeter => "cm"@,
            Unit::Inch => "inch"@,
            Unit::Kilometer => "km"@,
            Unit::Mile => "miles"@,
        }
    }

    /// The units in catalog order.
    pub open spec fn spec_all() -> Seq<Unit> {
        seq![
            Unit::Celsius,
            Unit::Fahrenheit,
            Unit::Kelvin,
            Unit::Centimeter,
            Unit::Inch,
            Unit::Kilometer,
            Unit::Mile,
        ]
    }

    /// The dimension the unit belongs to.
    pub fn dimension(&self) -> (r: UnitDimension)
        ensures
            r == self.spec_dimension(),
    {
        match self {
            Unit::Celsius | Unit::Fahrenheit | Unit::Kelvin => UnitDimension::Temperature,
            Unit::Centimeter | Unit::Inch | Unit::Kilometer | Unit::Mile => UnitDimension::Length,
        }
    }

    /// The canonical lowercase name of the unit.
    pub fn name(&self) -> (r: String)
        ensures
            r@ == self.spec_name(),
    {
        match self {
            Unit::Celsius => String::from_str("celsius"),
            Unit::Fahrenheit => String::from_str("fahrenheit"),
            Unit::Kelvin => String::from_str("kelvin"),
            Unit::Centimeter => String::from_str("cm"),
            Unit::Inch => String::from_str("inch"),
            Unit::Kilometer => String::from_str("km"),
            Unit::Mile => String::from_str("miles"),
        }
    }

    /// The symbol shown next to a value in this unit.
    pub fn symbol(&self) -> (r: String)
        ensures
            r@ == self.spec_symbol(),
    {
        match self {
            Unit::Celsius => String::from_str("°C"),
            Unit::Fahrenheit => String::from_str("°F"),
            Unit::Kelvin => String::from_str("K"),
            Unit::Centimeter => String::from_str("cm"),
            Unit::Inch => String::from_str("inch"),
            Unit::Kilometer => String::from_str("km"),
            Unit::Mile => String::from_str("miles"),
        }
    }

    /// Every supported unit, in the fixed catalog order.
    pub fn all_units() -> (r: [Unit; 7])
        ensures
            r@ == Self::spec_all(),
    {
        let r = [
            Unit::Celsius,
            Unit::Fahrenheit,
            Unit::Kelvin,
            Unit::Centimeter,
            Unit::Inch,
            Unit::Kilometer,
            Unit::Mile,
        ];
        assert(r@ =~= Self::spec_all());
        r
    }
}

/// A unit name that matches no unit, with the role it was given for.
#[derive(PartialEq, Eq, Clone, Debug)]
pub struct UnitError {
    pub role: UnitType,
    pub input: String,
}

impl UnitError {
    pub open spec fn spec_message(self) -> Seq<char> {
        "Error: [ERROR] "@ + self.role.spec_name() + " unit '"@ + self.input@
            + "' not recognized."@
    }

    /// The message shown to the user.
    pub fn message(&self) -> (r: String)
        ensures
            r@ == self.spec_message(),
    {
        let mut r = String::from_str("Error: [ERROR] ");
        r.append(self.role.name().as_str());
        r.append(" unit '");
        r.append(self.input.as_str());
        r.append("' not recognized.");
        r
    }
}

/// What `str::to_lowercase` makes of a string.
pub uninterp spec fn lower_of(s: Seq<char>) -> Seq<char>;

/// Relies on `str::to_lowercase`: the result depends on the characters
/// alone.
#[verifier::external_body]
fn lowercase(s: &str) -> (r: String)
    ensures
        r@ == lower_of(s@),
{
    s.to_lowercase()
}

/// The unit whose canonical name is exactly `s`, if there is one.
pub fn unit_from_lowered(s: &String) -> (r: Option<Unit>)
    ensures
        match r {
            Some(u) => u.spec_name() == s@,
            None => forall|u: Unit| u.spec_name() != s@,
        },
{
    let all = Unit::all_units();
    let mut i: usize = 0;
    while i < 7
        invariant
            0 <= i <= 7,
            all@ == Unit::spec_all(),
            forall|j: int| 0 <= j < i ==> all@[j].spec_name() != s@,
        decreases 7 - i,
    {
        let u = all[i];
        if *s == u.name() {
            return Some(u);
        }
        i = i + 1;
    }
    assert forall|u: Unit| u.spec_name() != s@ by {
        assert(Unit::spec_all().contains(u)) by {
            match u {
                Unit::Celsius => assert(Unit::spec_all()[0] == u),
                Unit::Fahrenheit => assert(Unit::spec_all()[1] == u),
                Unit::Kelvin => assert(Unit::spec_all()[2] == u),
                Unit::Centimeter => assert(Unit::spec_all()[3] == u),
                Unit::Inch => assert(Unit::spec_all()[4] == u),
                Unit::Kilometer => assert(Unit::spec_all()[5] == u),
                Unit::Mile => assert(Unit::spec_all()[6] == u),
            }
        }
    }
    None
}

/// The unit whose canonical name is `s`, if any.
pub open spec fn spec_unit_named(s: Seq<char>) -> Option<Unit> {
    if exists|u: Unit| u.spec_name() == s {
        Some(choose|u: Unit| u.spec_name() == s)
    } else {
        None
    }
}

/// No two units share a name.
pub proof fn lemma_name_injective(u: Unit, v: Unit)
    requires
        u.spec_name() == v.spec_name(),
    ensures
        u == v,
{
    reveal_strlit("celsius");
    reveal_strlit("fahrenheit");
    reveal_strlit("kelvin");
    reveal_strlit("cm");
    reveal_strlit("inch");
    reveal_strlit("km");
    reveal_strlit("miles");
    assert(Unit::Celsius.spec_name().len() == 7 && Unit::Celsius.spec_name()[0] == 'c');
    assert(Unit::Fahrenheit.spec_name().len() == 10 && Unit::Fahrenheit.spec_name()[0] == 'f');
    assert(Unit::Kelvin.spec_name().len() == 6 && Unit::Kelvin.spec_name()[0] == 'k');
    assert(Unit::Centimeter.spec_name().len() == 2 && Unit::Centimeter.spec_name()[0] == 'c');
    assert(Unit::Inch.spec_name().len() == 4 && Unit::Inch.spec_name()[0] == 'i');
    assert(Unit::Kilometer.spec_name().len() == 2 && Unit::Kilometer.spec_name()[0] == 'k');
    assert(Unit::Mile.spec_name().len() == 5 && Unit::Mile.spec_name()[0] == 'm');
}

/// Parses a unit from its name, ignoring case; `unit_type` names the role in
/// the error.
pub fn get_enum(unit: String, unit_type: UnitType) -> (r: Result<Unit, UnitError>)
    ensures
        match spec_unit_named(lower_of(unit@)) {
            Some(u) => r == Ok::<Unit, UnitError>(u),
            None => r matches Err(e) && e.role == unit_type && e.input@ == unit@,
        },
{
    let lowered = lowercase(unit.as_str());
    match unit_from_lowered(&lowered) {
        Some(u) => {
            proof {
                let c = choose|v: Unit| v.spec_name() == lowered@;
                lemma_name_injective(u, c);
            }
            Ok(u)
        },
        None => Err(UnitError { role: unit_type, input: unit }),
    }
}

/// The listing line of the unit at `index` in catalog order.
pub open spec fn spec_unit_line(index: int, u: Unit) -> Seq<char> {
    spec_decimal((index + 1) as nat) + ". ["@ + u.spec_dimension().spec_name() + "] "@
        + u.spec_name()
}

impl Unit {
    /// One numbered line per unit, in catalog order, giving its dimension and
    /// name.
    pub fn listing() -> (r: Vec<String>)
        ensures
            r@.len() == 7,
            forall|i: int| 0 <= i < 7 ==> #[trigger] r@[i]@ == spec_unit_line(i, Unit::spec_all()[i]),
    {
        let all = Unit::all_units();
        let mut lines: Vec<String> = Vec::new();
        let mut i: usize = 0;
        while i < 7
            invariant
                0 <= i <= 7,
                all@ == Unit::spec_all(),
                lines@.len() == i,
                forall|j: int| 0 <= j < i ==> #[trigger] lines@[j]@ == spec_unit_line(j, all@[j]),
            decreases 7 - i,
        {
            let u = all[i];
            let mut line = decimal_text(i + 1);
            line.append(". [");
            line.append(u.dimension().name().as_str());
            line.append("] ");
            line.append(u.name().as_str());
            lines.push(line);
            i = i + 1;
        }
        lines
    }
}

} // verus!
