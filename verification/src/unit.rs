use vstd::prelude::*;

verus! {

/// The three temperature scales the converter knows, in canonical
/// declaration order: Celsius first, then Fahrenheit, then Kelvin.
/// The order is what the state logic falls back on when it must pick
/// a target unit different from the source unit.
#[derive(PartialEq, Eq, Copy, Clone, Debug, Structural)]
pub enum TempUnit {
    Celsius,
    Fahrenheit,
    Kelvin,
}

impl TempUnit {
    /// Every unit, in canonical order.
    pub fn all() -> (r: [TempUnit; 3])
        ensures
            r@.len() == 3,
            r@[0] == TempUnit::Celsius,
            r@[1] == TempUnit::Fahrenheit,
            r@[2] == TempUnit::Kelvin,
    {
        [TempUnit::Celsius, TempUnit::Fahrenheit, TempUnit::Kelvin]
    }

    /// The unit's display name.
    pub open spec fn spec_name(self) -> Seq<char> {
        match self {
            TempUnit::Celsius => "Celsius"@,
            TempUnit::Fahrenheit => "Fahrenheit"@,
            TempUnit::Kelvin => "Kelvin"@,
        }
    }

    /// The unit's display name, e.g. `"Celsius"`.
    pub fn name(&self) -> (r: &'static str)
        ensures
            r@ == self.spec_name(),
    {
        match self {
            TempUnit::Celsius => "Celsius",
            TempUnit::Fahrenheit => "Fahrenheit",
            TempUnit::Kelvin => "Kelvin",
        }
    }

    /// The unit's symbol.
    pub open spec fn spec_sym(self) -> Seq<char> {
        match self {
            TempUnit::Celsius => "°C"@,
            TempUnit::Fahrenheit => "°F"@,
            TempUnit::Kelvin => "K"@,
        }
    }

    /// The unit's symbol, e.g. `"°C"`.
    pub fn sym(&self) -> (r: &'static str)
        ensures
            r@ == self.spec_sym(),
    {
        match self {
            TempUnit::Celsius => "°C",
            TempUnit::Fahrenheit => "°F",
            TempUnit::Kelvin => "K",
        }
    }

    /// The first unit in canonical order that is not `self`: Celsius,
    /// unless `self` is Celsius, in which case Fahrenheit.
    pub open spec fn spec_first_other(self) -> TempUnit {
        if self == TempUnit::Celsius {
            TempUnit::Fahrenheit
        } else {
            TempUnit::Celsius
        }
    }

    /// The first unit in canonical order that differs from `self`.
    pub fn first_other(&self) -> (r: TempUnit)
        ensures
            r == self.spec_first_other(),
            r != *self,
    {
        match self {
            TempUnit::Celsius => TempUnit::Fahrenheit,
            _ => TempUnit::Celsius,
        }
    }
}

} // verus!
