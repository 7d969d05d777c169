use crate::convert::{conv_in_range, spec_convert, spec_to_kelvin, to_kelvin_in_range};
use crate::unit::TempUnit;
use vstd::prelude::*;

verus! {

/// The converter works on 16-bit signed integer temperatures.
pub type TempVal = i16;

/// The converter's state: the current input value, the unit it is read
/// in, and the unit it is converted to.
///
/// Invariant: the source and target units are never equal (`wf`).
pub struct App {
    pub start_temp: TempVal,
    pub start_temp_unit: TempUnit,
    pub final_temp_unit: TempUnit,
}

impl App {
    /// The state invariant: the source unit and the target unit differ.
    pub open spec fn wf(self) -> bool {
        self.start_temp_unit != self.final_temp_unit
    }

    /// The initial state: 0 degrees Celsius, converted to Fahrenheit.
    pub fn new() -> (s: App)
        ensures
            s.start_temp == 0,
            s.start_temp_unit == TempUnit::Celsius,
            s.final_temp_unit == TempUnit::Fahrenheit,
            s.wf(),
    {
        App {
            start_temp: 0,
            start_temp_unit: TempUnit::Celsius,
            final_temp_unit: TempUnit::Fahrenheit,
        }
    }

    /// Converts `temp`, read in `unit`, to Kelvin with truncating integer
    /// arithmetic.
    pub fn to_kelvin(temp: TempVal, unit: TempUnit) -> (k: TempVal)
        requires
            to_kelvin_in_range(temp as int, unit),
        ensures
            k as int == spec_to_kelvin(temp as int, unit),
    {
        match unit {
            TempUnit::Celsius => temp + 273,
            TempUnit::Fahrenheit => (temp - 32) * 5 / 9 + 273,
            TempUnit::Kelvin => temp,
        }
    }

    /// Converts `start_temp` from `start_unit` to `final_temp_unit`,
    /// routing through the Kelvin intermediate.
    pub fn conv_temp(
        start_unit: TempUnit,
        start_temp: TempVal,
        final_temp_unit: TempUnit,
    ) -> (r: TempVal)
        requires
            conv_in_range(start_temp as int, start_unit, final_temp_unit),
        ensures
            r as int == spec_convert(start_temp as int, start_unit, final_temp_unit),
    {
        let k: TempVal = Self::to_kelvin(start_temp, start_unit);
        match final_temp_unit {
            TempUnit::Celsius => k - 273,
            TempUnit::Fahrenheit => k * 9 / 5 - 459,
            TempUnit::Kelvin => k,
        }
    }

    /// Handles the selection of a new source unit `t`: the displayed
    /// value is re-expressed in `t`, the source unit becomes `t`, and if
    /// the target unit would then collide with the source, the target is
    /// reassigned to the first unit in canonical order that is not `t`.
    pub fn apply_source_change(&mut self, t: TempUnit)
        requires
            old(self).wf(),
            conv_in_range(old(self).start_temp as int, old(self).start_temp_unit, t),
        ensures
            final(self).start_temp as int == spec_convert(
                old(self).start_temp as int,
                old(self).start_temp_unit,
                t,
            ),
            final(self).start_temp_unit == t,
            final(self).final_temp_unit == (if old(self).final_temp_unit == t {
                t.spec_first_other()
            } else {
                old(self).final_temp_unit
            }),
            final(self).wf(),
    {
        self.start_temp = Self::conv_temp(self.start_temp_unit, self.start_temp, t);
        self.start_temp_unit = t;
        if self.start_temp_unit == self.final_temp_unit {
            self.final_temp_unit = self.start_temp_unit.first_other();
        }
    }

    /// Handles the selection of a new target unit `t`. The selectable
    /// target units are exactly the units other than the current source
    /// unit, so `t` may be any unit but the source; nothing else changes.
    pub fn apply_target_change(&mut self, t: TempUnit)
        requires
            old(self).wf(),
            t != old(self).start_temp_unit,
        ensures
            final(self).start_temp == old(self).start_temp,
            final(self).start_temp_unit == old(self).start_temp_unit,
            final(self).final_temp_unit == t,
            final(self).wf(),
    {
        self.final_temp_unit = t;
    }

    /// The slider's valid range under the current source unit: 0 to 100
    /// degrees Celsius, expressed in that unit.
    pub fn slider_bounds(&self) -> (r: (TempVal, TempVal))
        ensures
            r.0 as int == spec_convert(0, TempUnit::Celsius, self.start_temp_unit),
            r.1 as int == spec_convert(100, TempUnit::Celsius, self.start_temp_unit),
            self.start_temp_unit == TempUnit::Celsius ==> r == (0i16, 100i16),
            self.start_temp_unit == TempUnit::Fahrenheit ==> r == (32i16, 212i16),
            self.start_temp_unit == TempUnit::Kelvin ==> r == (273i16, 373i16),
    {
        let lo: TempVal = Self::conv_temp(TempUnit::Celsius, 0, self.start_temp_unit);
        let hi: TempVal = Self::conv_temp(TempUnit::Celsius, 100, self.start_temp_unit);
        (lo, hi)
    }

    /// The value shown in the result label: the current input value
    /// converted from the source unit to the target unit.
    pub fn result_value(&self) -> (r: TempVal)
        requires
            conv_in_range(self.start_temp as int, self.start_temp_unit, self.final_temp_unit),
        ensures
            r as int == spec_convert(
                self.start_temp as int,
                self.start_temp_unit,
                self.final_temp_unit,
            ),
    {
        Self::conv_temp(self.start_temp_unit, self.start_temp, self.final_temp_unit)
    }
}

} // verus!
