use temp_converter::state::App;
use temp_converter::unit::TempUnit;

#[test]
fn initial_state() {
    let a = App::new();
    assert_eq!(a.start_temp, 0);
    assert_eq!(a.start_temp_unit, TempUnit::Celsius);
    assert_eq!(a.final_temp_unit, TempUnit::Fahrenheit);
}

#[test]
fn source_change_preserves_displayed_value() {
    let mut a = App::new();
    a.start_temp = 100;
    a.apply_source_change(TempUnit::Kelvin);
    // 100 °C re-expressed in Kelvin, not left at 100 and not reset to 0.
    assert_eq!(a.start_temp, 373);
    assert_eq!(a.start_temp_unit, TempUnit::Kelvin);
}

#[test]
fn source_change_reassigns_colliding_target() {
    let mut a = App::new();
    // Target starts as Fahrenheit; picking Fahrenheit as the source must
    // push the target to the first other unit in canonical order: Celsius.
    a.apply_source_change(TempUnit::Fahrenheit);
    assert_eq!(a.start_temp_unit, TempUnit::Fahrenheit);
    assert_eq!(a.final_temp_unit, TempUnit::Celsius);
    assert_eq!(a.start_temp, 32);
}

#[test]
fn source_change_to_target_celsius_falls_back_to_fahrenheit() {
    let mut a = App::new();
    a.apply_target_change(TempUnit::Kelvin);
    a.apply_source_change(TempUnit::Kelvin);
    // Kelvin was the target: the fallback for a non-Celsius source is Celsius.
    assert_eq!(a.final_temp_unit, TempUnit::Celsius);
    // Celsius is now the target; picking it as the source skips Celsius in
    // the canonical order and lands on Fahrenheit.
    a.apply_source_change(TempUnit::Celsius);
    assert_eq!(a.final_temp_unit, TempUnit::Fahrenheit);
    assert_eq!(a.start_temp, 0);
}

#[test]
fn units_stay_distinct_over_event_sequences() {
    let units = [TempUnit::Celsius, TempUnit::Fahrenheit, TempUnit::Kelvin];
    let mut a = App::new();
    for i in 0..30usize {
        let u = units[i % 3];
        if i % 2 == 0 {
            a.apply_source_change(u);
        } else if u != a.start_temp_unit {
            a.apply_target_change(u);
        }
        assert_ne!(a.start_temp_unit, a.final_temp_unit);
    }
}

#[test]
fn slider_bounds_per_unit() {
    let mut a = App::new();
    assert_eq!(a.slider_bounds(), (0, 100));
    a.apply_source_change(TempUnit::Fahrenheit);
    assert_eq!(a.slider_bounds(), (32, 212));
    a.apply_source_change(TempUnit::Kelvin);
    assert_eq!(a.slider_bounds(), (273, 373));
}

#[test]
fn result_value_converts_current_state() {
    let mut a = App::new();
    a.start_temp = 100;
    assert_eq!(a.result_value(), 212);
    a.apply_target_change(TempUnit::Kelvin);
    assert_eq!(a.result_value(), 373);
}

#[test]
fn unit_names_and_symbols() {
    assert_eq!(TempUnit::Celsius.name(), "Celsius");
    assert_eq!(TempUnit::Fahrenheit.name(), "Fahrenheit");
    assert_eq!(TempUnit::Kelvin.name(), "Kelvin");
    assert_eq!(TempUnit::Celsius.sym(), "°C");
    assert_eq!(TempUnit::Fahrenheit.sym(), "°F");
    assert_eq!(TempUnit::Kelvin.sym(), "K");
}

#[test]
fn all_units_in_canonical_order() {
    let all = TempUnit::all();
    assert_eq!(
        all,
        [TempUnit::Celsius, TempUnit::Fahrenheit, TempUnit::Kelvin]
    );
}

#[test]
fn first_other_follows_canonical_order() {
    assert_eq!(TempUnit::Celsius.first_other(), TempUnit::Fahrenheit);
    assert_eq!(TempUnit::Fahrenheit.first_other(), TempUnit::Celsius);
    assert_eq!(TempUnit::Kelvin.first_other(), TempUnit::Celsius);
}
