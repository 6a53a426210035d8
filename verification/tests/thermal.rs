use mof_thermal::sim::{load_mof_properties, ThermalFluidSimulator};
use mof_thermal::types::{MOFThermalProperties, OperatingConditions};

fn sample_properties() -> MOFThermalProperties {
    MOFThermalProperties {
        fips: 1005,
        thermal_conductivity_milli: 500,
        specific_heat_milli: 1_000_000,
        density_milli: 600_000,
        thermal_stability_milli_k: 573_000,
        heat_of_adsorption_milli: 45_000,
    }
}

fn sample_conditions() -> OperatingConditions {
    OperatingConditions {
        ambient_temp_milli_k: 298_000,
        regeneration_temp_milli_k: 373_000,
        humidity_milli: 400,
        pressure_milli_atm: 1_000,
        cycle_time_milli_seconds: 3_600_000,
    }
}

#[test]
fn test_thermal_simulation() {
    let properties = sample_properties();
    let conditions = sample_conditions();

    let simulator = ThermalFluidSimulator::new(properties, conditions);
    let results = simulator.simulate_temperature_swing();

    assert!(results.water_yield_kg.num > 0 && results.water_yield_kg.den > 0);
    assert!(results.thermal_efficiency.num > 0 && results.thermal_efficiency.den > 0);
    // risk score strictly below 0.5
    assert!(2 * results.risk_score.num < results.risk_score.den);
}

#[test]
fn test_optimization() {
    let properties = load_mof_properties(1005);
    let conditions = sample_conditions();

    let mut simulator = ThermalFluidSimulator::new(properties, conditions);
    let optimized = simulator.optimize_conditions();

    assert!(optimized.regeneration_temp_milli_k > 298_000);
    // strictly below 0.85 * 573 K
    assert!(100 * optimized.regeneration_temp_milli_k < 85 * 573_000);
}

#[test]
fn baseline_scenario_exact_values() {
    // ambient 298 K, regeneration 373 K, humidity 0.4: delta_t = 75 K,
    // heating energy 1000 * 75 + 45 = 75045, uptake 2/3, yield 0.3 * 2/3 = 0.2,
    // efficiency 0.2 / 75045 = 1 / 375225, stability ratio 373/573 -> low risk.
    let simulator = ThermalFluidSimulator::new(sample_properties(), sample_conditions());
    let r = simulator.simulate_temperature_swing();

    assert_eq!(r.max_temperature_milli_k, 373_000);
    assert_eq!(r.energy_consumption_kj.num * 1, 75_045 * r.energy_consumption_kj.den);
    assert_eq!(r.water_yield_kg.num * 5, 1 * r.water_yield_kg.den);
    assert_eq!(r.thermal_efficiency.num * 375_225, 1 * r.thermal_efficiency.den);
    assert_eq!(r.risk_score.num * 10, 1 * r.risk_score.den);
}

#[test]
fn high_regeneration_scenario_high_risk() {
    // regeneration 520 K on a 573 K stability limit: ratio about 0.908,
    // which lands in the high-risk bucket 0.9.
    let mut conditions = sample_conditions();
    conditions.regeneration_temp_milli_k = 520_000;
    let simulator = ThermalFluidSimulator::new(sample_properties(), conditions);
    let r = simulator.simulate_temperature_swing();

    assert_eq!(r.risk_score.num * 10, 9 * r.risk_score.den);
}

#[test]
fn risk_bucket_boundaries() {
    let mut properties = sample_properties();
    properties.thermal_stability_milli_k = 500_000;

    // strictly below 0.8: low risk 0.1
    let mut conditions = sample_conditions();
    conditions.regeneration_temp_milli_k = 399_990;
    let r = ThermalFluidSimulator::new(properties, conditions).simulate_temperature_swing();
    assert_eq!(r.risk_score.num * 10, 1 * r.risk_score.den);

    // exactly 0.8: moderate risk 0.5 (boundary is inclusive)
    conditions.regeneration_temp_milli_k = 400_000;
    let r = ThermalFluidSimulator::new(properties, conditions).simulate_temperature_swing();
    assert_eq!(r.risk_score.num * 2, 1 * r.risk_score.den);

    // just below 0.9: still moderate
    conditions.regeneration_temp_milli_k = 449_990;
    let r = ThermalFluidSimulator::new(properties, conditions).simulate_temperature_swing();
    assert_eq!(r.risk_score.num * 2, 1 * r.risk_score.den);

    // exactly 0.9: high risk 0.9 (boundary is inclusive)
    conditions.regeneration_temp_milli_k = 450_000;
    let r = ThermalFluidSimulator::new(properties, conditions).simulate_temperature_swing();
    assert_eq!(r.risk_score.num * 10, 9 * r.risk_score.den);
}

#[test]
fn yield_monotone_in_humidity() {
    let mut low = sample_conditions();
    low.humidity_milli = 200;
    let mut high = sample_conditions();
    high.humidity_milli = 400;
    let mut saturated = sample_conditions();
    saturated.humidity_milli = 1_000;

    let y1 = ThermalFluidSimulator::new(sample_properties(), low)
        .simulate_temperature_swing()
        .water_yield_kg;
    let y2 = ThermalFluidSimulator::new(sample_properties(), high)
        .simulate_temperature_swing()
        .water_yield_kg;
    let y3 = ThermalFluidSimulator::new(sample_properties(), saturated)
        .simulate_temperature_swing()
        .water_yield_kg;

    // non-decreasing, by cross-multiplication
    assert!(y1.num * y2.den <= y2.num * y1.den);
    assert!(y2.num * y3.den <= y3.num * y2.den);
    // strictly below the maximum capacity 0.3, since uptake stays below 1
    assert!(y3.num * 10 < 3 * y3.den);
}

#[test]
fn zero_humidity_gives_zero_yield_and_efficiency() {
    let mut conditions = sample_conditions();
    conditions.humidity_milli = 0;
    let r = ThermalFluidSimulator::new(sample_properties(), conditions)
        .simulate_temperature_swing();

    assert_eq!(r.water_yield_kg.num, 0);
    assert!(r.water_yield_kg.den > 0);
    assert_eq!(r.thermal_efficiency.num, 0);
}

#[test]
fn non_positive_heating_energy_guards_efficiency() {
    // regeneration below ambient: the heating energy is negative and the
    // efficiency must be exactly zero rather than a fault.
    let mut conditions = sample_conditions();
    conditions.regeneration_temp_milli_k = 200_000;
    let r = ThermalFluidSimulator::new(sample_properties(), conditions)
        .simulate_temperature_swing();

    assert!(r.energy_consumption_kj.num < 0);
    assert_eq!(r.thermal_efficiency.num, 0);
    assert_eq!(r.thermal_efficiency.den, 1);
}

#[test]
fn zero_swing_zero_adsorption_heat_gives_zero_efficiency() {
    let mut properties = sample_properties();
    properties.heat_of_adsorption_milli = 0;
    let mut conditions = sample_conditions();
    conditions.ambient_temp_milli_k = 300_000;
    conditions.regeneration_temp_milli_k = 300_000;
    let r = ThermalFluidSimulator::new(properties, conditions).simulate_temperature_swing();

    assert_eq!(r.energy_consumption_kj.num, 0);
    assert_eq!(r.thermal_efficiency.num, 0);
}

#[test]
fn load_mof_properties_placeholder_values() {
    let p = load_mof_properties(42);
    assert_eq!(p.fips, 42);
    assert_eq!(p.thermal_conductivity_milli, 500);
    assert_eq!(p.specific_heat_milli, 1_000_000);
    assert_eq!(p.density_milli, 600_000);
    assert_eq!(p.thermal_stability_milli_k, 573_000);
    assert_eq!(p.heat_of_adsorption_milli, 45_000);
}
