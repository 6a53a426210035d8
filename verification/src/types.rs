use vstd::prelude::*;
use crate::frac::Ratio;

verus! {

/// Upper bound, in milli-units, on every physical input the library accepts:
/// one billion milli-units, i.e. one million base units. Generous for any
/// physically meaningful temperature, heat capacity or density, and small
/// enough that every intermediate product of the simulation fits in `i128`
/// with room to spare.
pub const MAX_MILLI: u64 = 1_000_000_000;

/// Relative humidity is a dimensionless fraction in [0, 1], so at most 1000
/// milli-units.
pub const MAX_HUMIDITY_MILLI: u64 = 1000;

/// Thermal and adsorption properties of one MOF sorbent material.
///
/// All physical quantities are exact fixed-point values in milli-units of
/// the stated unit (a field value of 1500 means 1.5 of the unit).
#[derive(Clone, Copy, Debug, PartialEq, Eq, Structural)]
pub struct MOFThermalProperties {
    /// Material identifier (region/material code).
    pub fips: u32,
    /// Thermal conductivity, milli-W/(m*K).
    pub thermal_conductivity_milli: u64,
    /// Specific heat, milli-J/(kg*K).
    pub specific_heat_milli: u64,
    /// Density, milli-kg/m^3.
    pub density_milli: u64,
    /// Thermal stability limit, milli-K: above this temperature the
    /// material degrades.
    pub thermal_stability_milli_k: u64,
    /// Heat of adsorption, milli-kJ/mol.
    pub heat_of_adsorption_milli: u64,
}

impl MOFThermalProperties {
    /// Physically valid properties: every quantity strictly positive except
    /// the heat of adsorption, which may be zero, and all bounded so that
    /// simulation arithmetic stays exact.
    pub open spec fn wf(self) -> bool {
        &&& 0 < self.thermal_conductivity_milli <= MAX_MILLI
        &&& 0 < self.specific_heat_milli <= MAX_MILLI
        &&& 0 < self.density_milli <= MAX_MILLI
        &&& 0 < self.thermal_stability_milli_k <= MAX_MILLI
        &&& self.heat_of_adsorption_milli <= MAX_MILLI
    }
}

/// One cycle's operating point. Constructed by the caller per scenario and
/// mutated in place only by the optimizer.
///
/// Same fixed-point convention as `MOFThermalProperties`: milli-units.
#[derive(Clone, Copy, Debug, PartialEq, Eq, Structural)]
#[verifier::ext_equal]
pub struct OperatingConditions {
    /// Ambient temperature, milli-K.
    pub ambient_temp_milli_k: u64,
    /// Regeneration temperature, milli-K (typically above ambient).
    pub regeneration_temp_milli_k: u64,
    /// Relative humidity, milli-units of a dimensionless fraction in [0, 1].
    pub humidity_milli: u64,
    /// Pressure, milli-atm.
    pub pressure_milli_atm: u64,
    /// Cycle duration, milliseconds.
    pub cycle_time_milli_seconds: u64,
}

impl OperatingConditions {
    /// Physically sensible conditions: positive temperatures, pressure and
    /// duration, humidity within [0, 1], all bounded as for properties.
    pub open spec fn wf(self) -> bool {
        &&& 0 < self.ambient_temp_milli_k <= MAX_MILLI
        &&& 0 < self.regeneration_temp_milli_k <= MAX_MILLI
        &&& self.humidity_milli <= MAX_HUMIDITY_MILLI
        &&& 0 < self.pressure_milli_atm <= MAX_MILLI
        &&& 0 < self.cycle_time_milli_seconds <= MAX_MILLI
    }
}

/// Output snapshot of one simulation run, immutable once produced.
///
/// Yield, energy, efficiency and risk are exact rationals; the peak
/// temperature echoes the regeneration temperature that was used.
#[derive(Clone, Copy, Debug, PartialEq, Eq, Structural)]
pub struct SimulationResults {
    /// Water yield over the cycle, kg.
    pub water_yield_kg: Ratio,
    /// Heating energy demanded by the cycle, kJ.
    pub energy_consumption_kj: Ratio,
    /// Peak temperature reached, milli-K.
    pub max_temperature_milli_k: u64,
    /// Dimensionless ratio yield / energy; exactly zero when the heating
    /// energy is not positive.
    pub thermal_efficiency: Ratio,
    /// Thermal risk score, one of 0.1, 0.5 or 0.9; lower is safer.
    pub risk_score: Ratio,
}

} // verus!
