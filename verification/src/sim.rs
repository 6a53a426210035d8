use vstd::prelude::*;
use crate::frac::{frac_div, frac_eq, frac_le, frac_lt, lemma_frac_le_lt_trans, Ratio};
use crate::model::{
    cand_conditions, cand_eff, cand_ok, cand_temp_milli, efficiency_ratio, energy_ratio,
    heating_energy_micro, is_cand, lemma_cand_wf, lemma_efficiency_ratio_bounds,
    lemma_heating_energy_bounds, lemma_risk_score_buckets, risk_is_low, risk_ratio,
    selected_cand, sweep_hi_k, sweep_lo_k, uptake_frac, yield_ratio, EFF_DEN_BOUND,
    EFF_NUM_BOUND,
};
use crate::types::{MOFThermalProperties, OperatingConditions, SimulationResults};

verus! {

/// Thermal-fluid simulator for one material and one operating point: the
/// unit of computation, stateless beyond the held properties and
/// conditions.
pub struct ThermalFluidSimulator {
    pub properties: MOFThermalProperties,
    pub conditions: OperatingConditions,
}

impl ThermalFluidSimulator {
    /// Create a simulator holding the given material properties and
    /// operating conditions.
    pub fn new(properties: MOFThermalProperties, conditions: OperatingConditions) -> (s: Self)
        ensures
            s.properties == properties,
            s.conditions == conditions,
    {
        ThermalFluidSimulator { properties, conditions }
    }

    /// Langmuir water uptake fraction at the held humidity.
    fn estimate_uptake_fraction(&self) -> (r: Ratio)
        requires
            self.conditions.wf(),
        ensures
            r.num == uptake_frac(self.conditions.humidity_milli as int).0,
            r.den == uptake_frac(self.conditions.humidity_milli as int).1,
            r.wf(),
    {
        let k_times_p: i128 = 5 * self.conditions.humidity_milli as i128;
        Ratio { num: k_times_p, den: 1000 + k_times_p }
    }

    /// Discretized thermal risk score of the held operating point.
    fn calculate_risk_score(&self) -> (r: Ratio)
        requires
            self.properties.wf(),
            self.conditions.wf(),
        ensures
            r == risk_ratio(self.properties, self.conditions),
    {
        let regen: u64 = self.conditions.regeneration_temp_milli_k;
        let stability: u64 = self.properties.thermal_stability_milli_k;
        if 10 * regen < 8 * stability {
            Ratio { num: 1, den: 10 }
        } else if 10 * regen < 9 * stability {
            Ratio { num: 5, den: 10 }
        } else {
            Ratio { num: 9, den: 10 }
        }
    }

    /// Run the temperature-swing adsorption simulation: a deterministic,
    /// side-effect-free function of the held properties and conditions.
    ///
    /// Every returned quantity equals the model value exactly; in
    /// particular, whenever the heating energy is strictly positive the
    /// efficiency is exactly `water_yield / heating_energy`, and otherwise
    /// it is exactly zero.
    pub fn simulate_temperature_swing(&self) -> (r: SimulationResults)
        requires
            self.properties.wf(),
            self.conditions.wf(),
        ensures
            r.max_temperature_milli_k == self.conditions.regeneration_temp_milli_k,
            r.energy_consumption_kj == energy_ratio(self.properties, self.conditions),
            r.water_yield_kg == yield_ratio(self.conditions),
            r.thermal_efficiency == efficiency_ratio(self.properties, self.conditions),
            r.risk_score == risk_ratio(self.properties, self.conditions),
            heating_energy_micro(self.properties, self.conditions) > 0 ==> frac_eq(
                r.thermal_efficiency.frac(),
                frac_div(r.water_yield_kg.frac(), r.energy_consumption_kj.frac()),
            ),
            heating_energy_micro(self.properties, self.conditions) <= 0
                ==> r.thermal_efficiency.frac().0 == 0,
            r.water_yield_kg.wf(),
            r.energy_consumption_kj.wf(),
            r.thermal_efficiency.wf(),
            r.risk_score.wf(),
    {
        proof {
            lemma_heating_energy_bounds(self.properties, self.conditions);
        }
        // Temperature differential for desorption.
        let delta_t: i128 = self.conditions.regeneration_temp_milli_k as i128
            - self.conditions.ambient_temp_milli_k as i128;

        // Energy required for heating: E = c_p * delta_t + Q_ads.
        let heating_energy: i128 = self.properties.specific_heat_milli as i128 * delta_t
            + 1000 * self.properties.heat_of_adsorption_milli as i128;

        // Water yield from the Langmuir isotherm capacity at the held
        // humidity, scaled by the fixed maximum capacity 0.3 g/g.
        let uptake = self.estimate_uptake_fraction();
        let water_yield = Ratio { num: 3 * uptake.num, den: 10 * uptake.den };

        // Thermal efficiency: water produced per energy consumed, guarded
        // against a non-positive heating energy.
        let efficiency = if heating_energy > 0 {
            proof {
                assert(water_yield.den * heating_energy <= 60_000 * heating_energy
                    && 0 < water_yield.den * heating_energy) by (nonlinear_arith)
                    requires
                        0 < water_yield.den <= 60_000,
                        0 < heating_energy,
                ;
            }
            Ratio { num: water_yield.num * 1_000_000, den: water_yield.den * heating_energy }
        } else {
            Ratio { num: 0, den: 1 }
        };

        // Risk assessment against the thermal stability limit.
        let risk_score = self.calculate_risk_score();

        SimulationResults {
            water_yield_kg: water_yield,
            energy_consumption_kj: Ratio { num: heating_energy, den: 1_000_000 },
            max_temperature_milli_k: self.conditions.regeneration_temp_milli_k,
            thermal_efficiency: efficiency,
            risk_score,
        }
    }

    /// Sweep the regeneration temperature over a coarse grid and keep the
    /// candidate of highest thermal efficiency whose risk score stays below
    /// the 0.5 ceiling, mutating the held conditions and returning a copy.
    ///
    /// The sweep runs over whole kelvins from `floor(ambient + 30)` up to
    /// but excluding `floor(0.85 * thermal_stability_limit)`, stepping by
    /// ten. Improvement is strict, so ties resolve to the first candidate
    /// encountered; if no candidate qualifies, the conditions come back
    /// unchanged.
    #[verifier::rlimit(100)]
    pub fn optimize_conditions(&mut self) -> (r: OperatingConditions)
        requires
            old(self).properties.wf(),
            old(self).conditions.wf(),
        ensures
            final(self).properties == old(self).properties,
            final(self).conditions.wf(),
            r == final(self).conditions,
            final(self).conditions.ambient_temp_milli_k
                == old(self).conditions.ambient_temp_milli_k,
            final(self).conditions.humidity_milli == old(self).conditions.humidity_milli,
            final(self).conditions.pressure_milli_atm
                == old(self).conditions.pressure_milli_atm,
            final(self).conditions.cycle_time_milli_seconds
                == old(self).conditions.cycle_time_milli_seconds,
            // some candidate qualifies: the selected one is kept, and it is
            // the strict-improvement optimum of the sweep
            (exists|k: int| cand_ok(old(self).properties, old(self).conditions, k))
                ==> exists|k: int|
                    selected_cand(old(self).properties, old(self).conditions, k)
                    && final(self).conditions.regeneration_temp_milli_k
                        == cand_temp_milli(old(self).conditions, k),
            // safety: a kept candidate sits in the low-risk bucket
            (exists|k: int| cand_ok(old(self).properties, old(self).conditions, k))
                ==> risk_is_low(old(self).properties, final(self).conditions),
            // range: a kept candidate lies within the sweep bounds, strictly
            // below the 15% safety margin
            (exists|k: int| cand_ok(old(self).properties, old(self).conditions, k))
                ==> sweep_lo_k(old(self).conditions) * 1000
                    <= final(self).conditions.regeneration_temp_milli_k
                    && 100 * final(self).conditions.regeneration_temp_milli_k
                        < 85 * old(self).properties.thermal_stability_milli_k,
            // with a whole-kelvin ambient temperature the lower sweep bound
            // is exactly ambient + 30
            (exists|k: int| cand_ok(old(self).properties, old(self).conditions, k))
                && old(self).conditions.ambient_temp_milli_k % 1000 == 0
                ==> old(self).conditions.ambient_temp_milli_k + 30_000
                    <= final(self).conditions.regeneration_temp_milli_k,
            // no candidate qualifies: the conditions pass through unchanged
            !(exists|k: int| cand_ok(old(self).properties, old(self).conditions, k))
                ==> final(self).conditions == old(self).conditions,
    {
        let ghost p = self.properties;
        let ghost c0 = self.conditions;
        let lo: u64 = (self.conditions.ambient_temp_milli_k + 30_000) / 1000;
        let hi: u64 = (self.properties.thermal_stability_milli_k * 85) / 100_000;
        let mut best_temp: u64 = self.conditions.regeneration_temp_milli_k;
        let mut best_eff: Ratio = Ratio { num: 0, den: 1 };
        let ghost mut best_k: int = -1;
        let ghost mut n: int = 0;
        let mut t: u64 = lo;
        while t < hi
            invariant
                p.wf(),
                c0.wf(),
                self.properties == p,
                self.conditions.ambient_temp_milli_k == c0.ambient_temp_milli_k,
                self.conditions.humidity_milli == c0.humidity_milli,
                self.conditions.pressure_milli_atm == c0.pressure_milli_atm,
                self.conditions.cycle_time_milli_seconds == c0.cycle_time_milli_seconds,
                lo == sweep_lo_k(c0),
                hi == sweep_hi_k(p),
                30 <= lo,
                hi <= 850_000,
                0 <= n,
                t == lo + 10 * n,
                -1 <= best_k,
                best_k == -1 ==> best_temp == c0.regeneration_temp_milli_k
                    && best_eff == (Ratio { num: 0, den: 1 })
                    && (forall|j: int| 0 <= j < n ==> !cand_ok(p, c0, j)),
                best_k >= 0 ==> 0 <= best_k < n
                    && cand_ok(p, c0, best_k)
                    && best_temp == cand_temp_milli(c0, best_k)
                    && best_eff.frac() == cand_eff(p, c0, best_k)
                    && (forall|j: int|
                        0 <= j < n && cand_ok(p, c0, j)
                            ==> frac_le(cand_eff(p, c0, j), cand_eff(p, c0, best_k)))
                    && (forall|j: int|
                        0 <= j < best_k && cand_ok(p, c0, j)
                            ==> frac_lt(cand_eff(p, c0, j), cand_eff(p, c0, best_k))),
                0 <= best_eff.num <= EFF_NUM_BOUND,
                0 < best_eff.den <= EFF_DEN_BOUND,
                best_k == -1 ==> best_eff.frac() == (0int, 1int),
            decreases (hi + 10) - t,
        {
            self.conditions.regeneration_temp_milli_k = t * 1000;
            proof {
                assert(is_cand(p, c0, n));
                lemma_cand_wf(p, c0, n);
                assert(self.conditions =~= cand_conditions(c0, n));
                lemma_efficiency_ratio_bounds(p, self.conditions);
            }
            let results = self.simulate_temperature_swing();
            proof {
                lemma_risk_score_buckets(p, self.conditions);
                assert(0 <= results.thermal_efficiency.num * best_eff.den
                    <= EFF_NUM_BOUND * EFF_DEN_BOUND) by (nonlinear_arith)
                    requires
                        0 <= results.thermal_efficiency.num <= EFF_NUM_BOUND,
                        0 < best_eff.den <= EFF_DEN_BOUND,
                ;
                assert(0 <= best_eff.num * results.thermal_efficiency.den
                    <= EFF_NUM_BOUND * EFF_DEN_BOUND) by (nonlinear_arith)
                    requires
                        0 <= best_eff.num <= EFF_NUM_BOUND,
                        0 < results.thermal_efficiency.den <= EFF_DEN_BOUND,
                ;
            }
            // strict rational comparison: does this candidate beat the best?
            let better: bool = results.thermal_efficiency.num * best_eff.den
                > best_eff.num * results.thermal_efficiency.den;
            // risk ceiling: only scores strictly below 0.5 qualify
            let risk_ok: bool = 2 * results.risk_score.num < results.risk_score.den;
            proof {
                assert(better == frac_lt(best_eff.frac(), cand_eff(p, c0, n)));
                assert(risk_ok == risk_is_low(p, cand_conditions(c0, n)));
            }
            if better && risk_ok {
                proof {
                    if best_k >= 0 {
                        lemma_cand_wf(p, c0, best_k);
                        lemma_frac_le_lt_trans(
                            (0, 1),
                            cand_eff(p, c0, best_k),
                            cand_eff(p, c0, n),
                        );
                    }
                    assert(cand_ok(p, c0, n));
                    if best_k >= 0 {
                        assert forall|j: int| 0 <= j < n && cand_ok(p, c0, j)
                            implies frac_lt(cand_eff(p, c0, j), cand_eff(p, c0, n)) by {
                            lemma_cand_wf(p, c0, j);
                            lemma_cand_wf(p, c0, best_k);
                            lemma_cand_wf(p, c0, n);
                            lemma_frac_le_lt_trans(
                                cand_eff(p, c0, j),
                                cand_eff(p, c0, best_k),
                                cand_eff(p, c0, n),
                            );
                        }
                    }
                    best_k = n;
                }
                best_eff = results.thermal_efficiency;
                best_temp = t * 1000;
            } else {
                proof {
                    if cand_ok(p, c0, n) {
                        assert(risk_ok);
                        assert(!better);
                        if best_k == -1 {
                            assert(frac_lt(best_eff.frac(), cand_eff(p, c0, n)));
                            assert(false);
                        }
                    }
                }
            }
            t = t + 10;
            proof {
                n = n + 1;
            }
        }
        self.conditions.regeneration_temp_milli_k = best_temp;
        proof {
            assert forall|j: int| cand_ok(p, c0, j) implies 0 <= j < n by {}
            if best_k >= 0 {
                lemma_cand_wf(p, c0, best_k);
                assert(self.conditions =~= cand_conditions(c0, best_k));
                assert forall|j: int| cand_ok(p, c0, j)
                    implies !frac_lt(cand_eff(p, c0, best_k), cand_eff(p, c0, j)) by {
                    assert(frac_le(cand_eff(p, c0, j), cand_eff(p, c0, best_k)));
                }
                assert(selected_cand(p, c0, best_k));
            } else {
                assert(self.conditions =~= c0);
            }
        }
        self.conditions
    }
}

/// Property Provider: look up the thermal properties of the material with
/// the given identifier.
///
/// The current provider is a fixed placeholder that returns the same
/// property set for every identifier; a real deployment substitutes a
/// lookup against persisted material data behind the same contract.
pub fn load_mof_properties(fips: u32) -> (p: MOFThermalProperties)
    ensures
        p.fips == fips,
        p.thermal_conductivity_milli == 500,
        p.specific_heat_milli == 1_000_000,
        p.density_milli == 600_000,
        p.thermal_stability_milli_k == 573_000,
        p.heat_of_adsorption_milli == 45_000,
        p.wf(),
{
    MOFThermalProperties {
        fips,
        thermal_conductivity_milli: 500,
        specific_heat_milli: 1_000_000,
        density_milli: 600_000,
        thermal_stability_milli_k: 573_000,
        heat_of_adsorption_milli: 45_000,
    }
}

} // verus!
