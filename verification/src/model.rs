use vstd::prelude::*;
use crate::frac::{frac_le, frac_lt, Ratio};
use crate::types::{MOFThermalProperties, OperatingConditions};

verus! {

// ---------------------------------------------------------------------------
// The lumped thermal model, as exact arithmetic over the milli-unit inputs.
//
// A quantity in base units held as `v` milli-units has value v / 1000; a
// product of two such quantities therefore has value (v1 * v2) / 1_000_000,
// which is why heating energy is carried in micro-units below.
// ---------------------------------------------------------------------------

/// Temperature swing for desorption, milli-K:
/// `delta_t = regeneration_temperature - ambient_temperature`.
pub open spec fn delta_t_milli(c: OperatingConditions) -> int {
    c.regeneration_temp_milli_k - c.ambient_temp_milli_k
}

/// Heating energy of the cycle, in micro-units:
/// `heating_energy = specific_heat * delta_t + heat_of_adsorption`
/// (lumped sensible heat plus adsorption enthalpy; may be negative when the
/// regeneration temperature sits below ambient).
pub open spec fn heating_energy_micro(p: MOFThermalProperties, c: OperatingConditions) -> int {
    p.specific_heat_milli * delta_t_milli(c) + 1000 * p.heat_of_adsorption_milli
}

/// Single-site Langmuir uptake fraction at relative humidity `h`
/// (`humidity_milli / 1000`), with the fixed adsorption constant `K = 5`:
/// `uptake = (K * h) / (1 + K * h)`, written over a common denominator.
pub open spec fn uptake_frac(humidity_milli: int) -> (int, int) {
    (5 * humidity_milli, 1000 + 5 * humidity_milli)
}

/// Water yield, kg: `water_yield = max_capacity * uptake`, with the fixed
/// maximum capacity 0.3 (g water per g sorbent).
pub open spec fn water_yield_frac(humidity_milli: int) -> (int, int) {
    (3 * uptake_frac(humidity_milli).0, 10 * uptake_frac(humidity_milli).1)
}

/// Thermal efficiency: `water_yield / heating_energy` when the heating
/// energy is strictly positive, else exactly zero (the division guard).
pub open spec fn efficiency_frac(p: MOFThermalProperties, c: OperatingConditions) -> (int, int) {
    if heating_energy_micro(p, c) > 0 {
        (
            water_yield_frac(c.humidity_milli as int).0 * 1_000_000,
            water_yield_frac(c.humidity_milli as int).1 * heating_energy_micro(p, c),
        )
    } else {
        (0, 1)
    }
}

/// The stability ratio `regeneration_temperature / thermal_stability_limit`,
/// as a fraction (the milli scales cancel).
pub open spec fn temp_ratio_frac(p: MOFThermalProperties, c: OperatingConditions) -> (int, int) {
    (c.regeneration_temp_milli_k as int, p.thermal_stability_milli_k as int)
}

/// Low-risk bucket: stability ratio strictly below 0.8.
pub open spec fn risk_is_low(p: MOFThermalProperties, c: OperatingConditions) -> bool {
    frac_lt(temp_ratio_frac(p, c), (8, 10))
}

/// Moderate-risk bucket: stability ratio in [0.8, 0.9).
pub open spec fn risk_is_moderate(p: MOFThermalProperties, c: OperatingConditions) -> bool {
    !frac_lt(temp_ratio_frac(p, c), (8, 10)) && frac_lt(temp_ratio_frac(p, c), (9, 10))
}

/// High-risk bucket: stability ratio at or above 0.9.
pub open spec fn risk_is_high(p: MOFThermalProperties, c: OperatingConditions) -> bool {
    !frac_lt(temp_ratio_frac(p, c), (9, 10))
}

/// The risk score of the low bucket, exactly 0.1.
pub open spec fn low_risk_ratio() -> Ratio {
    Ratio { num: 1, den: 10 }
}

/// The risk score of the moderate bucket, exactly 0.5.
pub open spec fn moderate_risk_ratio() -> Ratio {
    Ratio { num: 5, den: 10 }
}

/// The risk score of the high bucket, exactly 0.9.
pub open spec fn high_risk_ratio() -> Ratio {
    Ratio { num: 9, den: 10 }
}

/// The discretized three-bucket risk score of one operating point.
pub open spec fn risk_ratio(p: MOFThermalProperties, c: OperatingConditions) -> Ratio {
    if risk_is_low(p, c) {
        low_risk_ratio()
    } else if frac_lt(temp_ratio_frac(p, c), (9, 10)) {
        moderate_risk_ratio()
    } else {
        high_risk_ratio()
    }
}

// ---------------------------------------------------------------------------
// The same quantities as the exact `Ratio` values the simulator returns.
// ---------------------------------------------------------------------------

/// Heating energy as a returned `Ratio`, kJ: micro-units over one million.
pub open spec fn energy_ratio(p: MOFThermalProperties, c: OperatingConditions) -> Ratio {
    Ratio { num: heating_energy_micro(p, c) as i128, den: 1_000_000 }
}

/// Water yield as a returned `Ratio`, kg.
pub open spec fn yield_ratio(c: OperatingConditions) -> Ratio {
    Ratio {
        num: water_yield_frac(c.humidity_milli as int).0 as i128,
        den: water_yield_frac(c.humidity_milli as int).1 as i128,
    }
}

/// Thermal efficiency as a returned `Ratio`.
pub open spec fn efficiency_ratio(p: MOFThermalProperties, c: OperatingConditions) -> Ratio {
    Ratio { num: efficiency_frac(p, c).0 as i128, den: efficiency_frac(p, c).1 as i128 }
}

// ---------------------------------------------------------------------------
// Bounds: for well-formed inputs every intermediate of the model fits an
// `i128` with room for the cross-multiplications the optimizer performs.
// ---------------------------------------------------------------------------

/// Magnitude bound on the heating energy in micro-units for well-formed
/// inputs.
pub const ENERGY_MICRO_BOUND: i128 = 2_000_000_000_000_000_000;

/// Bound on the efficiency numerator for well-formed inputs.
pub const EFF_NUM_BOUND: i128 = 15_000_000_000;

/// Bound on the efficiency denominator for well-formed inputs.
pub const EFF_DEN_BOUND: i128 = 120_000_000_000_000_000_000_000;

pub proof fn lemma_heating_energy_bounds(p: MOFThermalProperties, c: OperatingConditions)
    requires
        p.wf(),
        c.wf(),
    ensures
        -ENERGY_MICRO_BOUND <= heating_energy_micro(p, c) <= ENERGY_MICRO_BOUND,
{
    let sc = p.specific_heat_milli as int;
    let dt = delta_t_milli(c);
    assert(-1_000_000_000_000_000_000 <= sc * dt <= 1_000_000_000_000_000_000)
        by (nonlinear_arith)
        requires
            0 <= sc <= 1_000_000_000,
            -1_000_000_000 <= dt <= 1_000_000_000,
    ;
}

pub proof fn lemma_efficiency_ratio_bounds(p: MOFThermalProperties, c: OperatingConditions)
    requires
        p.wf(),
        c.wf(),
    ensures
        efficiency_ratio(p, c).wf(),
        0 <= efficiency_ratio(p, c).num <= EFF_NUM_BOUND,
        0 < efficiency_ratio(p, c).den <= EFF_DEN_BOUND,
        efficiency_ratio(p, c).frac() == efficiency_frac(p, c),
{
    lemma_heating_energy_bounds(p, c);
    let e = heating_energy_micro(p, c);
    if e > 0 {
        let yd = water_yield_frac(c.humidity_milli as int).1;
        assert(0 < yd * e <= 60_000 * ENERGY_MICRO_BOUND) by (nonlinear_arith)
            requires
                0 < yd <= 60_000,
                0 < e <= ENERGY_MICRO_BOUND,
        ;
    }
}

// ---------------------------------------------------------------------------
// The optimizer's candidate sweep.
// ---------------------------------------------------------------------------

/// Lower end of the sweep in whole kelvins: the floor of
/// `ambient_temperature + 30` (the minimum useful temperature swing).
pub open spec fn sweep_lo_k(c: OperatingConditions) -> int {
    (c.ambient_temp_milli_k + 30_000) / 1000
}

/// Upper end of the sweep (exclusive) in whole kelvins: the floor of
/// `0.85 * thermal_stability_limit` (a 15% safety margin below material
/// degradation).
pub open spec fn sweep_hi_k(p: MOFThermalProperties) -> int {
    (p.thermal_stability_milli_k * 85) / 100_000
}

/// Candidate index `k` lies inside the sweep, which tries the temperatures
/// `lo, lo + 10, lo + 20, ...` strictly below `hi`.
pub open spec fn is_cand(p: MOFThermalProperties, c: OperatingConditions, k: int) -> bool {
    0 <= k && sweep_lo_k(c) + 10 * k < sweep_hi_k(p)
}

/// The candidate regeneration temperature of index `k`, milli-K.
pub open spec fn cand_temp_milli(c: OperatingConditions, k: int) -> int {
    (sweep_lo_k(c) + 10 * k) * 1000
}

/// The held conditions with the candidate temperature of index `k` set as
/// the trial regeneration temperature.
pub open spec fn cand_conditions(c: OperatingConditions, k: int) -> OperatingConditions {
    OperatingConditions { regeneration_temp_milli_k: cand_temp_milli(c, k) as u64, ..c }
}

/// The efficiency the simulation reports at candidate `k`.
pub open spec fn cand_eff(p: MOFThermalProperties, c: OperatingConditions, k: int) -> (int, int) {
    efficiency_frac(p, cand_conditions(c, k))
}

/// Candidate `k` is acceptable to the sweep: inside the range, in the
/// low-risk bucket, and with strictly positive efficiency, so that it can
/// beat the initial best efficiency of zero.
pub open spec fn cand_ok(p: MOFThermalProperties, c: OperatingConditions, k: int) -> bool {
    &&& is_cand(p, c, k)
    &&& risk_is_low(p, cand_conditions(c, k))
    &&& frac_lt((0, 1), cand_eff(p, c, k))
}

/// Candidate `k` is the one the sweep selects: acceptable, no acceptable
/// candidate is strictly more efficient, and `k` is strictly more efficient
/// than every earlier acceptable candidate (ties resolve to the first
/// candidate encountered, since improvement is strict).
pub open spec fn selected_cand(p: MOFThermalProperties, c: OperatingConditions, k: int) -> bool {
    &&& cand_ok(p, c, k)
    &&& forall|j: int|
        cand_ok(p, c, j) ==> !frac_lt(cand_eff(p, c, k), cand_eff(p, c, j))
    &&& forall|j: int|
        0 <= j < k && cand_ok(p, c, j) ==> frac_lt(cand_eff(p, c, j), cand_eff(p, c, k))
}

/// For a candidate inside the sweep the trial conditions are well-formed,
/// and its efficiency fraction is nonnegative with a positive denominator.
pub proof fn lemma_cand_wf(p: MOFThermalProperties, c: OperatingConditions, k: int)
    requires
        p.wf(),
        c.wf(),
        is_cand(p, c, k),
    ensures
        cand_conditions(c, k).wf(),
        30_000 <= cand_temp_milli(c, k) <= 850_000_000,
        0 <= cand_eff(p, c, k).0,
        0 < cand_eff(p, c, k).1,
{
    assert(30 <= sweep_lo_k(c));
    assert(sweep_hi_k(p) <= 850_000);
    lemma_efficiency_ratio_bounds(p, cand_conditions(c, k));
}

// ---------------------------------------------------------------------------
// Laws of the model.
// ---------------------------------------------------------------------------

/// Law: the risk score is always one of the three bucket values 0.1, 0.5 and
/// 0.9, and picks exactly the bucket that the stability-ratio thresholds 0.8
/// (inclusive) and 0.9 (inclusive) define.
pub proof fn lemma_risk_score_buckets(p: MOFThermalProperties, c: OperatingConditions)
    requires
        p.wf(),
        c.wf(),
    ensures
        risk_ratio(p, c) == low_risk_ratio() || risk_ratio(p, c) == moderate_risk_ratio()
            || risk_ratio(p, c) == high_risk_ratio(),
        risk_ratio(p, c) == low_risk_ratio() <==> risk_is_low(p, c),
        risk_ratio(p, c) == moderate_risk_ratio() <==> risk_is_moderate(p, c),
        risk_ratio(p, c) == high_risk_ratio() <==> risk_is_high(p, c),
        risk_ratio(p, c).wf(),
{
}

/// Law: the Langmuir uptake fraction is monotonically non-decreasing in
/// humidity for the fixed adsorption constant, and bounded in [0, 1).
pub proof fn lemma_uptake_monotone_bounded(h1: int, h2: int)
    requires
        0 <= h1 <= h2 <= 1000,
    ensures
        frac_le(uptake_frac(h1), uptake_frac(h2)),
        frac_le((0, 1), uptake_frac(h1)),
        frac_lt(uptake_frac(h1), (1, 1)),
{
    assert(5 * h1 * (1000 + 5 * h2) <= 5 * h2 * (1000 + 5 * h1)) by (nonlinear_arith)
        requires
            0 <= h1 <= h2,
    ;
}

} // verus!
