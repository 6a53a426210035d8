//! Thermal-fluid model for a temperature-swing adsorption (TSA) water-capture
//! cycle on a metal-organic-framework (MOF) sorbent.
//!
//! Physical inputs are exact fixed-point values in milli-units; every derived
//! quantity (water yield, heating energy, thermal efficiency, risk score) is
//! an exact rational, so the model formulas hold with no rounding at all.

pub mod frac;
pub mod model;
pub mod sim;
pub mod types;
