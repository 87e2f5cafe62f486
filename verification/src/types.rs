//! Records exchanged with the estimation engine.
//!
//! Lengths are in centifeet (hundredths of a foot), per-foot prices in
//! cents or thousandths of a cent, rates in thousandths, and monetary
//! amounts in money units of 10^-13 dollars.

use vstd::prelude::*;

verus! {

/// A caller-constructed geometric record: house sides and the soffit
/// footage derived from them, all in centifeet.
pub struct SoffitMeasurement {
    pub length: u64,
    pub width: u64,
    pub linear_feet: u64,
}

impl SoffitMeasurement {
    pub fn new(length: u64, width: u64, linear_feet: u64) -> (r: SoffitMeasurement)
        ensures
            r.length == length,
            r.width == width,
            r.linear_feet == linear_feet,
    {
        SoffitMeasurement { length, width, linear_feet }
    }

    pub fn length(&self) -> (r: u64)
        ensures
            r == self.length,
    {
        self.length
    }

    pub fn width(&self) -> (r: u64)
        ensures
            r == self.width,
    {
        self.width
    }

    pub fn linear_feet(&self) -> (r: u64)
        ensures
            r == self.linear_feet,
    {
        self.linear_feet
    }
}

/// An itemized price breakdown.  Monetary fields are in money units;
/// `total_cost` is the post-discount, pre-tax total and `final_total`
/// the post-tax total.
pub struct CostEstimate {
    pub material_cost: u128,
    pub labor_cost: u128,
    pub total_cost: u128,
    pub linear_feet: u64,
    pub tax_rate: u64,
    pub final_total: u128,
    pub volume_discount_applied: bool,
    pub discount_amount: u128,
}

impl CostEstimate {
    pub fn material_cost(&self) -> (r: u128)
        ensures
            r == self.material_cost,
    {
        self.material_cost
    }

    pub fn labor_cost(&self) -> (r: u128)
        ensures
            r == self.labor_cost,
    {
        self.labor_cost
    }

    pub fn total_cost(&self) -> (r: u128)
        ensures
            r == self.total_cost,
    {
        self.total_cost
    }

    pub fn final_total(&self) -> (r: u128)
        ensures
            r == self.final_total,
    {
        self.final_total
    }

    pub fn volume_discount_applied(&self) -> (r: bool)
        ensures
            r == self.volume_discount_applied,
    {
        self.volume_discount_applied
    }
}

/// Metadata of one soffit material, projected from the lookup table.
/// `cost_per_foot` is in thousandths of a cent (the configured per-foot
/// price in cents times the thousandths multiplier of the material).
pub struct MaterialType {
    pub name: String,
    pub cost_per_foot: u64,
    pub durability_years: u32,
    pub description: String,
}

/// Caller-supplied project metadata.  Unrecognized `service_type` or
/// `urgency` strings fall back to defaults rather than failing.
pub struct ProjectDetails {
    pub zip_code: String,
    pub property_type: String,
    pub service_type: String,
    pub urgency: String,
}

/// Outcome of a range validation: human-readable errors in a fixed
/// order, and `is_valid` exactly when there are none.
pub struct ValidationResult {
    pub is_valid: bool,
    pub errors: Vec<String>,
}

/// One material compared against the others: its metadata, the full
/// estimate for it, and the cost annualized over its durability.
pub struct MaterialOption {
    pub material: MaterialType,
    pub estimate: CostEstimate,
    pub cost_per_year: u128,
}

} // verus!
