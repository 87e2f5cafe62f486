//! Configuration constants of the estimation engine.
//!
//! Lengths are in hundredths of a foot, per-foot prices in cents, and
//! multipliers and rates in thousandths (`1000` stands for x1.0).

use vstd::prelude::*;

verus! {

/// Monetary amounts in a cost estimate are integers at this scale:
/// one dollar is `10^13` money units.  The scale is the product of the
/// scales of the factors of a subtotal (centifeet x cents x three
/// thousandths multipliers), so the whole pricing pipeline is exact.
pub const MONEY_UNITS_PER_DOLLAR: u64 = 10_000_000_000_000;

// Average per-foot prices from the Orlando 2024 reference rates, in cents.
pub const ORLANDO_MATERIAL_COST_PER_FOOT_CENTS: u64 = 700;
pub const ORLANDO_LABOR_COST_PER_FOOT_CENTS: u64 = 500;

/// Florida sales tax, in thousandths (6.5%).
pub const FLORIDA_TAX_RATE_MILLI: u64 = 65;

// Service-type multipliers, in thousandths.
pub const NEW_CONSTRUCTION_MULTIPLIER_MILLI: u64 = 1000;
pub const REMOVE_REPLACE_MULTIPLIER_MILLI: u64 = 1300;
pub const REPAIR_MULTIPLIER_MILLI: u64 = 800;

// Urgency multipliers, in thousandths.
pub const STANDARD_URGENCY_MULTIPLIER_MILLI: u64 = 1000;
pub const URGENT_MULTIPLIER_MILLI: u64 = 1250;

// Material cost multipliers, in thousandths.
pub const VINYL_COST_MULTIPLIER_MILLI: u64 = 1000;
pub const ALUMINUM_COST_MULTIPLIER_MILLI: u64 = 1200;
pub const WOOD_COST_MULTIPLIER_MILLI: u64 = 1500;
pub const FIBER_CEMENT_COST_MULTIPLIER_MILLI: u64 = 1800;

/// Volume discount threshold: 200 linear feet, in centifeet.
pub const VOLUME_DISCOUNT_THRESHOLD_CENTIFEET: u64 = 20_000;

/// Volume discount rate, in thousandths (5%).
pub const VOLUME_DISCOUNT_RATE_MILLI: u64 = 50;

// Material durability, in years.
pub const VINYL_DURABILITY: u32 = 20;
pub const ALUMINUM_DURABILITY: u32 = 30;
pub const WOOD_DURABILITY: u32 = 15;
pub const FIBER_CEMENT_DURABILITY: u32 = 50;

// Validation limits; lengths in centifeet.
pub const MIN_HOUSE_DIMENSION_CENTIFEET: u64 = 1_000;
pub const MAX_HOUSE_DIMENSION_CENTIFEET: u64 = 50_000;
pub const MAX_GABLE_COUNT: u32 = 20;
pub const MIN_GABLE_LENGTH_CENTIFEET: u64 = 500;
pub const MAX_GABLE_LENGTH_CENTIFEET: u64 = 10_000;

// Caps on the engine configuration, so that the pricing pipeline is
// known to fit in 128-bit arithmetic for any footage.
pub const MAX_COST_PER_FOOT_CENTS: u64 = 1_000_000;
pub const MAX_TAX_RATE_MILLI: u64 = 1_000;

// Florida postal codes span 32000 to 34999.
pub const MIN_FLORIDA_ZIP: u32 = 32_000;
pub const MAX_FLORIDA_ZIP: u32 = 34_999;

} // verus!
