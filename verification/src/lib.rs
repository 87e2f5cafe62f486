//! Cost estimator for exterior soffit installation projects.
//!
//! The library computes an itemized price breakdown (material, labor,
//! volume discount, tax) from house geometry and project metadata, and
//! offers the supporting validation and lookup utilities.
//!
//! All quantities are exact fixed-point integers:
//! - lengths are in hundredths of a foot (`centifeet`),
//! - per-foot prices are in cents,
//! - multipliers and the tax rate are in thousandths (`1000` = x1.0),
//! - monetary amounts in a cost estimate are in units of
//!   10^-13 dollars (see [`constants::MONEY_UNITS_PER_DOLLAR`]), the
//!   coarsest scale at which every step of the pricing pipeline is exact.

pub mod calculator;
pub mod constants;
pub mod laws;
pub mod types;
pub mod utils;

pub use calculator::SoffitCalculator;
pub use calculator::create_calculator;
pub use constants::MONEY_UNITS_PER_DOLLAR;
pub use types::CostEstimate;
pub use types::MaterialOption;
pub use types::MaterialType;
pub use types::ProjectDetails;
pub use types::SoffitMeasurement;
pub use types::ValidationResult;
pub use utils::calculate_annualized_cost;
pub use utils::calculate_volume_discount;
pub use utils::format_currency;
pub use utils::get_material_description;
pub use utils::get_material_durability;
pub use utils::get_material_multiplier;
pub use utils::validate_florida_zip_code;
pub use utils::validate_gable_parameters;
pub use utils::validate_house_dimensions;
