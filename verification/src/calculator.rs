//! The estimation engine: geometry and the pricing pipeline.

use vstd::prelude::*;
use vstd::string::StringExecFns;
use crate::constants::FLORIDA_TAX_RATE_MILLI;
use crate::constants::MAX_COST_PER_FOOT_CENTS;
use crate::constants::MAX_TAX_RATE_MILLI;
use crate::constants::NEW_CONSTRUCTION_MULTIPLIER_MILLI;
use crate::constants::ORLANDO_LABOR_COST_PER_FOOT_CENTS;
use crate::constants::ORLANDO_MATERIAL_COST_PER_FOOT_CENTS;
use crate::constants::REMOVE_REPLACE_MULTIPLIER_MILLI;
use crate::constants::REPAIR_MULTIPLIER_MILLI;
use crate::constants::STANDARD_URGENCY_MULTIPLIER_MILLI;
use crate::constants::URGENT_MULTIPLIER_MILLI;
use crate::constants::VOLUME_DISCOUNT_THRESHOLD_CENTIFEET;
use crate::types::CostEstimate;
use crate::types::MaterialOption;
use crate::types::MaterialType;
use crate::types::ProjectDetails;
use crate::types::ValidationResult;
use crate::utils::calculate_annualized_cost;
use crate::utils::calculate_volume_discount;
use crate::utils::error_views;
use crate::utils::format_currency;
use crate::utils::get_material_description;
use crate::utils::get_material_durability;
use crate::utils::get_material_multiplier;
use crate::utils::spec_annualized_cost;
use crate::utils::spec_discount_amount;
use crate::utils::spec_discounted_total;
use crate::utils::spec_format_currency;
use crate::utils::spec_gable_parameter_errors;
use crate::utils::spec_house_dimension_errors;
use crate::utils::spec_material_description;
use crate::utils::spec_material_durability;
use crate::utils::spec_material_multiplier;
use crate::utils::spec_valid_florida_zip;
use crate::utils::str_eq;
use crate::utils::validate_florida_zip_code;
use crate::utils::validate_gable_parameters;
use crate::utils::validate_house_dimensions;

verus! {

/// Service-type multiplier, in thousandths; unrecognized service types
/// fall back to new construction.
pub open spec fn spec_service_multiplier(service_type: Seq<char>) -> int {
    if service_type == "new_construction"@ {
        NEW_CONSTRUCTION_MULTIPLIER_MILLI as int
    } else if service_type == "remove_replace"@ {
        REMOVE_REPLACE_MULTIPLIER_MILLI as int
    } else if service_type == "repair"@ {
        REPAIR_MULTIPLIER_MILLI as int
    } else {
        NEW_CONSTRUCTION_MULTIPLIER_MILLI as int
    }
}

/// Urgency multiplier, in thousandths; anything but `urgent` is standard.
pub open spec fn spec_urgency_multiplier(urgency: Seq<char>) -> int {
    if urgency == "urgent"@ {
        URGENT_MULTIPLIER_MILLI as int
    } else {
        STANDARD_URGENCY_MULTIPLIER_MILLI as int
    }
}

fn get_service_multiplier(service_type: &str) -> (r: u64)
    ensures
        r == spec_service_multiplier(service_type@),
{
    if str_eq(service_type, "new_construction") {
        NEW_CONSTRUCTION_MULTIPLIER_MILLI
    } else if str_eq(service_type, "remove_replace") {
        REMOVE_REPLACE_MULTIPLIER_MILLI
    } else if str_eq(service_type, "repair") {
        REPAIR_MULTIPLIER_MILLI
    } else {
        NEW_CONSTRUCTION_MULTIPLIER_MILLI
    }
}

fn get_urgency_multiplier(urgency: &str) -> (r: u64)
    ensures
        r == spec_urgency_multiplier(urgency@),
{
    if str_eq(urgency, "urgent") {
        URGENT_MULTIPLIER_MILLI
    } else {
        STANDARD_URGENCY_MULTIPLIER_MILLI
    }
}

/// Soffit footage of a house, in centifeet: the perimeter, plus both
/// faces of each gable when gables are present.
pub open spec fn spec_linear_feet(
    house_length: int,
    house_width: int,
    has_gables: bool,
    gable_count: int,
    gable_length: int,
) -> int {
    2 * (house_length + house_width) + (if has_gables {
        gable_count * gable_length * 2
    } else {
        0
    })
}

/// Material cost in money units: footage times the per-foot price,
/// scaled by the material, service, and urgency multipliers.
pub open spec fn spec_material_cost(
    linear_feet: int,
    material_cost_per_foot: int,
    material_multiplier: int,
    service_multiplier: int,
    urgency_multiplier: int,
) -> int {
    linear_feet * material_cost_per_foot * material_multiplier * service_multiplier
        * urgency_multiplier
}

/// Labor cost in money units: footage times the per-foot labor price,
/// scaled by the service and urgency multipliers only — the material
/// multiplier never touches labor.  The factor 1000 brings the product
/// to the common money scale.
pub open spec fn spec_labor_cost(
    linear_feet: int,
    labor_cost_per_foot: int,
    service_multiplier: int,
    urgency_multiplier: int,
) -> int {
    linear_feet * labor_cost_per_foot * 1000 * service_multiplier * urgency_multiplier
}

/// Pre-discount subtotal in money units.
pub open spec fn spec_subtotal(
    linear_feet: int,
    material_cost_per_foot: int,
    labor_cost_per_foot: int,
    material_multiplier: int,
    service_multiplier: int,
    urgency_multiplier: int,
) -> int {
    spec_material_cost(
        linear_feet,
        material_cost_per_foot,
        material_multiplier,
        service_multiplier,
        urgency_multiplier,
    ) + spec_labor_cost(linear_feet, labor_cost_per_foot, service_multiplier, urgency_multiplier)
}

/// Tax on a discounted total, in money units, rounded down.
pub open spec fn spec_tax_amount(discounted_total: int, tax_rate: int) -> int {
    discounted_total * tax_rate / 1000
}

/// Post-tax total in money units.
pub open spec fn spec_final_total(discounted_total: int, tax_rate: int) -> int {
    discounted_total + spec_tax_amount(discounted_total, tax_rate)
}

/// Every field of a cost estimate, pinned to the pricing pipeline run
/// on the given footage (centifeet), per-foot prices (cents), tax rate
/// (thousandths), and multipliers (thousandths).
pub open spec fn estimate_matches(
    est: CostEstimate,
    linear_feet: int,
    material_cost_per_foot: int,
    labor_cost_per_foot: int,
    tax_rate: int,
    material_multiplier: int,
    service_multiplier: int,
    urgency_multiplier: int,
) -> bool {
    let subtotal = spec_subtotal(
        linear_feet,
        material_cost_per_foot,
        labor_cost_per_foot,
        material_multiplier,
        service_multiplier,
        urgency_multiplier,
    );
    let discounted = spec_discounted_total(subtotal, linear_feet);
    &&& est.material_cost == spec_material_cost(
        linear_feet,
        material_cost_per_foot,
        material_multiplier,
        service_multiplier,
        urgency_multiplier,
    )
    &&& est.labor_cost == spec_labor_cost(
        linear_feet,
        labor_cost_per_foot,
        service_multiplier,
        urgency_multiplier,
    )
    &&& est.total_cost == discounted
    &&& est.linear_feet == linear_feet
    &&& est.tax_rate == tax_rate
    &&& est.final_total == spec_final_total(discounted, tax_rate)
    &&& est.volume_discount_applied == (linear_feet >= VOLUME_DISCOUNT_THRESHOLD_CENTIFEET)
    &&& est.discount_amount == spec_discount_amount(subtotal, linear_feet)
}

/// The names of the closed material set, in comparison order.
pub open spec fn spec_material_names() -> Seq<Seq<char>> {
    seq!["vinyl"@, "aluminum"@, "wood"@, "fiber_cement"@]
}

/// One comparison entry: the metadata of the named material, the full
/// estimate for it, and the annualized cost of that estimate.
pub open spec fn material_option_matches(
    opt: MaterialOption,
    name: Seq<char>,
    linear_feet: int,
    material_cost_per_foot: int,
    labor_cost_per_foot: int,
    tax_rate: int,
    service_multiplier: int,
    urgency_multiplier: int,
) -> bool {
    &&& opt.material.name@ == name
    &&& opt.material.cost_per_foot == material_cost_per_foot * spec_material_multiplier(name)
    &&& opt.material.durability_years == spec_material_durability(name)
    &&& opt.material.description@ == spec_material_description(name)
    &&& estimate_matches(
        opt.estimate,
        linear_feet,
        material_cost_per_foot,
        labor_cost_per_foot,
        tax_rate,
        spec_material_multiplier(name),
        service_multiplier,
        urgency_multiplier,
    )
    &&& opt.cost_per_year == spec_annualized_cost(
        opt.estimate.final_total as int,
        spec_material_durability(name),
    )
}

/// Bounds on every partial product of the pricing pipeline, enough to
/// run it in 128-bit arithmetic for any 64-bit footage.
proof fn lemma_pipeline_products_fit(
    lf: int,
    cpf: int,
    lcpf: int,
    mat: int,
    svc: int,
    urg: int,
)
    requires
        0 <= lf <= u64::MAX,
        0 <= cpf <= MAX_COST_PER_FOOT_CENTS,
        0 <= lcpf <= MAX_COST_PER_FOOT_CENTS,
        0 <= mat <= 1800,
        0 <= svc <= 1300,
        0 <= urg <= 1250,
    ensures
        0 <= lf * cpf <= u64::MAX * 1_000_000,
        0 <= lf * cpf * mat <= u64::MAX * 1_000_000 * 1800,
        0 <= lf * cpf * mat * svc <= u64::MAX * 1_000_000 * 1800 * 1300,
        0 <= lf * cpf * mat * svc * urg <= u64::MAX * 1_000_000 * 1800 * 1300 * 1250,
        0 <= lf * lcpf <= u64::MAX * 1_000_000,
        0 <= lf * lcpf * 1000 <= u64::MAX * 1_000_000 * 1000,
        0 <= lf * lcpf * 1000 * svc <= u64::MAX * 1_000_000 * 1000 * 1300,
        0 <= lf * lcpf * 1000 * svc * urg <= u64::MAX * 1_000_000 * 1000 * 1300 * 1250,
{
    vstd::arithmetic::mul::lemma_mul_nonnegative(lf, cpf);
    vstd::arithmetic::mul::lemma_mul_nonnegative(lf * cpf, mat);
    vstd::arithmetic::mul::lemma_mul_nonnegative(lf * cpf * mat, svc);
    vstd::arithmetic::mul::lemma_mul_nonnegative(lf * cpf * mat * svc, urg);
    vstd::arithmetic::mul::lemma_mul_nonnegative(lf, lcpf);
    vstd::arithmetic::mul::lemma_mul_nonnegative(lf * lcpf * 1000, svc);
    vstd::arithmetic::mul::lemma_mul_nonnegative(lf * lcpf * 1000 * svc, urg);
    vstd::arithmetic::mul::lemma_mul_upper_bound(lf, u64::MAX as int, cpf, 1_000_000);
    vstd::arithmetic::mul::lemma_mul_upper_bound(
        lf * cpf,
        u64::MAX * 1_000_000,
        mat,
        1800,
    );
    vstd::arithmetic::mul::lemma_mul_upper_bound(
        lf * cpf * mat,
        u64::MAX * 1_000_000 * 1800,
        svc,
        1300,
    );
    vstd::arithmetic::mul::lemma_mul_upper_bound(
        lf * cpf * mat * svc,
        u64::MAX * 1_000_000 * 1800 * 1300,
        urg,
        1250,
    );
    vstd::arithmetic::mul::lemma_mul_upper_bound(lf, u64::MAX as int, lcpf, 1_000_000);
    vstd::arithmetic::mul::lemma_mul_upper_bound(
        lf * lcpf,
        u64::MAX * 1_000_000,
        1000,
        1000,
    );
    vstd::arithmetic::mul::lemma_mul_upper_bound(
        lf * lcpf * 1000,
        u64::MAX * 1_000_000 * 1000,
        svc,
        1300,
    );
    vstd::arithmetic::mul::lemma_mul_upper_bound(
        lf * lcpf * 1000 * svc,
        u64::MAX * 1_000_000 * 1000 * 1300,
        urg,
        1250,
    );
}

/// The estimation engine, configured with one locale's per-foot prices
/// (cents) and tax rate (thousandths).  The fields never change after
/// construction.
pub struct SoffitCalculator {
    material_cost_per_foot: u64,
    labor_cost_per_foot: u64,
    tax_rate: u64,
}

impl SoffitCalculator {
    /// Configured per-foot material price, in cents.
    pub closed spec fn spec_material_cost_per_foot(&self) -> u64 {
        self.material_cost_per_foot
    }

    /// Configured per-foot labor price, in cents.
    pub closed spec fn spec_labor_cost_per_foot(&self) -> u64 {
        self.labor_cost_per_foot
    }

    /// Configured tax rate, in thousandths.
    pub closed spec fn spec_tax_rate(&self) -> u64 {
        self.tax_rate
    }

    /// The configuration respects the machine-arithmetic caps.
    pub open spec fn wf(&self) -> bool {
        &&& self.spec_material_cost_per_foot() <= MAX_COST_PER_FOOT_CENTS
        &&& self.spec_labor_cost_per_foot() <= MAX_COST_PER_FOOT_CENTS
        &&& self.spec_tax_rate() <= MAX_TAX_RATE_MILLI
    }

    /// An engine at the Orlando 2024 reference rates.
    pub fn new() -> (r: SoffitCalculator)
        ensures
            r.spec_material_cost_per_foot() == ORLANDO_MATERIAL_COST_PER_FOOT_CENTS,
            r.spec_labor_cost_per_foot() == ORLANDO_LABOR_COST_PER_FOOT_CENTS,
            r.spec_tax_rate() == FLORIDA_TAX_RATE_MILLI,
            r.wf(),
    {
        SoffitCalculator {
            material_cost_per_foot: ORLANDO_MATERIAL_COST_PER_FOOT_CENTS,
            labor_cost_per_foot: ORLANDO_LABOR_COST_PER_FOOT_CENTS,
            tax_rate: FLORIDA_TAX_RATE_MILLI,
        }
    }

    /// Soffit footage from the house sides and the gable data, all in
    /// centifeet.  Purely arithmetic: no validation happens here.
    pub fn calculate_linear_feet(
        &self,
        house_length: u64,
        house_width: u64,
        has_gables: bool,
        gable_count: u32,
        gable_length: u64,
    ) -> (r: u64)
        requires
            spec_linear_feet(
                house_length as int,
                house_width as int,
                has_gables,
                gable_count as int,
                gable_length as int,
            ) <= u64::MAX,
        ensures
            r == spec_linear_feet(
                house_length as int,
                house_width as int,
                has_gables,
                gable_count as int,
                gable_length as int,
            ),
    {
        let perimeter: u128 = 2 * (house_length as u128 + house_width as u128);
        let gable_footage: u128 = if has_gables {
            proof {
                vstd::arithmetic::mul::lemma_mul_upper_bound(
                    gable_count as int,
                    u32::MAX as int,
                    gable_length as int,
                    u64::MAX as int,
                );
            }
            gable_count as u128 * gable_length as u128 * 2
        } else {
            0
        };
        (perimeter + gable_footage) as u64
    }

    /// Runs the pricing pipeline: material and labor costs from the
    /// multipliers, then the volume discount, then tax.  Total for any
    /// footage; out-of-range values are the caller's concern.
    pub fn calculate_cost_estimate(
        &self,
        linear_feet: u64,
        material_type: &str,
        project_details: &ProjectDetails,
    ) -> (r: CostEstimate)
        requires
            self.wf(),
        ensures
            estimate_matches(
                r,
                linear_feet as int,
                self.spec_material_cost_per_foot() as int,
                self.spec_labor_cost_per_foot() as int,
                self.spec_tax_rate() as int,
                spec_material_multiplier(material_type@),
                spec_service_multiplier(project_details.service_type@),
                spec_urgency_multiplier(project_details.urgency@),
            ),
    {
        let material_multiplier: u64 = get_material_multiplier(material_type);
        let service_multiplier: u64 = get_service_multiplier(
            project_details.service_type.as_str(),
        );
        let urgency_multiplier: u64 = get_urgency_multiplier(project_details.urgency.as_str());

        let lf: u128 = linear_feet as u128;
        let cpf: u128 = self.material_cost_per_foot as u128;
        let lcpf: u128 = self.labor_cost_per_foot as u128;
        let mat: u128 = material_multiplier as u128;
        let svc: u128 = service_multiplier as u128;
        let urg: u128 = urgency_multiplier as u128;

        proof {
            lemma_pipeline_products_fit(
                lf as int,
                cpf as int,
                lcpf as int,
                mat as int,
                svc as int,
                urg as int,
            );
        }

        let base_material_cost: u128 = lf * cpf * mat;
        let base_labor_cost: u128 = lf * lcpf * 1000;

        let material_cost: u128 = base_material_cost * svc * urg;
        let labor_cost: u128 = base_labor_cost * svc * urg;

        let subtotal: u128 = material_cost + labor_cost;

        let (discounted_total, discount_amount, volume_discount_applied): (u128, u128, bool) =
            calculate_volume_discount(subtotal, linear_feet);

        proof {
            vstd::arithmetic::mul::lemma_mul_upper_bound(
                discounted_total as int,
                subtotal as int,
                self.tax_rate as int,
                1000,
            );
            vstd::arithmetic::mul::lemma_mul_upper_bound(
                subtotal as int,
                u64::MAX * 1_000_000 * 1800 * 1300 * 1250 + u64::MAX * 1_000_000 * 1000 * 1300
                    * 1250,
                1000,
                1000,
            );
            vstd::arithmetic::mul::lemma_mul_inequality(
                self.tax_rate as int,
                1000,
                discounted_total as int,
            );
            vstd::arithmetic::div_mod::lemma_div_is_ordered(
                discounted_total * self.tax_rate,
                discounted_total * 1000,
                1000,
            );
            vstd::arithmetic::div_mod::lemma_div_multiples_vanish(discounted_total as int, 1000);
        }
        let tax_amount: u128 = discounted_total * (self.tax_rate as u128) / 1000;
        let final_total: u128 = discounted_total + tax_amount;

        CostEstimate {
            material_cost,
            labor_cost,
            total_cost: discounted_total,
            linear_feet,
            tax_rate: self.tax_rate,
            final_total,
            volume_discount_applied,
            discount_amount,
        }
    }

    /// The comparison entry of one material.
    fn material_option_for(
        &self,
        linear_feet: u64,
        project_details: &ProjectDetails,
        material_type: &str,
    ) -> (opt: MaterialOption)
        requires
            self.wf(),
        ensures
            material_option_matches(
                opt,
                material_type@,
                linear_feet as int,
                self.spec_material_cost_per_foot() as int,
                self.spec_labor_cost_per_foot() as int,
                self.spec_tax_rate() as int,
                spec_service_multiplier(project_details.service_type@),
                spec_urgency_multiplier(project_details.urgency@),
            ),
    {
        let estimate: CostEstimate = self.calculate_cost_estimate(
            linear_feet,
            material_type,
            project_details,
        );
        let multiplier: u64 = get_material_multiplier(material_type);
        proof {
            vstd::arithmetic::mul::lemma_mul_upper_bound(
                self.material_cost_per_foot as int,
                MAX_COST_PER_FOOT_CENTS as int,
                multiplier as int,
                1800,
            );
        }
        let durability_years: u32 = get_material_durability(material_type);
        let material_info: MaterialType = MaterialType {
            name: String::from_str(material_type),
            cost_per_foot: self.material_cost_per_foot * multiplier,
            durability_years,
            description: get_material_description(material_type),
        };
        let cost_per_year: u128 = calculate_annualized_cost(
            estimate.final_total,
            material_info.durability_years,
        );
        MaterialOption { material: material_info, estimate, cost_per_year }
    }

    /// One estimate per known material, in the fixed comparison order
    /// vinyl, aluminum, wood, fiber cement.  Callers may rely on the
    /// positions.
    pub fn calculate_material_options(
        &self,
        linear_feet: u64,
        project_details: &ProjectDetails,
    ) -> (r: Vec<MaterialOption>)
        requires
            self.wf(),
        ensures
            r@.len() == 4,
            forall|i: int|
                0 <= i < 4 ==> material_option_matches(
                    #[trigger] r@[i],
                    spec_material_names()[i],
                    linear_feet as int,
                    self.spec_material_cost_per_foot() as int,
                    self.spec_labor_cost_per_foot() as int,
                    self.spec_tax_rate() as int,
                    spec_service_multiplier(project_details.service_type@),
                    spec_urgency_multiplier(project_details.urgency@),
                ),
    {
        let mut options: Vec<MaterialOption> = Vec::new();
        options.push(self.material_option_for(linear_feet, project_details, "vinyl"));
        options.push(self.material_option_for(linear_feet, project_details, "aluminum"));
        options.push(self.material_option_for(linear_feet, project_details, "wood"));
        options.push(self.material_option_for(linear_feet, project_details, "fiber_cement"));
        options
    }

    /// Checks the house sides and the gable parameters together: house
    /// errors first, then gable errors.
    pub fn validate_measurements(
        &self,
        house_length: u64,
        house_width: u64,
        gable_count: u32,
        gable_length: u64,
    ) -> (r: ValidationResult)
        ensures
            error_views(r.errors@) == spec_house_dimension_errors(
                house_length as int,
                house_width as int,
            ) + spec_gable_parameter_errors(gable_count as int, gable_length as int),
            r.is_valid == (error_views(r.errors@).len() == 0),
    {
        let house_validation: ValidationResult = validate_house_dimensions(
            house_length,
            house_width,
        );
        let gable_validation: ValidationResult = validate_gable_parameters(
            gable_count,
            gable_length,
        );
        let mut all_errors: Vec<String> = house_validation.errors;
        let mut gable_errors: Vec<String> = gable_validation.errors;
        all_errors.append(&mut gable_errors);
        proof {
            assert(error_views(all_errors@) =~= spec_house_dimension_errors(
                house_length as int,
                house_width as int,
            ) + spec_gable_parameter_errors(gable_count as int, gable_length as int));
        }
        let is_valid: bool = all_errors.len() == 0;
        ValidationResult { is_valid, errors: all_errors }
    }

    /// Whether the postal code is a valid Florida one.
    pub fn validate_zip_code(&self, zip_code: &str) -> (r: bool)
        ensures
            r == spec_valid_florida_zip(zip_code@),
    {
        validate_florida_zip_code(zip_code)
    }

    /// Metadata of one material under this engine's prices.  The name
    /// is kept as given, and unknown names carry the vinyl entry.
    pub fn get_material_info(&self, material_type: &str) -> (r: MaterialType)
        requires
            self.wf(),
        ensures
            r.name@ == material_type@,
            r.cost_per_foot == self.spec_material_cost_per_foot() * spec_material_multiplier(
                material_type@,
            ),
            r.durability_years == spec_material_durability(material_type@),
            r.description@ == spec_material_description(material_type@),
    {
        let multiplier: u64 = get_material_multiplier(material_type);
        proof {
            vstd::arithmetic::mul::lemma_mul_upper_bound(
                self.material_cost_per_foot as int,
                MAX_COST_PER_FOOT_CENTS as int,
                multiplier as int,
                1800,
            );
        }
        MaterialType {
            name: String::from_str(material_type),
            cost_per_foot: self.material_cost_per_foot * multiplier,
            durability_years: get_material_durability(material_type),
            description: get_material_description(material_type),
        }
    }

    /// Formats an amount of cents as a dollar string.
    pub fn format_currency(&self, amount_cents: u128) -> (r: String)
        ensures
            r@ == spec_format_currency(amount_cents as nat),
    {
        format_currency(amount_cents)
    }
}

/// A fresh engine at the reference rates.
pub fn create_calculator() -> (r: SoffitCalculator)
    ensures
        r.spec_material_cost_per_foot() == ORLANDO_MATERIAL_COST_PER_FOOT_CENTS,
        r.spec_labor_cost_per_foot() == ORLANDO_LABOR_COST_PER_FOOT_CENTS,
        r.spec_tax_rate() == FLORIDA_TAX_RATE_MILLI,
        r.wf(),
{
    SoffitCalculator::new()
}

} // verus!
