use soffit_calculator::create_calculator;
use soffit_calculator::ProjectDetails;
use soffit_calculator::SoffitCalculator;

// One dollar in money units (the fixed-point scale of estimates).
const MU: u128 = soffit_calculator::MONEY_UNITS_PER_DOLLAR as u128;

fn details(service_type: &str, urgency: &str) -> ProjectDetails {
    ProjectDetails {
        zip_code: "32801".to_string(),
        property_type: "residential".to_string(),
        service_type: service_type.to_string(),
        urgency: urgency.to_string(),
    }
}

#[test]
fn linear_feet_without_gables() {
    let calc = SoffitCalculator::new();
    // 30 ft by 40 ft house: perimeter 140 ft.
    assert_eq!(calc.calculate_linear_feet(3000, 4000, false, 0, 0), 14000);
}

#[test]
fn linear_feet_with_gables() {
    let calc = SoffitCalculator::new();
    // Two 10 ft gables add 40 ft (both faces of each).
    assert_eq!(calc.calculate_linear_feet(3000, 4000, true, 2, 1000), 18000);
}

#[test]
fn linear_feet_ignores_gable_data_without_gables() {
    let calc = SoffitCalculator::new();
    assert_eq!(calc.calculate_linear_feet(3000, 4000, false, 7, 1000), 14000);
}

#[test]
fn baseline_vinyl_estimate() {
    // 100 ft of vinyl, new construction, standard urgency:
    // material $700, labor $500, no discount, final $1278.00.
    let calc = SoffitCalculator::new();
    let est = calc.calculate_cost_estimate(10_000, "vinyl", &details("new_construction", "standard"));
    assert_eq!(est.material_cost, 700 * MU);
    assert_eq!(est.labor_cost, 500 * MU);
    assert_eq!(est.total_cost, 1200 * MU);
    assert!(!est.volume_discount_applied);
    assert_eq!(est.discount_amount, 0);
    assert_eq!(est.tax_rate, 65);
    assert_eq!(est.linear_feet, 10_000);
    assert_eq!(est.final_total, 1278 * MU);
}

#[test]
fn estimate_with_all_multipliers() {
    // 100 ft of wood, remove & replace, urgent:
    // material 100*7*1.5*1.3*1.25 = $1706.25, labor 100*5*1.3*1.25 = $812.50,
    // subtotal $2518.75, final 2518.75 * 1.065 = $2682.46875 exactly.
    let calc = SoffitCalculator::new();
    let est = calc.calculate_cost_estimate(10_000, "wood", &details("remove_replace", "urgent"));
    assert_eq!(est.material_cost, 17_062_500_000_000_000);
    assert_eq!(est.labor_cost, 8_125_000_000_000_000);
    assert_eq!(est.total_cost, 25_187_500_000_000_000);
    assert_eq!(est.final_total, 26_824_687_500_000_000);
}

#[test]
fn unknown_service_and_urgency_fall_back_to_defaults() {
    let calc = SoffitCalculator::new();
    let est = calc.calculate_cost_estimate(10_000, "vinyl", &details("demolition", "whenever"));
    let baseline = calc.calculate_cost_estimate(10_000, "vinyl", &details("new_construction", "standard"));
    assert_eq!(est.final_total, baseline.final_total);
    assert_eq!(est.material_cost, baseline.material_cost);
}

#[test]
fn unknown_material_priced_as_vinyl() {
    let calc = SoffitCalculator::new();
    let est = calc.calculate_cost_estimate(10_000, "unknown_material", &details("new_construction", "standard"));
    assert_eq!(est.material_cost, 700 * MU);
    assert_eq!(est.final_total, 1278 * MU);
}

#[test]
fn no_discount_below_threshold() {
    // 199.99 ft: just below the 200 ft threshold.
    let calc = SoffitCalculator::new();
    let est = calc.calculate_cost_estimate(19_999, "vinyl", &details("new_construction", "standard"));
    assert!(!est.volume_discount_applied);
    assert_eq!(est.discount_amount, 0);
    assert_eq!(est.total_cost, est.material_cost + est.labor_cost);
}

#[test]
fn discount_at_threshold_is_exactly_five_percent() {
    // 200 ft of vinyl: subtotal $2400, discount $120, discounted $2280,
    // final 2280 * 1.065 = $2428.20.
    let calc = SoffitCalculator::new();
    let est = calc.calculate_cost_estimate(20_000, "vinyl", &details("new_construction", "standard"));
    assert!(est.volume_discount_applied);
    let subtotal = est.material_cost + est.labor_cost;
    assert_eq!(subtotal, 2400 * MU);
    assert_eq!(est.discount_amount * 20, subtotal);
    assert_eq!(est.discount_amount, 120 * MU);
    assert_eq!(est.total_cost, 2280 * MU);
    assert_eq!(est.final_total, 24_282_000_000_000_000);
}

#[test]
fn labor_cost_does_not_depend_on_material() {
    let calc = SoffitCalculator::new();
    let d = details("remove_replace", "urgent");
    let vinyl = calc.calculate_cost_estimate(12_345, "vinyl", &d);
    let fiber = calc.calculate_cost_estimate(12_345, "fiber_cement", &d);
    assert_eq!(vinyl.labor_cost, fiber.labor_cost);
    assert_ne!(vinyl.material_cost, fiber.material_cost);
}

#[test]
fn final_total_is_discounted_total_times_one_plus_tax() {
    let calc = SoffitCalculator::new();
    for lf in [0u64, 1, 777, 10_000, 19_999, 20_000, 31_416] {
        let est = calc.calculate_cost_estimate(lf, "aluminum", &details("repair", "urgent"));
        assert_eq!(est.final_total * 1000, est.total_cost * 1065);
    }
}

#[test]
fn material_options_come_in_fixed_order() {
    let calc = SoffitCalculator::new();
    let options = calc.calculate_material_options(10_000, &details("new_construction", "standard"));
    assert_eq!(options.len(), 4);
    let names: Vec<&str> = options.iter().map(|o| o.material.name.as_str()).collect();
    assert_eq!(names, vec!["vinyl", "aluminum", "wood", "fiber_cement"]);
}

#[test]
fn material_options_carry_estimates_and_annualized_costs() {
    let calc = SoffitCalculator::new();
    let options = calc.calculate_material_options(10_000, &details("new_construction", "standard"));
    // Vinyl: final $1278, over 20 years: $63.90 per year.
    assert_eq!(options[0].estimate.final_total, 1278 * MU);
    assert_eq!(options[0].cost_per_year, 639_000_000_000_000);
    assert_eq!(options[0].material.durability_years, 20);
    // Aluminum: 840 + 500 = 1340, * 1.065 = $1427.10, over 30 years: $47.57.
    assert_eq!(options[1].estimate.final_total, 14_271_000_000_000_000);
    assert_eq!(options[1].cost_per_year, 475_700_000_000_000);
    // Wood: 1050 + 500 = 1550, * 1.065 = $1650.75, over 15 years: $110.05.
    assert_eq!(options[2].estimate.final_total, 16_507_500_000_000_000);
    assert_eq!(options[2].cost_per_year, 1_100_500_000_000_000);
    // Fiber cement: 1260 + 500 = 1760, * 1.065 = $1874.40, over 50: $37.488.
    assert_eq!(options[3].estimate.final_total, 18_744_000_000_000_000);
    assert_eq!(options[3].cost_per_year, 374_880_000_000_000);
    assert_eq!(options[3].material.cost_per_foot, 700 * 1800);
}

#[test]
fn create_calculator_matches_new() {
    let calc = create_calculator();
    let est = calc.calculate_cost_estimate(10_000, "vinyl", &details("new_construction", "standard"));
    assert_eq!(est.final_total, 1278 * MU);
}
