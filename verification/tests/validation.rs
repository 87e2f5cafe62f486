use soffit_calculator::calculate_annualized_cost;
use soffit_calculator::calculate_volume_discount;
use soffit_calculator::format_currency;
use soffit_calculator::get_material_description;
use soffit_calculator::get_material_durability;
use soffit_calculator::get_material_multiplier;
use soffit_calculator::validate_florida_zip_code;
use soffit_calculator::validate_gable_parameters;
use soffit_calculator::validate_house_dimensions;
use soffit_calculator::SoffitCalculator;
use soffit_calculator::SoffitMeasurement;

#[test]
fn house_dimensions_low_and_high() {
    // 5 ft length and 600 ft width: exactly two errors, in order.
    let r = validate_house_dimensions(500, 60_000);
    assert!(!r.is_valid);
    assert_eq!(
        r.errors,
        vec![
            "Length must be at least 10 feet".to_string(),
            "Width cannot exceed 500 feet".to_string(),
        ]
    );
}

#[test]
fn house_dimensions_valid() {
    let r = validate_house_dimensions(5_000, 5_000);
    assert!(r.is_valid);
    assert!(r.errors.is_empty());
}

#[test]
fn house_dimension_bounds_are_inclusive() {
    assert!(validate_house_dimensions(1_000, 50_000).is_valid);
    assert!(!validate_house_dimensions(999, 50_000).is_valid);
    assert!(!validate_house_dimensions(1_000, 50_001).is_valid);
}

#[test]
fn house_dimensions_all_four_errors() {
    let low_high = validate_house_dimensions(500, 60_000);
    let high_low = validate_house_dimensions(60_000, 500);
    assert_eq!(
        high_low.errors,
        vec![
            "Length cannot exceed 500 feet".to_string(),
            "Width must be at least 10 feet".to_string(),
        ]
    );
    assert_eq!(low_high.errors.len(), 2);
}

#[test]
fn gable_parameters_errors() {
    let r = validate_gable_parameters(21, 300);
    assert!(!r.is_valid);
    assert_eq!(
        r.errors,
        vec![
            "Gable count cannot exceed 20".to_string(),
            "Gable length must be at least 5 feet".to_string(),
        ]
    );
    let too_long = validate_gable_parameters(0, 10_001);
    assert_eq!(too_long.errors, vec!["Gable length cannot exceed 100 feet".to_string()]);
}

#[test]
fn gable_parameters_valid_with_zero_count() {
    let r = validate_gable_parameters(0, 500);
    assert!(r.is_valid);
    assert!(validate_gable_parameters(20, 10_000).is_valid);
}

#[test]
fn combined_measurement_validation_keeps_order() {
    let calc = SoffitCalculator::new();
    // House error first, then both gable errors.
    let r = calc.validate_measurements(500, 5_000, 25, 300);
    assert!(!r.is_valid);
    assert_eq!(
        r.errors,
        vec![
            "Length must be at least 10 feet".to_string(),
            "Gable count cannot exceed 20".to_string(),
            "Gable length must be at least 5 feet".to_string(),
        ]
    );
    assert!(calc.validate_measurements(3_000, 4_000, 2, 1_000).is_valid);
}

#[test]
fn florida_zip_codes() {
    assert!(validate_florida_zip_code("32801"));
    assert!(!validate_florida_zip_code("10001"));
    assert!(!validate_florida_zip_code("328"));
}

#[test]
fn zip_code_range_is_inclusive() {
    assert!(validate_florida_zip_code("32000"));
    assert!(validate_florida_zip_code("34999"));
    assert!(!validate_florida_zip_code("31999"));
    assert!(!validate_florida_zip_code("35000"));
}

#[test]
fn zip_code_rejects_non_digits() {
    assert!(!validate_florida_zip_code("32a01"));
    assert!(!validate_florida_zip_code("+3280"));
    assert!(!validate_florida_zip_code(""));
    assert!(!validate_florida_zip_code("328011"));
    let calc = SoffitCalculator::new();
    assert!(calc.validate_zip_code("33101"));
    assert!(!calc.validate_zip_code("90210"));
}

#[test]
fn material_lookup_table() {
    assert_eq!(get_material_multiplier("vinyl"), 1000);
    assert_eq!(get_material_multiplier("aluminum"), 1200);
    assert_eq!(get_material_multiplier("wood"), 1500);
    assert_eq!(get_material_multiplier("fiber_cement"), 1800);
    assert_eq!(get_material_multiplier("marble"), 1000);
    assert_eq!(get_material_durability("vinyl"), 20);
    assert_eq!(get_material_durability("aluminum"), 30);
    assert_eq!(get_material_durability("wood"), 15);
    assert_eq!(get_material_durability("fiber_cement"), 50);
    assert_eq!(get_material_durability("marble"), 20);
    assert_eq!(get_material_description("wood"), "Wood - natural and traditional appearance");
    // Unknown keys fall back to the whole vinyl entry, description included.
    assert_eq!(get_material_description("marble"), "Vinyl - economical and low-maintenance");
}

#[test]
fn unknown_material_info_is_the_vinyl_entry() {
    let calc = SoffitCalculator::new();
    let info = calc.get_material_info("unknown_material");
    assert_eq!(info.name, "unknown_material");
    assert_eq!(info.cost_per_foot, 700 * 1000);
    assert_eq!(info.durability_years, 20);
    assert_eq!(info.description, "Vinyl - economical and low-maintenance");
    let wood = calc.get_material_info("wood");
    assert_eq!(wood.cost_per_foot, 700 * 1500);
    assert_eq!(wood.durability_years, 15);
}

#[test]
fn currency_formatting() {
    assert_eq!(format_currency(123_450), "$1234.50");
    assert_eq!(format_currency(0), "$0.00");
    assert_eq!(format_currency(99), "$0.99");
    assert_eq!(format_currency(100), "$1.00");
    assert_eq!(format_currency(1_000_000_007), "$10000000.07");
    let calc = SoffitCalculator::new();
    assert_eq!(calc.format_currency(127_800), "$1278.00");
}

#[test]
fn volume_discount_directly() {
    assert_eq!(calculate_volume_discount(1000, 20_000), (950, 50, true));
    assert_eq!(calculate_volume_discount(1000, 19_999), (1000, 0, false));
    // Rounded down on an amount that is no multiple of 20.
    assert_eq!(calculate_volume_discount(999, 20_000), (950, 49, true));
}

#[test]
fn annualized_cost_guards_zero_durability() {
    assert_eq!(calculate_annualized_cost(100, 0), 100);
    assert_eq!(calculate_annualized_cost(100, 3), 33);
    assert_eq!(calculate_annualized_cost(12_780_000_000_000_000, 20), 639_000_000_000_000);
}

#[test]
fn measurement_record_roundtrip() {
    let m = SoffitMeasurement::new(3_000, 4_000, 14_000);
    assert_eq!(m.length(), 3_000);
    assert_eq!(m.width(), 4_000);
    assert_eq!(m.linear_feet(), 14_000);
}
