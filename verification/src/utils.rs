//! Validation, lookup, and formatting utilities.

use vstd::prelude::*;
use vstd::string::StrSliceExecFns;
use vstd::string::StringExecFns;
use crate::constants::ALUMINUM_COST_MULTIPLIER_MILLI;
use crate::constants::ALUMINUM_DURABILITY;
use crate::constants::FIBER_CEMENT_COST_MULTIPLIER_MILLI;
use crate::constants::FIBER_CEMENT_DURABILITY;
use crate::constants::MAX_FLORIDA_ZIP;
use crate::constants::MAX_GABLE_COUNT;
use crate::constants::MAX_GABLE_LENGTH_CENTIFEET;
use crate::constants::MAX_HOUSE_DIMENSION_CENTIFEET;
use crate::constants::MIN_FLORIDA_ZIP;
use crate::constants::MIN_GABLE_LENGTH_CENTIFEET;
use crate::constants::MIN_HOUSE_DIMENSION_CENTIFEET;
use crate::constants::VINYL_COST_MULTIPLIER_MILLI;
use crate::constants::VINYL_DURABILITY;
use crate::constants::VOLUME_DISCOUNT_RATE_MILLI;
use crate::constants::VOLUME_DISCOUNT_THRESHOLD_CENTIFEET;
use crate::constants::WOOD_COST_MULTIPLIER_MILLI;
use crate::constants::WOOD_DURABILITY;
use crate::types::ValidationResult;

verus! {

/// Character-wise string equality, stated over the views.
pub(crate) fn str_eq(a: &str, b: &str) -> (r: bool)
    ensures
        r == (a@ == b@),
{
    let a_len: usize = a.unicode_len();
    let b_len: usize = b.unicode_len();
    if a_len != b_len {
        return false;
    }
    let mut i: usize = 0;
    while i < a_len
        invariant
            i <= a_len,
            a_len == a@.len(),
            a_len == b@.len(),
            forall|j: int| 0 <= j < i ==> a@[j] == b@[j],
        decreases a_len - i,
    {
        if a.get_char(i) != b.get_char(i) {
            return false;
        }
        i = i + 1;
    }
    proof {
        assert(a@ =~= b@);
    }
    true
}

// ---------------------------------------------------------------------
// Material lookup table.  The mapping is closed over the four known
// material names; any other key silently falls back to the vinyl entry.
// ---------------------------------------------------------------------

/// Cost multiplier of a material, in thousandths; vinyl's for unknown keys.
pub open spec fn spec_material_multiplier(material: Seq<char>) -> int {
    if material == "vinyl"@ {
        VINYL_COST_MULTIPLIER_MILLI as int
    } else if material == "aluminum"@ {
        ALUMINUM_COST_MULTIPLIER_MILLI as int
    } else if material == "wood"@ {
        WOOD_COST_MULTIPLIER_MILLI as int
    } else if material == "fiber_cement"@ {
        FIBER_CEMENT_COST_MULTIPLIER_MILLI as int
    } else {
        VINYL_COST_MULTIPLIER_MILLI as int
    }
}

/// Durability of a material in years; vinyl's for unknown keys.
pub open spec fn spec_material_durability(material: Seq<char>) -> int {
    if material == "vinyl"@ {
        VINYL_DURABILITY as int
    } else if material == "aluminum"@ {
        ALUMINUM_DURABILITY as int
    } else if material == "wood"@ {
        WOOD_DURABILITY as int
    } else if material == "fiber_cement"@ {
        FIBER_CEMENT_DURABILITY as int
    } else {
        VINYL_DURABILITY as int
    }
}

/// Human-readable description of a material; vinyl's for unknown keys.
pub open spec fn spec_material_description(material: Seq<char>) -> Seq<char> {
    if material == "vinyl"@ {
        "Vinyl - economical and low-maintenance"@
    } else if material == "aluminum"@ {
        "Aluminum - durable and corrosion-resistant"@
    } else if material == "wood"@ {
        "Wood - natural and traditional appearance"@
    } else if material == "fiber_cement"@ {
        "Fiber cement - maximum durability and resistance"@
    } else {
        "Vinyl - economical and low-maintenance"@
    }
}

/// Returns the cost multiplier of a material type, in thousandths.
pub fn get_material_multiplier(material_type: &str) -> (r: u64)
    ensures
        r == spec_material_multiplier(material_type@),
{
    if str_eq(material_type, "vinyl") {
        VINYL_COST_MULTIPLIER_MILLI
    } else if str_eq(material_type, "aluminum") {
        ALUMINUM_COST_MULTIPLIER_MILLI
    } else if str_eq(material_type, "wood") {
        WOOD_COST_MULTIPLIER_MILLI
    } else if str_eq(material_type, "fiber_cement") {
        FIBER_CEMENT_COST_MULTIPLIER_MILLI
    } else {
        VINYL_COST_MULTIPLIER_MILLI
    }
}

/// Returns the durability of a material type, in years.
pub fn get_material_durability(material_type: &str) -> (r: u32)
    ensures
        r == spec_material_durability(material_type@),
{
    if str_eq(material_type, "vinyl") {
        VINYL_DURABILITY
    } else if str_eq(material_type, "aluminum") {
        ALUMINUM_DURABILITY
    } else if str_eq(material_type, "wood") {
        WOOD_DURABILITY
    } else if str_eq(material_type, "fiber_cement") {
        FIBER_CEMENT_DURABILITY
    } else {
        VINYL_DURABILITY
    }
}

/// Returns the description of a material type.
pub fn get_material_description(material_type: &str) -> (r: String)
    ensures
        r@ == spec_material_description(material_type@),
{
    if str_eq(material_type, "vinyl") {
        String::from_str("Vinyl - economical and low-maintenance")
    } else if str_eq(material_type, "aluminum") {
        String::from_str("Aluminum - durable and corrosion-resistant")
    } else if str_eq(material_type, "wood") {
        String::from_str("Wood - natural and traditional appearance")
    } else if str_eq(material_type, "fiber_cement") {
        String::from_str("Fiber cement - maximum durability and resistance")
    } else {
        String::from_str("Vinyl - economical and low-maintenance")
    }
}

// ---------------------------------------------------------------------
// Range validation.  Violations are reported as data, in a fixed order,
// never as errors.
// ---------------------------------------------------------------------

/// The views of a sequence of owned strings.
pub open spec fn error_views(errors: Seq<String>) -> Seq<Seq<char>> {
    errors.map_values(|s: String| s@)
}

/// House-dimension errors in order: length low, length high, width low,
/// width high.  Dimensions in centifeet against the 10..500 feet bounds.
pub open spec fn spec_house_dimension_errors(length: int, width: int) -> Seq<Seq<char>> {
    (if length < MIN_HOUSE_DIMENSION_CENTIFEET {
        seq!["Length must be at least 10 feet"@]
    } else {
        Seq::<Seq<char>>::empty()
    }) + (if length > MAX_HOUSE_DIMENSION_CENTIFEET {
        seq!["Length cannot exceed 500 feet"@]
    } else {
        Seq::<Seq<char>>::empty()
    }) + (if width < MIN_HOUSE_DIMENSION_CENTIFEET {
        seq!["Width must be at least 10 feet"@]
    } else {
        Seq::<Seq<char>>::empty()
    }) + (if width > MAX_HOUSE_DIMENSION_CENTIFEET {
        seq!["Width cannot exceed 500 feet"@]
    } else {
        Seq::<Seq<char>>::empty()
    })
}

/// Checks the house sides (centifeet) independently against the
/// inclusive 10..500 feet bounds.
pub fn validate_house_dimensions(length: u64, width: u64) -> (r: ValidationResult)
    ensures
        error_views(r.errors@) == spec_house_dimension_errors(length as int, width as int),
        r.is_valid == (spec_house_dimension_errors(length as int, width as int).len() == 0),
{
    let mut errors: Vec<String> = Vec::new();
    if length < MIN_HOUSE_DIMENSION_CENTIFEET {
        errors.push(String::from_str("Length must be at least 10 feet"));
    }
    if length > MAX_HOUSE_DIMENSION_CENTIFEET {
        errors.push(String::from_str("Length cannot exceed 500 feet"));
    }
    if width < MIN_HOUSE_DIMENSION_CENTIFEET {
        errors.push(String::from_str("Width must be at least 10 feet"));
    }
    if width > MAX_HOUSE_DIMENSION_CENTIFEET {
        errors.push(String::from_str("Width cannot exceed 500 feet"));
    }
    proof {
        assert(error_views(errors@) =~= spec_house_dimension_errors(
            length as int,
            width as int,
        ));
    }
    let is_valid: bool = errors.len() == 0;
    ValidationResult { is_valid, errors }
}

/// Gable-parameter errors in order: count high, length low, length high.
/// Length in centifeet; no lower bound on the count.
pub open spec fn spec_gable_parameter_errors(gable_count: int, gable_length: int) -> Seq<
    Seq<char>,
> {
    (if gable_count > MAX_GABLE_COUNT {
        seq!["Gable count cannot exceed 20"@]
    } else {
        Seq::<Seq<char>>::empty()
    }) + (if gable_length < MIN_GABLE_LENGTH_CENTIFEET {
        seq!["Gable length must be at least 5 feet"@]
    } else {
        Seq::<Seq<char>>::empty()
    }) + (if gable_length > MAX_GABLE_LENGTH_CENTIFEET {
        seq!["Gable length cannot exceed 100 feet"@]
    } else {
        Seq::<Seq<char>>::empty()
    })
}

/// Checks the gable count and the gable length (centifeet) against the
/// 20-gable cap and the inclusive 5..100 feet bounds.
pub fn validate_gable_parameters(gable_count: u32, gable_length: u64) -> (r: ValidationResult)
    ensures
        error_views(r.errors@) == spec_gable_parameter_errors(
            gable_count as int,
            gable_length as int,
        ),
        r.is_valid == (spec_gable_parameter_errors(gable_count as int, gable_length as int).len()
            == 0),
{
    let mut errors: Vec<String> = Vec::new();
    if gable_count > MAX_GABLE_COUNT {
        errors.push(String::from_str("Gable count cannot exceed 20"));
    }
    if gable_length < MIN_GABLE_LENGTH_CENTIFEET {
        errors.push(String::from_str("Gable length must be at least 5 feet"));
    }
    if gable_length > MAX_GABLE_LENGTH_CENTIFEET {
        errors.push(String::from_str("Gable length cannot exceed 100 feet"));
    }
    proof {
        assert(error_views(errors@) =~= spec_gable_parameter_errors(
            gable_count as int,
            gable_length as int,
        ));
    }
    let is_valid: bool = errors.len() == 0;
    ValidationResult { is_valid, errors }
}

// ---------------------------------------------------------------------
// Postal codes.
// ---------------------------------------------------------------------

pub open spec fn spec_is_ascii_digit(c: char) -> bool {
    '0' <= c && c <= '9'
}

pub open spec fn spec_digit_value(c: char) -> int {
    c as int - '0' as int
}

/// Numeric value of a five-digit postal code.
pub open spec fn spec_zip_value(s: Seq<char>) -> int
    recommends
        s.len() == 5,
{
    spec_digit_value(s[0]) * 10000 + spec_digit_value(s[1]) * 1000 + spec_digit_value(s[2]) * 100
        + spec_digit_value(s[3]) * 10 + spec_digit_value(s[4])
}

/// A Florida postal code: exactly five digits, numerically between
/// 32000 and 34999 inclusive.
pub open spec fn spec_valid_florida_zip(s: Seq<char>) -> bool {
    &&& s.len() == 5
    &&& spec_is_ascii_digit(s[0])
    &&& spec_is_ascii_digit(s[1])
    &&& spec_is_ascii_digit(s[2])
    &&& spec_is_ascii_digit(s[3])
    &&& spec_is_ascii_digit(s[4])
    &&& MIN_FLORIDA_ZIP <= spec_zip_value(s) <= MAX_FLORIDA_ZIP
}

/// Reads one character as a decimal digit, or reports that it is none.
fn digit_of(c: char) -> (r: Option<u32>)
    ensures
        r is Some <==> spec_is_ascii_digit(c),
        r is Some ==> r->0 == spec_digit_value(c) && r->0 <= 9,
{
    if c >= '0' && c <= '9' {
        Some(c as u32 - 48)
    } else {
        None
    }
}

/// Decides whether a string is a valid Florida postal code.
pub fn validate_florida_zip_code(zip_code: &str) -> (r: bool)
    ensures
        r == spec_valid_florida_zip(zip_code@),
{
    if zip_code.unicode_len() != 5 {
        return false;
    }
    let d0: Option<u32> = digit_of(zip_code.get_char(0));
    let d1: Option<u32> = digit_of(zip_code.get_char(1));
    let d2: Option<u32> = digit_of(zip_code.get_char(2));
    let d3: Option<u32> = digit_of(zip_code.get_char(3));
    let d4: Option<u32> = digit_of(zip_code.get_char(4));
    match (d0, d1, d2, d3, d4) {
        (Some(v0), Some(v1), Some(v2), Some(v3), Some(v4)) => {
            let value: u32 = v0 * 10000 + v1 * 1000 + v2 * 100 + v3 * 10 + v4;
            MIN_FLORIDA_ZIP <= value && value <= MAX_FLORIDA_ZIP
        },
        _ => false,
    }
}

// ---------------------------------------------------------------------
// Currency formatting and annualized costs.
// ---------------------------------------------------------------------

pub open spec fn spec_digit_char(d: int) -> char {
    if d == 0 {
        '0'
    } else if d == 1 {
        '1'
    } else if d == 2 {
        '2'
    } else if d == 3 {
        '3'
    } else if d == 4 {
        '4'
    } else if d == 5 {
        '5'
    } else if d == 6 {
        '6'
    } else if d == 7 {
        '7'
    } else if d == 8 {
        '8'
    } else {
        '9'
    }
}

/// Decimal digits of a number, most significant first, no leading
/// zeros (a single `'0'` for zero).
pub open spec fn spec_decimal_digits(n: nat) -> Seq<char>
    decreases n,
{
    if n < 10 {
        seq![spec_digit_char(n as int)]
    } else {
        spec_decimal_digits(n / 10) + seq![spec_digit_char((n % 10) as int)]
    }
}

/// An amount of cents rendered as dollars: a `$` sign, the dollar
/// digits, a point, and exactly two cent digits.
pub open spec fn spec_format_currency(cents: nat) -> Seq<char> {
    seq!['$'] + spec_decimal_digits(cents / 100) + seq!['.'] + seq![
        spec_digit_char(((cents % 100) / 10) as int),
        spec_digit_char((cents % 10) as int),
    ]
}

/// A single decimal digit as a string slice.
fn digit_str(d: u128) -> (r: &'static str)
    requires
        d < 10,
    ensures
        r@ == seq![spec_digit_char(d as int)],
{
    proof {
        reveal_strlit("0");
        reveal_strlit("1");
        reveal_strlit("2");
        reveal_strlit("3");
        reveal_strlit("4");
        reveal_strlit("5");
        reveal_strlit("6");
        reveal_strlit("7");
        reveal_strlit("8");
        reveal_strlit("9");
    }
    let r: &'static str = if d == 0 {
        "0"
    } else if d == 1 {
        "1"
    } else if d == 2 {
        "2"
    } else if d == 3 {
        "3"
    } else if d == 4 {
        "4"
    } else if d == 5 {
        "5"
    } else if d == 6 {
        "6"
    } else if d == 7 {
        "7"
    } else if d == 8 {
        "8"
    } else {
        "9"
    };
    proof {
        assert(r@ =~= seq![spec_digit_char(d as int)]);
    }
    r
}

/// The decimal digits of a number, as a string.
fn decimal_digits_string(n: u128) -> (s: String)
    ensures
        s@ == spec_decimal_digits(n as nat),
    decreases n,
{
    if n < 10 {
        String::from_str(digit_str(n))
    } else {
        let mut s: String = decimal_digits_string(n / 10);
        s.append(digit_str(n % 10));
        s
    }
}

/// Formats an amount of cents as a dollar string, two decimal places,
/// no thousands separators (for example `"$1234.50"`).
pub fn format_currency(amount_cents: u128) -> (r: String)
    ensures
        r@ == spec_format_currency(amount_cents as nat),
{
    let mut s: String = String::from_str("$");
    let dollars: String = decimal_digits_string(amount_cents / 100);
    s.append(dollars.as_str());
    s.append(".");
    s.append(digit_str((amount_cents % 100) / 10));
    s.append(digit_str(amount_cents % 10));
    proof {
        reveal_strlit("$");
        reveal_strlit(".");
        assert((amount_cents % 100) % 10 == amount_cents % 10) by {
            vstd::arithmetic::div_mod::lemma_mod_mod(amount_cents as int, 10, 10);
        }
        assert(s@ =~= spec_format_currency(amount_cents as nat));
    }
    s
}

/// Total cost spread over a material's lifetime: the total divided by
/// the durability (rounded down), or the total itself for a zero
/// durability.
pub open spec fn spec_annualized_cost(total_cost: int, durability_years: int) -> int {
    if durability_years == 0 {
        total_cost
    } else {
        total_cost / durability_years
    }
}

/// Annualizes a total cost (money units) over a durability in years.
pub fn calculate_annualized_cost(total_cost: u128, durability_years: u32) -> (r: u128)
    ensures
        r == spec_annualized_cost(total_cost as int, durability_years as int),
{
    if durability_years == 0 {
        total_cost
    } else {
        total_cost / (durability_years as u128)
    }
}

/// Discount granted on a subtotal once the footage reaches the volume
/// threshold, in money units: 5% of the subtotal, rounded down.
pub open spec fn spec_discount_amount(subtotal: int, linear_feet: int) -> int {
    if linear_feet >= VOLUME_DISCOUNT_THRESHOLD_CENTIFEET {
        subtotal * VOLUME_DISCOUNT_RATE_MILLI / 1000
    } else {
        0
    }
}

/// Subtotal after the volume discount, in money units.
pub open spec fn spec_discounted_total(subtotal: int, linear_feet: int) -> int {
    subtotal - spec_discount_amount(subtotal, linear_feet)
}

/// Applies the volume discount to a subtotal (both in money units;
/// footage in centifeet).  Returns the discounted total, the discount
/// amount, and whether the discount applied.
pub fn calculate_volume_discount(subtotal: u128, linear_feet: u64) -> (r: (u128, u128, bool))
    requires
        subtotal * VOLUME_DISCOUNT_RATE_MILLI <= u128::MAX,
    ensures
        r.0 == spec_discounted_total(subtotal as int, linear_feet as int),
        r.1 == spec_discount_amount(subtotal as int, linear_feet as int),
        r.2 == (linear_feet >= VOLUME_DISCOUNT_THRESHOLD_CENTIFEET),
{
    if linear_feet >= VOLUME_DISCOUNT_THRESHOLD_CENTIFEET {
        let discount_amount: u128 = subtotal * (VOLUME_DISCOUNT_RATE_MILLI as u128) / 1000;
        proof {
            vstd::arithmetic::div_mod::lemma_div_is_ordered(
                subtotal * VOLUME_DISCOUNT_RATE_MILLI,
                subtotal * 1000,
                1000,
            );
            vstd::arithmetic::div_mod::lemma_div_multiples_vanish(subtotal as int, 1000);
        }
        let discounted_total: u128 = subtotal - discount_amount;
        (discounted_total, discount_amount, true)
    } else {
        (subtotal, 0, false)
    }
}

} // verus!
