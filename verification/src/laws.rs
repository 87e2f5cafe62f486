//! Laws of the pricing pipeline.
//!
//! The pipeline computes with integers at the common money scale and
//! rounds its two divisions (discount and tax) down.  These lemmas show
//! that for every configuration and every input the roundings are
//! vacuous: the multipliers of the closed service, urgency, and
//! material sets leave every subtotal divisible far enough that the 5%
//! discount and the per-mille tax are exact.

use vstd::prelude::*;
use crate::calculator::spec_final_total;
use crate::calculator::spec_labor_cost;
use crate::calculator::spec_service_multiplier;
use crate::calculator::spec_subtotal;
use crate::calculator::spec_tax_amount;
use crate::calculator::spec_urgency_multiplier;
use crate::calculator::estimate_matches;
use crate::constants::VOLUME_DISCOUNT_THRESHOLD_CENTIFEET;
use crate::types::CostEstimate;
use crate::utils::spec_discount_amount;
use crate::utils::spec_discounted_total;
use crate::utils::spec_material_multiplier;

verus! {

/// The subtotal of the pipeline run with the multipliers looked up
/// from the three key strings.
pub open spec fn spec_pipeline_subtotal(
    linear_feet: int,
    material_cost_per_foot: int,
    labor_cost_per_foot: int,
    material: Seq<char>,
    service: Seq<char>,
    urgency: Seq<char>,
) -> int {
    spec_subtotal(
        linear_feet,
        material_cost_per_foot,
        labor_cost_per_foot,
        spec_material_multiplier(material),
        spec_service_multiplier(service),
        spec_urgency_multiplier(urgency),
    )
}

/// Below the volume threshold nothing is discounted: the discount is
/// zero and the discounted total is the subtotal, exactly.
pub proof fn lemma_no_discount_below_threshold(subtotal: int, linear_feet: int)
    requires
        linear_feet < VOLUME_DISCOUNT_THRESHOLD_CENTIFEET,
    ensures
        spec_discount_amount(subtotal, linear_feet) == 0,
        spec_discounted_total(subtotal, linear_feet) == subtotal,
{
}

/// Every subtotal of the pipeline is a multiple of 2 500 000: material
/// multipliers are multiples of 100, service multipliers of 100, and
/// urgency multipliers of 250, and the labor term carries a factor of
/// 1000 outright.
proof fn lemma_subtotal_divisibility(
    lf: int,
    cpf: int,
    lcpf: int,
    mat: int,
    svc: int,
    urg: int,
)
    requires
        mat % 100 == 0,
        svc % 100 == 0,
        urg % 250 == 0,
    ensures
        spec_subtotal(lf, cpf, lcpf, mat, svc, urg) % 2_500_000 == 0,
{
    let a = mat / 100;
    let b = svc / 100;
    let c = urg / 250;
    vstd::arithmetic::div_mod::lemma_fundamental_div_mod(mat, 100);
    vstd::arithmetic::div_mod::lemma_fundamental_div_mod(svc, 100);
    vstd::arithmetic::div_mod::lemma_fundamental_div_mod(urg, 250);
    let k = lf * cpf * a * b * c + 10 * (lf * lcpf * b * c);
    assert(lf * cpf * mat * svc * urg + lf * lcpf * 1000 * svc * urg == 2_500_000 * k)
        by (nonlinear_arith)
        requires
            mat == 100 * a,
            svc == 100 * b,
            urg == 250 * c,
            k == lf * cpf * a * b * c + 10 * (lf * lcpf * b * c),
    ;
    vstd::arithmetic::div_mod::lemma_mod_multiples_basic(k, 2_500_000);
}

/// A multiple of 20, halved twentyfold per-mille, loses nothing to
/// rounding: `x * 50 / 1000 == x / 20`, exactly.
proof fn lemma_five_percent_exact(x: int)
    requires
        x % 20 == 0,
    ensures
        1000 * (x * 50 / 1000) == 50 * x,
        x * 50 / 1000 == x / 20,
{
    let q = x / 20;
    vstd::arithmetic::div_mod::lemma_fundamental_div_mod(x, 20);
    assert(x * 50 == 1000 * q) by (nonlinear_arith)
        requires
            x == 20 * q,
    ;
    vstd::arithmetic::div_mod::lemma_div_multiples_vanish(q, 1000);
}

/// The volume discount is exact: at or above the threshold the
/// discount is exactly 5% of the subtotal and the discounted total
/// exactly 95% of it, with no remainder lost to the integer division.
pub proof fn lemma_volume_discount_exact(
    linear_feet: int,
    material_cost_per_foot: int,
    labor_cost_per_foot: int,
    material: Seq<char>,
    service: Seq<char>,
    urgency: Seq<char>,
)
    requires
        linear_feet >= VOLUME_DISCOUNT_THRESHOLD_CENTIFEET,
    ensures
        1000 * spec_discount_amount(
            spec_pipeline_subtotal(
                linear_feet,
                material_cost_per_foot,
                labor_cost_per_foot,
                material,
                service,
                urgency,
            ),
            linear_feet,
        ) == 50 * spec_pipeline_subtotal(
            linear_feet,
            material_cost_per_foot,
            labor_cost_per_foot,
            material,
            service,
            urgency,
        ),
        1000 * spec_discounted_total(
            spec_pipeline_subtotal(
                linear_feet,
                material_cost_per_foot,
                labor_cost_per_foot,
                material,
                service,
                urgency,
            ),
            linear_feet,
        ) == 950 * spec_pipeline_subtotal(
            linear_feet,
            material_cost_per_foot,
            labor_cost_per_foot,
            material,
            service,
            urgency,
        ),
{
    let st = spec_pipeline_subtotal(
        linear_feet,
        material_cost_per_foot,
        labor_cost_per_foot,
        material,
        service,
        urgency,
    );
    lemma_subtotal_divisibility(
        linear_feet,
        material_cost_per_foot,
        labor_cost_per_foot,
        spec_material_multiplier(material),
        spec_service_multiplier(service),
        spec_urgency_multiplier(urgency),
    );
    vstd::arithmetic::div_mod::lemma_mod_mod(st, 20, 125_000);
    lemma_five_percent_exact(st);
}

/// The material multiplier never touches labor: two estimates from the
/// same footage, prices, and project details agree on the labor cost
/// whatever their material choices.
pub proof fn lemma_labor_cost_ignores_material(
    est_a: CostEstimate,
    est_b: CostEstimate,
    linear_feet: int,
    material_cost_per_foot: int,
    labor_cost_per_foot: int,
    tax_rate: int,
    material_multiplier_a: int,
    material_multiplier_b: int,
    service_multiplier: int,
    urgency_multiplier: int,
)
    requires
        estimate_matches(
            est_a,
            linear_feet,
            material_cost_per_foot,
            labor_cost_per_foot,
            tax_rate,
            material_multiplier_a,
            service_multiplier,
            urgency_multiplier,
        ),
        estimate_matches(
            est_b,
            linear_feet,
            material_cost_per_foot,
            labor_cost_per_foot,
            tax_rate,
            material_multiplier_b,
            service_multiplier,
            urgency_multiplier,
        ),
    ensures
        est_a.labor_cost == est_b.labor_cost,
        est_a.labor_cost == spec_labor_cost(
            linear_feet,
            labor_cost_per_foot,
            service_multiplier,
            urgency_multiplier,
        ),
{
}

/// Every discounted total of the pipeline is a multiple of 1000,
/// whether or not the discount applied.
proof fn lemma_discounted_total_divisibility(
    lf: int,
    cpf: int,
    lcpf: int,
    mat: int,
    svc: int,
    urg: int,
)
    requires
        mat % 100 == 0,
        svc % 100 == 0,
        urg % 250 == 0,
    ensures
        spec_discounted_total(spec_subtotal(lf, cpf, lcpf, mat, svc, urg), lf) % 1000 == 0,
{
    let st = spec_subtotal(lf, cpf, lcpf, mat, svc, urg);
    lemma_subtotal_divisibility(lf, cpf, lcpf, mat, svc, urg);
    let v = st / 2_500_000;
    vstd::arithmetic::div_mod::lemma_fundamental_div_mod(st, 2_500_000);
    if lf >= VOLUME_DISCOUNT_THRESHOLD_CENTIFEET {
        vstd::arithmetic::div_mod::lemma_mod_mod(st, 20, 125_000);
        lemma_five_percent_exact(st);
        assert(st == 20 * (125_000 * v)) by (nonlinear_arith)
            requires
                st == 2_500_000 * v,
        ;
        vstd::arithmetic::div_mod::lemma_div_multiples_vanish(125_000 * v, 20);
        assert(st - st / 20 == 1000 * (2375 * v)) by (nonlinear_arith)
            requires
                st == 2_500_000 * v,
                st / 20 == 125_000 * v,
        ;
        vstd::arithmetic::div_mod::lemma_mod_multiples_basic(2375 * v, 1000);
    } else {
        assert(st == 1000 * (2500 * v)) by (nonlinear_arith)
            requires
                st == 2_500_000 * v,
        ;
        vstd::arithmetic::div_mod::lemma_mod_multiples_basic(2500 * v, 1000);
    }
}

/// The tax is exact: on every discounted total the pipeline produces,
/// the final total is exactly the discounted total times one plus the
/// tax rate, with no remainder lost to the integer division.
pub proof fn lemma_final_total_exact(
    linear_feet: int,
    material_cost_per_foot: int,
    labor_cost_per_foot: int,
    tax_rate: int,
    material: Seq<char>,
    service: Seq<char>,
    urgency: Seq<char>,
)
    ensures
        1000 * spec_tax_amount(
            spec_discounted_total(
                spec_pipeline_subtotal(
                    linear_feet,
                    material_cost_per_foot,
                    labor_cost_per_foot,
                    material,
                    service,
                    urgency,
                ),
                linear_feet,
            ),
            tax_rate,
        ) == tax_rate * spec_discounted_total(
            spec_pipeline_subtotal(
                linear_feet,
                material_cost_per_foot,
                labor_cost_per_foot,
                material,
                service,
                urgency,
            ),
            linear_feet,
        ),
        1000 * spec_final_total(
            spec_discounted_total(
                spec_pipeline_subtotal(
                    linear_feet,
                    material_cost_per_foot,
                    labor_cost_per_foot,
                    material,
                    service,
                    urgency,
                ),
                linear_feet,
            ),
            tax_rate,
        ) == (1000 + tax_rate) * spec_discounted_total(
            spec_pipeline_subtotal(
                linear_feet,
                material_cost_per_foot,
                labor_cost_per_foot,
                material,
                service,
                urgency,
            ),
            linear_feet,
        ),
{
    let st = spec_pipeline_subtotal(
        linear_feet,
        material_cost_per_foot,
        labor_cost_per_foot,
        material,
        service,
        urgency,
    );
    let d = spec_discounted_total(st, linear_feet);
    lemma_discounted_total_divisibility(
        linear_feet,
        material_cost_per_foot,
        labor_cost_per_foot,
        spec_material_multiplier(material),
        spec_service_multiplier(service),
        spec_urgency_multiplier(urgency),
    );
    let w = d / 1000;
    vstd::arithmetic::div_mod::lemma_fundamental_div_mod(d, 1000);
    assert(d * tax_rate == 1000 * (w * tax_rate)) by (nonlinear_arith)
        requires
            d == 1000 * w,
    ;
    vstd::arithmetic::div_mod::lemma_div_multiples_vanish(w * tax_rate, 1000);
    assert(1000 * (d + w * tax_rate) == (1000 + tax_rate) * d) by (nonlinear_arith)
        requires
            d == 1000 * w,
            d * tax_rate == 1000 * (w * tax_rate),
    ;
}

} // verus!
