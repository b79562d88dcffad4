//! Dimension reconciliation: choosing one common width/height for two
//! images of possibly different size.

use vstd::prelude::*;

verus! {

/// How the common dimensions of the two inputs are chosen.
///
/// The choice between the two rules is an explicit policy decision of the
/// caller, not an accident of the comparison code.
#[derive(Clone, Copy, Debug, PartialEq, Eq, Structural)]
pub enum DimensionPolicy {
    /// Pick the pair with the smaller pixel count, ties broken toward the
    /// second pair.
    TrueMinimum,
    /// Always pick the second pair, whatever the pixel counts are.
    AlwaysUseSecond,
}

/// The pixel count of a width/height pair.
pub open spec fn spec_pixel_count(dim: (u32, u32)) -> int {
    dim.0 * dim.1
}

/// The pair with the smaller pixel count; ties resolve to the second pair.
pub open spec fn spec_smallest_dimensions(dim_1: (u32, u32), dim_2: (u32, u32)) -> (u32, u32) {
    if spec_pixel_count(dim_1) < spec_pixel_count(dim_2) {
        dim_1
    } else {
        dim_2
    }
}

/// The dimensions a policy selects from the two pairs.
pub open spec fn spec_reconcile_dimensions(
    policy: DimensionPolicy,
    dim_1: (u32, u32),
    dim_2: (u32, u32),
) -> (u32, u32) {
    match policy {
        DimensionPolicy::TrueMinimum => spec_smallest_dimensions(dim_1, dim_2),
        DimensionPolicy::AlwaysUseSecond => dim_2,
    }
}

/// The product of two 32-bit values never exceeds the 64-bit range.
pub proof fn lemma_u32_product_fits_u64(a: u32, b: u32)
    ensures
        a * b <= u32::MAX * u32::MAX < u64::MAX,
{
    assert(a * b <= u32::MAX * u32::MAX) by (nonlinear_arith)
        requires
            a <= u32::MAX,
            b <= u32::MAX,
    ;
}

/// Returns the pair with the smaller pixel count, comparing each pair's own
/// width times height; a tie resolves to the second pair.
pub fn get_smallest_dimensions(dim_1: (u32, u32), dim_2: (u32, u32)) -> (dim: (u32, u32))
    ensures
        dim == spec_smallest_dimensions(dim_1, dim_2),
{
    proof {
        lemma_u32_product_fits_u64(dim_1.0, dim_1.1);
        lemma_u32_product_fits_u64(dim_2.0, dim_2.1);
    }
    let pix_1: u64 = dim_1.0 as u64 * dim_1.1 as u64;
    let pix_2: u64 = dim_2.0 as u64 * dim_2.1 as u64;
    if pix_1 < pix_2 {
        dim_1
    } else {
        dim_2
    }
}

/// Returns the dimension pair both images are standardized to, under the
/// given selection policy.
pub fn reconcile_dimensions(
    policy: DimensionPolicy,
    dim_1: (u32, u32),
    dim_2: (u32, u32),
) -> (dim: (u32, u32))
    ensures
        dim == spec_reconcile_dimensions(policy, dim_1, dim_2),
{
    match policy {
        DimensionPolicy::TrueMinimum => get_smallest_dimensions(dim_1, dim_2),
        DimensionPolicy::AlwaysUseSecond => dim_2,
    }
}

/// Reconciliation is deterministic: two results obtained from identical
/// inputs under the same policy are identical, since each equals the same
/// function of those inputs.
pub proof fn lemma_reconcile_deterministic(
    policy: DimensionPolicy,
    dim_1: (u32, u32),
    dim_2: (u32, u32),
    out_1: (u32, u32),
    out_2: (u32, u32),
)
    requires
        out_1 == spec_reconcile_dimensions(policy, dim_1, dim_2),
        out_2 == spec_reconcile_dimensions(policy, dim_1, dim_2),
    ensures
        out_1 == out_2,
{
}

/// Whatever the policy, the reconciled pair is one of the two input pairs.
pub proof fn lemma_reconcile_picks_an_input(
    policy: DimensionPolicy,
    dim_1: (u32, u32),
    dim_2: (u32, u32),
)
    ensures
        spec_reconcile_dimensions(policy, dim_1, dim_2) == dim_1
            || spec_reconcile_dimensions(policy, dim_1, dim_2) == dim_2,
{
}

} // verus!
