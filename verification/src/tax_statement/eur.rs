//! EUR amount formatting shared by every EUR surface: two places, halves rounded away from zero,
//! so that no two outputs disagree by a rounding cent.
use vstd::prelude::*;

use crate::decimal::{small_bound, Decimal};

verus! {

/// Amounts the formatter takes: at most 10^18 EUR in magnitude. Rounded to cents, such an amount
/// has a mantissa of at most 10^20 at scale 2, far inside `rust_decimal`'s 96 bits; and sums of
/// amounts with at most ten fractional digits stay exact up to this magnitude (10^28 < 2^96).
pub open spec fn eur_ok(v: Decimal) -> bool {
    -small_bound() <= v.units() <= small_bound()
}

/// The text of an amount: rounded to cents, halves away from zero, written with two places.
pub open spec fn eur_text(v: Decimal) -> Seq<char> {
    v.spec_round_dp(2).spec_rescaled_up(2).text()
}

/// Round a EUR amount to cents, half away from zero.
pub fn round_eur(value: Decimal) -> (r: Decimal)
    ensures
        r == value.spec_round_dp(2),
{
    value.round_dp(2)
}

/// Format a EUR amount to two places, half away from zero (`12.325` → `12.33`).
pub fn format_eur(value: Decimal) -> (r: String)
    requires
        eur_ok(value),
    ensures
        r@ == eur_text(value),
{
    let scale = value.scale();
    proof {
        value.lemma_cents_rescalable();
    }
    let rounded = round_eur(value);
    rounded.rescale_up(2).to_text()
}

} // verus!
