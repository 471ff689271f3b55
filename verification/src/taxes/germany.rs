//! German capital-income tax: Teilfreistellung classes, the Abgeltungsteuer with Solidaritätszuschlag
//! and Kirchensteuer (§32d EStG), and the offsetting of a loss pot against its carryforward.
use vstd::prelude::*;

use crate::decimal::{
    abs_int, in_range, is_small, representable, representable_quotient, small_bound, unit, Decimal,
};

verus! {

/// Fund classification for the partial exemption of §20 InvStG.
#[derive(Clone, Copy, Debug, PartialEq, Eq, Structural)]
pub enum TeilfreistellungRate {
    /// Not a fund: no exemption.
    NotFund,
    /// Equity fund: 30% exempt.
    Equity,
    /// Mixed fund: 15% exempt.
    Mixed,
    /// Bond or other fund: no exemption.
    Bond,
}

/// The exempt share of each class, in hundredths.
pub open spec fn exempt_percent(rate: TeilfreistellungRate) -> int {
    match rate {
        TeilfreistellungRate::NotFund => 0,
        TeilfreistellungRate::Equity => 30,
        TeilfreistellungRate::Mixed => 15,
        TeilfreistellungRate::Bond => 0,
    }
}

/// The exempt share as a decimal with two places.
pub open spec fn spec_rate(rate: TeilfreistellungRate) -> Decimal {
    Decimal::spec_new(exempt_percent(rate), 2)
}

/// The taxable share as a decimal with two places.
pub open spec fn spec_taxable_portion(rate: TeilfreistellungRate) -> Decimal {
    Decimal::spec_new(100 - exempt_percent(rate), 2)
}

impl TeilfreistellungRate {
    /// The exempt share (`0.30` for an equity fund).
    pub fn rate(&self) -> (r: Decimal)
        ensures
            r == spec_rate(*self),
            r.units() == exempt_percent(*self) * (unit() / 100),
            r.mant() == exempt_percent(*self),
            r.exp() == 2,
    {
        proof {
            reveal_with_fuel(crate::decimal::pow10, 27);
        }
        match self {
            TeilfreistellungRate::NotFund => Decimal::new(0, 2),
            TeilfreistellungRate::Equity => Decimal::new(30, 2),
            TeilfreistellungRate::Mixed => Decimal::new(15, 2),
            TeilfreistellungRate::Bond => Decimal::new(0, 2),
        }
    }

    /// The taxable share (`0.70` for an equity fund).
    pub fn taxable_portion(&self) -> (r: Decimal)
        ensures
            r == spec_taxable_portion(*self),
            r.units() == (100 - exempt_percent(*self)) * (unit() / 100),
            r.exp() == 2,
    {
        proof {
            reveal_with_fuel(crate::decimal::pow10, 27);
        }
        match self {
            TeilfreistellungRate::NotFund => Decimal::new(100, 2),
            TeilfreistellungRate::Equity => Decimal::new(70, 2),
            TeilfreistellungRate::Mixed => Decimal::new(85, 2),
            TeilfreistellungRate::Bond => Decimal::new(100, 2),
        }
    }
}

/// The taxes on a capital-income base.
#[derive(Clone, Copy, Debug)]
pub struct AbgeltungsteuerBreakdown {
    pub abgeltungssteuer: Decimal,
    pub solidaritaetszuschlag: Decimal,
    pub kirchensteuer: Decimal,
    pub total: Decimal,
}

/// The rates of a tax year: 25% Abgeltungsteuer, 5.5% Solidaritätszuschlag on it, and the church
/// tax rate of the filer (0 without church tax).
#[derive(Clone, Copy, Debug)]
pub struct GermanTaxRates {
    pub year: i32,
    pub church_tax_rate: Decimal,
}

/// Church tax rates that the formula takes: between 0 and 100%.
pub open spec fn church_rate_ok(k: Decimal) -> bool {
    0 <= k.units() <= unit()
}

/// Magnitudes of tax bases the formula takes: up to 10^18 EUR, so that the base times four, the
/// church tax rate and the 5.5% Soli stay well inside `rust_decimal`'s range and the rounding to
/// cents is exact.
pub open spec fn base_ok(x: Decimal) -> bool {
    -(1_000_000_000_000_000_000 * unit()) <= x.units() <= 1_000_000_000_000_000_000 * unit()
}

/// §32d(1) EStG: `(e - 4q) / (4 + k)` Abgeltungsteuer on the base `e` with creditable foreign tax
/// `q` and church tax rate `k`, never below zero; 5.5% Soli and `k` Kirchensteuer on it. A base
/// that is not positive owes nothing.
pub open spec fn spec_compute_taxes(
    k: Decimal,
    taxable: Decimal,
    credit: Decimal,
) -> AbgeltungsteuerBreakdown {
    if taxable.units() <= 0 {
        AbgeltungsteuerBreakdown {
            abgeltungssteuer: Decimal::spec_zero(),
            solidaritaetszuschlag: Decimal::spec_zero(),
            kirchensteuer: Decimal::spec_zero(),
            total: Decimal::spec_zero(),
        }
    } else {
        let four = Decimal::spec_new(4, 0);
        let est = taxable.spec_sub(credit.spec_mul(four)).spec_div(four.spec_add(k)).spec_max(
            Decimal::spec_zero(),
        );
        let soli = est.spec_mul(Decimal::spec_new(55, 3));
        let kist = est.spec_mul(k);
        AbgeltungsteuerBreakdown {
            abgeltungssteuer: est,
            solidaritaetszuschlag: soli,
            kirchensteuer: kist,
            total: est.spec_add(soli).spec_add(kist),
        }
    }
}

impl GermanTaxRates {
    /// The rates without church tax.
    pub fn default() -> (r: GermanTaxRates)
        ensures
            r.church_tax_rate.units() == 0,
            church_rate_ok(r.church_tax_rate),
    {
        GermanTaxRates { year: 2009, church_tax_rate: Decimal::zero() }
    }

    /// The rates of `year` for a filer with the given church tax rate. The Abgeltungsteuer applies
    /// from 2009; a church tax rate outside 0..=100% is refused.
    pub fn for_year(year: i32, church_tax_rate: Decimal) -> (r: Result<GermanTaxRates, String>)
        ensures
            r is Ok <==> year >= 2009 && church_rate_ok(church_tax_rate),
            r matches Ok(rates) ==> rates.year == year && rates.church_tax_rate == church_tax_rate,
    {
        let one = Decimal::new(1, 0);
        proof {
            reveal_with_fuel(crate::decimal::pow10, 29);
        }
        if year < 2009 {
            return Err(<String as StringExecFns>::from_str(
                "The German Abgeltungsteuer applies from 2009 on",
            ));
        }
        if church_tax_rate.is_sign_positive() && church_tax_rate.le(&one) {
            Ok(GermanTaxRates { year, church_tax_rate })
        } else {
            Err(<String as StringExecFns>::from_str("The church tax rate must be between 0 and 1"))
        }
    }

    /// The taxes on `taxable` with the creditable foreign tax `foreign_tax_credit`.
    #[verifier::rlimit(40)]
    pub fn compute_taxes(&self, taxable: Decimal, foreign_tax_credit: Decimal) -> (r:
        AbgeltungsteuerBreakdown)
        requires
            church_rate_ok(self.church_tax_rate),
            base_ok(taxable),
            base_ok(foreign_tax_credit),
        ensures
            r == spec_compute_taxes(self.church_tax_rate, taxable, foreign_tax_credit),
            r.abgeltungssteuer.units() >= 0,
            taxable.units() > 0 && taxable.exp() <= 10 && foreign_tax_credit.exp() <= 10
                && self.church_tax_rate.exp() <= 10 && representable_quotient(
                taxable.units() - 4 * foreign_tax_credit.units(),
                4 * unit() + self.church_tax_rate.units(),
            ) ==> r.abgeltungssteuer.units() == exact_abgeltungsteuer(
                taxable.units(),
                foreign_tax_credit.units(),
                self.church_tax_rate.units(),
            ),
            representable(r.abgeltungssteuer.mant() * 55, (r.abgeltungssteuer.exp() + 3) as int)
                ==> r.solidaritaetszuschlag.units() * 1000 == r.abgeltungssteuer.units() * 55,
            representable(
                r.abgeltungssteuer.mant() * self.church_tax_rate.mant(),
                (r.abgeltungssteuer.exp() + self.church_tax_rate.exp()) as int,
            ) ==> r.kirchensteuer.units() * unit() == r.abgeltungssteuer.units()
                * self.church_tax_rate.units(),
            is_small(r.abgeltungssteuer) && is_small(r.solidaritaetszuschlag) && is_small(
                r.kirchensteuer,
            ) && -small_bound() <= r.abgeltungssteuer.units() + r.solidaritaetszuschlag.units()
                <= small_bound() && -small_bound() <= r.abgeltungssteuer.units()
                + r.solidaritaetszuschlag.units() + r.kirchensteuer.units() <= small_bound()
                ==> r.total.units() == r.abgeltungssteuer.units() + r.solidaritaetszuschlag.units()
                + r.kirchensteuer.units(),
    {
        let zero = Decimal::zero();
        if taxable.le(&zero) {
            return AbgeltungsteuerBreakdown {
                abgeltungssteuer: zero,
                solidaritaetszuschlag: zero,
                kirchensteuer: zero,
                total: zero,
            };
        }
        let four = Decimal::new(4, 0);
        let k = self.church_tax_rate;
        proof {
            reveal_with_fuel(crate::decimal::pow10, 29);
            lemma_tax_bounds(taxable.units(), foreign_tax_credit.units(), k.units());
        }
        let credit = foreign_tax_credit.mul(&four);
        proof {
            lemma_base_bounds(taxable.units(), foreign_tax_credit.units(), credit.units());
            if taxable.exp() <= 10 && foreign_tax_credit.exp() <= 10 {
                crate::decimal::lemma_small_mantissa(foreign_tax_credit);
                lemma_credit_exact(foreign_tax_credit.units(), credit.units());
                crate::decimal::lemma_difference_representable(taxable, credit);
            }
        }
        let base = taxable.sub(&credit);
        let divisor = four.add(&k);
        proof {
            lemma_quotient_bound(base.units(), divisor.units(), 0);
        }
        let quotient = base.div(&divisor);
        proof {
            lemma_quotient_bound(base.units(), divisor.units(), quotient.units());
            if representable_quotient(base.units(), divisor.units()) {
                lemma_exact_quotient(base.units(), divisor.units(), quotient.units());
            }
        }
        let est = quotient.max(&zero);
        let soli_rate = Decimal::new(55, 3);
        proof {
            reveal_with_fuel(crate::decimal::pow10, 29);
            assert(soli_rate.units() == 55 * (unit() / 1000));
            lemma_surcharge_ranges(est.units(), k.units());
        }
        let soli = est.mul(&soli_rate);
        proof {
            if representable(est.mant() * 55, (est.exp() + 3) as int) {
                lemma_soli_exact(est.units(), soli.units());
            }
        }
        let kist = est.mul(&k);
        proof {
            lemma_surcharge_bounds(est.units(), soli.units(), kist.units(), k.units());
        }
        let partial = est.add(&soli);
        let total = partial.add(&kist);
        AbgeltungsteuerBreakdown {
            abgeltungssteuer: est,
            solidaritaetszuschlag: soli,
            kirchensteuer: kist,
            total,
        }
    }
}

/// `(e - 4q) / (4 + k)` in units, never below zero: the Abgeltungsteuer where the quotient is
/// exact.
pub open spec fn exact_abgeltungsteuer(e: int, q: int, k: int) -> int {
    if e - 4 * q > 0 {
        (e - 4 * q) * unit() / (4 * unit() + k)
    } else {
        0
    }
}

proof fn lemma_credit_exact(q: int, c: int)
    requires
        c * unit() == q * (4 * unit()),
    ensures
        c == 4 * q,
{
    let u = unit();
    assert(c == 4 * q) by (nonlinear_arith)
        requires
            c * u == q * (4 * u),
            u > 0,
    ;
}

proof fn lemma_exact_quotient(b: int, d: int, r: int)
    requires
        d > 0,
        r * d == b * unit(),
    ensures
        r == b * unit() / d,
        b > 0 ==> r > 0,
        b <= 0 ==> r <= 0,
{
    let u = unit();
    assert(r == (r * d) / d) by (nonlinear_arith)
        requires
            d > 0,
    ;
    assert(b > 0 ==> r > 0) by (nonlinear_arith)
        requires
            d > 0,
            u > 0,
            r * d == b * u,
    ;
    assert(b <= 0 ==> r <= 0) by (nonlinear_arith)
        requires
            d > 0,
            u > 0,
            r * d == b * u,
    ;
}

proof fn lemma_soli_exact(e: int, s: int)
    requires
        s * unit() == e * (55 * (unit() / 1000)),
    ensures
        s * 1000 == e * 55,
{
    let u = unit();
    let v = u / 1000;
    assert(u == 1000 * v);
    assert(s * 1000 == e * 55) by (nonlinear_arith)
        requires
            s * u == e * (55 * v),
            u == 1000 * v,
            v > 0,
    ;
}

proof fn lemma_tax_bounds(t: int, q: int, k: int)
    requires
        -(1_000_000_000_000_000_000 * unit()) <= q <= 1_000_000_000_000_000_000 * unit(),
    ensures
        in_range(q * (4 * unit()) / unit()),
{
    let u = unit();
    assert(q * (4 * u) / u == 4 * q) by (nonlinear_arith)
        requires
            u > 0,
    ;
}

proof fn lemma_base_bounds(t: int, q: int, c: int)
    requires
        -(1_000_000_000_000_000_000 * unit()) <= t <= 1_000_000_000_000_000_000 * unit(),
        -(1_000_000_000_000_000_000 * unit()) <= q <= 1_000_000_000_000_000_000 * unit(),
        -(unit() * unit()) <= c * unit() - q * (4 * unit()) <= unit() * unit(),
    ensures
        in_range(t - c),
        -(6_000_000_000_000_000_000 * unit()) <= t - c <= 6_000_000_000_000_000_000 * unit(),
{
    let u = unit();
    assert(-(5_000_000_000_000_000_000 * u) <= c <= 5_000_000_000_000_000_000 * u) by (nonlinear_arith)
        requires
            -(u * u) <= c * u - q * (4 * u) <= u * u,
            -(1_000_000_000_000_000_000 * u) <= q <= 1_000_000_000_000_000_000 * u,
            u > 0,
    ;
}

proof fn lemma_quotient_bound(b: int, d: int, r: int)
    requires
        -(6_000_000_000_000_000_000 * unit()) <= b <= 6_000_000_000_000_000_000 * unit(),
        3 * unit() <= d <= 6 * unit(),
    ensures
        in_range(b * unit() / d),
        in_range(-b * unit() / d),
        -(abs_int(d) * unit()) <= r * d - b * unit() <= abs_int(d) * unit() ==> -(3_000_000_000_000_000_000
            * unit()) <= r <= 3_000_000_000_000_000_000 * unit(),
{
    let u = unit();
    assert(-(2_000_000_000_000_000_000 * u) <= b * u / d <= 2_000_000_000_000_000_000 * u) by (nonlinear_arith)
        requires
            -(6_000_000_000_000_000_000 * u) <= b <= 6_000_000_000_000_000_000 * u,
            3 * u <= d,
            u > 0,
    ;
    assert(-(2_000_000_000_000_000_000 * u) <= -b * u / d <= 2_000_000_000_000_000_000 * u) by (nonlinear_arith)
        requires
            -(6_000_000_000_000_000_000 * u) <= b <= 6_000_000_000_000_000_000 * u,
            3 * u <= d,
            u > 0,
    ;
    if -(abs_int(d) * u) <= r * d - b * u <= abs_int(d) * u {
        assert(-(3_000_000_000_000_000_000 * u) <= r <= 3_000_000_000_000_000_000 * u) by (nonlinear_arith)
            requires
                -(d * u) <= r * d - b * u <= d * u,
                -(6_000_000_000_000_000_000 * u) <= b <= 6_000_000_000_000_000_000 * u,
                3 * u <= d,
                u > 0,
        ;
    }
}

proof fn lemma_surcharge_ranges(e: int, k: int)
    requires
        0 <= e <= 3_000_000_000_000_000_000 * unit(),
        0 <= k <= unit(),
    ensures
        in_range(e * (55 * (unit() / 1000)) / unit()),
        in_range(e * k / unit()),
{
    let u = unit();
    assert(0 <= e * (55 * (u / 1000)) / u <= e) by (nonlinear_arith)
        requires
            0 <= e,
            u == 10_000_000_000_000_000_000_000_000_000,
    ;
    assert(0 <= e * k / u <= e) by (nonlinear_arith)
        requires
            0 <= e,
            0 <= k <= u,
            u > 0,
    ;
}

proof fn lemma_surcharge_bounds(e: int, s: int, c: int, k: int)
    requires
        0 <= e <= 3_000_000_000_000_000_000 * unit(),
        0 <= k <= unit(),
        -(unit() * unit()) <= s * unit() - e * (55 * (unit() / 1000)) <= unit() * unit(),
        -(unit() * unit()) <= c * unit() - e * k <= unit() * unit(),
    ensures
        in_range(e + s),
        -(7_000_000_000_000_000_000 * unit()) <= e + s <= 7_000_000_000_000_000_000 * unit(),
        -(4_000_000_000_000_000_000 * unit()) <= c <= 4_000_000_000_000_000_000 * unit(),
{
    let u = unit();
    assert(-(u) <= s <= 3_000_000_000_000_000_000 * u) by (nonlinear_arith)
        requires
            -(u * u) <= s * u - e * (55 * (u / 1000)) <= u * u,
            0 <= e <= 3_000_000_000_000_000_000 * u,
            u == 10_000_000_000_000_000_000_000_000_000,
    ;
    assert(-(u) <= c <= 3_000_000_000_000_000_001 * u) by (nonlinear_arith)
        requires
            -(u * u) <= c * u - e * k <= u * u,
            0 <= e <= 3_000_000_000_000_000_000 * u,
            0 <= k <= u,
            u > 0,
    ;
}

/// Offsetting a pot: a positive net result is reduced by the carried-in loss, a negative one adds
/// to it. Returns the taxable result, the carryforward used and the carryforward left.
pub open spec fn spec_loss_carryforward(net: Decimal, prior: Decimal) -> (Decimal, Decimal, Decimal) {
    if net.units() > 0 {
        let used = net.spec_min(prior);
        (net.spec_sub(used), used, prior.spec_sub(used))
    } else {
        (Decimal::spec_zero(), Decimal::spec_zero(), prior.spec_add(net.spec_neg()))
    }
}

/// A figure that `rust_decimal` adds and subtracts exactly in the totals of a year: at most ten
/// fractional digits and at most 10^17 in magnitude.
pub open spec fn exact_figure(d: Decimal) -> bool {
    d.exp() <= 10 && -(100_000_000_000_000_000 * unit()) <= d.units() <= 100_000_000_000_000_000 * unit()
}

pub open spec fn max0(x: int) -> int {
    if x > 0 {
        x
    } else {
        0
    }
}

/// Offset a pot's net result against its prior-year loss carryforward (§20(6) EStG): returns the
/// taxable result, the carryforward used, and the carryforward to the next year. With exact
/// figures and a carryforward that is not negative, the taxable result is what the net result
/// exceeds the carryforward by, and the carryforward left is what it exceeds the net result by.
pub fn calculate_with_loss_carryforward(net: Decimal, prior: Decimal) -> (r: (Decimal, Decimal, Decimal))
    requires
        base_ok(net),
        base_ok(prior),
    ensures
        r == spec_loss_carryforward(net, prior),
        exact_figure(net) && exact_figure(prior) && prior.units() >= 0 ==> {
            &&& r.0.units() == max0(net.units() - prior.units())
            &&& r.2.units() == max0(prior.units() - net.units())
            &&& r.0.exp() <= 10 && r.2.exp() <= 10
        },
        abs_int(r.0.units()) <= abs_int(net.units()) + abs_int(prior.units()) + unit(),
        abs_int(r.1.units()) <= abs_int(net.units()) + abs_int(prior.units()),
        abs_int(r.2.units()) <= abs_int(net.units()) + abs_int(prior.units()) + unit(),
{
    let zero = Decimal::zero();
    if zero.lt(&net) {
        let used = net.min(&prior);
        (net.sub(&used), used, prior.sub(&used))
    } else {
        let loss = net.neg();
        (zero, zero, prior.add(&loss))
    }
}

} // verus!
