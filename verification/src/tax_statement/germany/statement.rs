//! The German tax statement of one year: its entries, and the totals that the year's return needs.
//!
//! The totals follow §20(6) EStG: share-sale results form a pot of their own, everything else
//! (fund units, FX, dividends, interest) the general pot; each pot is offset against its prior-year
//! loss carryforward, the Sparer-Pauschbetrag reduces the combined positive result, and the tax is
//! computed once on that base. Fees, grants and the Vorabpauschale are reported but never reach it.
use vstd::prelude::*;

use super::report_details::ReportDetails;

use crate::date::Date;
use crate::decimal::{
    abs_int, is_small, limit, quantity_bound, representable, representable_quotient, small_bound, unit, Decimal,
};
use crate::taxes::germany::{
    base_ok, calculate_with_loss_carryforward, church_rate_ok, exact_abgeltungsteuer, exact_figure, max0, spec_compute_taxes,
    spec_loss_carryforward, GermanTaxRates, TeilfreistellungRate,
};

verus! {

/// Entry for a capital gain/loss transaction.
#[derive(Debug, Clone)]
pub struct CapitalGainEntry {
    pub transaction_date: Date,
    pub settle_date: Date,
    pub symbol: String,
    pub isin: String,
    pub description: String,
    pub quantity: Decimal,
    pub cost_basis_eur: Decimal,
    pub proceeds_eur: Decimal,
    pub gross_gain_loss: Decimal,
    /// Gain/loss after the §19 InvStG Vorabpauschale reduction and the Altbestand exclusion, but
    /// before Teilfreistellung: the figure of Anlage KAP-INV.
    pub taxable_before_exemption: Decimal,
    pub teilfreistellung_rate: TeilfreistellungRate,
    /// Direct shares (Aktien): the §20(6) stock pot. Fund units use the general pot.
    pub is_stock: bool,
    pub taxable_amount: Decimal,
    pub foreign_tax: Decimal,
    pub abgeltungssteuer: Decimal,
    pub solidaritaetszuschlag: Decimal,
    pub kirchensteuer: Decimal,
    pub total_tax: Decimal,
    pub pre_2009_holding: bool,
    pub notes: Option<String>,
}

/// Entry for dividend income.
#[derive(Debug, Clone)]
pub struct DividendEntry {
    pub payment_date: Date,
    pub symbol: String,
    pub isin: String,
    pub description: String,
    pub quantity: Decimal,
    pub gross_amount_eur: Decimal,
    pub foreign_withholding_tax: Decimal,
    pub teilfreistellung_rate: TeilfreistellungRate,
    pub taxable_amount: Decimal,
    pub abgeltungssteuer: Decimal,
    pub solidaritaetszuschlag: Decimal,
    pub kirchensteuer: Decimal,
    pub foreign_tax_credit: Decimal,
    pub total_tax: Decimal,
    pub net_tax: Decimal,
    pub notes: Option<String>,
}

/// Entry for interest income.
#[derive(Debug, Clone)]
pub struct InterestEntry {
    pub payment_date: Date,
    pub description: String,
    pub gross_amount_eur: Decimal,
    pub foreign_withholding_tax: Decimal,
    pub taxable_amount: Decimal,
    pub abgeltungssteuer: Decimal,
    pub solidaritaetszuschlag: Decimal,
    pub kirchensteuer: Decimal,
    pub foreign_tax_credit: Decimal,
    pub total_tax: Decimal,
    pub net_tax: Decimal,
    pub notes: Option<String>,
}

/// Entry for an FX gain/loss on an interest-bearing currency account (§20 EStG).
#[derive(Debug, Clone)]
pub struct FxGainEntry {
    pub transaction_date: Date,
    /// E.g. "EUR.USD".
    pub currency_pair: String,
    pub description: String,
    /// Positive = gain, negative = loss.
    pub gross_amount_eur: Decimal,
    pub taxable_amount: Decimal,
    pub abgeltungssteuer: Decimal,
    pub solidaritaetszuschlag: Decimal,
    pub kirchensteuer: Decimal,
    pub total_tax: Decimal,
    pub notes: Option<String>,
}

/// Entry for a standalone broker fee (positive = paid, negative = refunded). Reported only.
#[derive(Debug, Clone)]
pub struct FeeEntry {
    pub date: Date,
    pub description: String,
    pub amount_eur: Decimal,
    pub notes: Option<String>,
}

/// Entry for a stock grant: employment income at the fair market value of the vest date.
#[derive(Debug, Clone)]
pub struct StockGrantEntry {
    pub vest_date: Date,
    pub symbol: String,
    pub isin: String,
    pub quantity: Decimal,
    pub fmv_per_share_eur: Decimal,
    /// Total employment income = quantity × FMV.
    pub total_fmv_eur: Decimal,
    pub notes: Option<String>,
}

/// Entry for a cash grant (broker bonus): other income under §22 EStG.
#[derive(Debug, Clone)]
pub struct CashGrantEntry {
    pub date: Date,
    pub description: String,
    pub amount_eur: Decimal,
    pub notes: Option<String>,
}

/// Entry for a corporate action with tax implications.
#[derive(Debug, Clone)]
pub struct CorporateActionEntry {
    pub date: Date,
    pub action_type: CorporateActionType,
    pub symbol: String,
    pub description: String,
    /// Capital gain/loss, where the action has one.
    pub tax_impact_eur: Option<Decimal>,
    pub notes: Option<String>,
}

/// Types of corporate actions for tax purposes.
#[derive(Debug, Clone, PartialEq)]
pub enum CorporateActionType {
    Spinoff,
    Liquidation,
    Merger,
    Delisting,
    Other(String),
}

/// The label of a corporate action type (`Other: <kind>` for the others).
pub open spec fn action_label(t: CorporateActionType) -> Seq<char> {
    match t {
        CorporateActionType::Spinoff => "Spinoff"@,
        CorporateActionType::Liquidation => "Liquidation"@,
        CorporateActionType::Merger => "Merger"@,
        CorporateActionType::Delisting => "Delisting"@,
        CorporateActionType::Other(s) => "Other: "@ + s@,
    }
}

impl CorporateActionType {
    /// The label of the action type.
    pub fn label(&self) -> (r: String)
        ensures
            r@ == action_label(*self),
    {
        match self {
            CorporateActionType::Spinoff => <String as StringExecFns>::from_str("Spinoff"),
            CorporateActionType::Liquidation => <String as StringExecFns>::from_str("Liquidation"),
            CorporateActionType::Merger => <String as StringExecFns>::from_str("Merger"),
            CorporateActionType::Delisting => <String as StringExecFns>::from_str("Delisting"),
            CorporateActionType::Other(s) => {
                let mut r = <String as StringExecFns>::from_str("Other: ");
                r.append(s.as_str());
                r
            },
        }
    }
}

/// Entry for a fund's Vorabpauschale (§18 InvStG), deemed received on the first business day of
/// the year after `arising_year` and therefore income of that year.
#[derive(Debug, Clone)]
pub struct VorabpauschaleEntry {
    pub arising_year: i32,
    pub deemed_received: Date,
    pub symbol: String,
    pub isin: String,
    pub quantity: Decimal,
    pub nav_jan1: Decimal,
    pub nav_dec31: Decimal,
    pub distributions: Decimal,
    pub basiszins: Decimal,
    pub teilfreistellung_rate: TeilfreistellungRate,
    /// Gross Vorabpauschale (pre-Teilfreistellung), the figure that reduces a later sale gain.
    pub gross_vorabpauschale: Decimal,
    /// Taxable amount after Teilfreistellung.
    pub taxable_amount: Decimal,
    pub abgeltungssteuer: Decimal,
    pub solidaritaetszuschlag: Decimal,
    pub kirchensteuer: Decimal,
    pub total_tax: Decimal,
    /// Accumulated gross Vorabpauschale to carry into next year's configuration.
    pub accumulated_after: Decimal,
    pub notes: Option<String>,
}

/// Gross (pre-Teilfreistellung) Anlage KAP-INV figures for one fund-type group.
#[derive(Debug, Clone, Copy)]
pub struct KapInvGroup {
    /// Gross fund distributions received.
    pub distributions: Decimal,
    /// Gross gains from fund-unit sales.
    pub sale_gains: Decimal,
    /// Gross losses from fund-unit sales (positive magnitude).
    pub sale_losses: Decimal,
}

impl KapInvGroup {
    pub open spec fn spec_empty() -> KapInvGroup {
        KapInvGroup {
            distributions: Decimal::spec_zero(),
            sale_gains: Decimal::spec_zero(),
            sale_losses: Decimal::spec_zero(),
        }
    }
}

impl Default for KapInvGroup {
    fn default() -> (r: KapInvGroup)
        ensures
            r == KapInvGroup::spec_empty(),
    {
        KapInvGroup {
            distributions: Decimal::zero(),
            sale_gains: Decimal::zero(),
            sale_losses: Decimal::zero(),
        }
    }
}

/// §23 EStG (private Veräußerungsgeschäfte) foreign-currency results, reported for a manual
/// Anlage SO declaration; no tax is computed for them.
#[derive(Debug, Clone, Copy)]
pub struct Section23 {
    /// Gains on currency held at most one year.
    pub short_term_gains: Decimal,
    /// Losses on currency held at most one year (positive magnitude).
    pub short_term_losses: Decimal,
    /// Gains on currency held more than one year: tax-free.
    pub long_term_tax_free: Decimal,
    /// Borrowed-currency results under §23, flagged for manual review.
    pub borrowed_review: Decimal,
}

impl Section23 {
    pub open spec fn spec_empty() -> Section23 {
        Section23 {
            short_term_gains: Decimal::spec_zero(),
            short_term_losses: Decimal::spec_zero(),
            long_term_tax_free: Decimal::spec_zero(),
            borrowed_review: Decimal::spec_zero(),
        }
    }

    /// Net short-term result: gains minus losses.
    pub fn short_term_net(&self) -> (r: Decimal)
        requires
            crate::decimal::in_range(self.short_term_gains.units() - self.short_term_losses.units()),
        ensures
            r == self.short_term_gains.spec_sub(self.short_term_losses),
            -unit() <= r.units() - (self.short_term_gains.units() - self.short_term_losses.units())
                <= unit(),
    {
        self.short_term_gains.sub(&self.short_term_losses)
    }

    /// Whether there is anything to report: every figure is zero.
    pub fn is_empty(&self) -> (r: bool)
        ensures
            r == (self.short_term_gains.units() == 0 && self.short_term_losses.units() == 0
                && self.long_term_tax_free.units() == 0 && self.borrowed_review.units() == 0),
    {
        self.short_term_gains.is_zero() && self.short_term_losses.is_zero()
            && self.long_term_tax_free.is_zero() && self.borrowed_review.is_zero()
    }

    /// The §23 Freigrenze of `year`: €600 through 2023, €1000 from 2024.
    pub fn freigrenze(year: i32) -> (r: Decimal)
        ensures
            r == Decimal::spec_new(if year >= 2024 { 1000int } else { 600int }, 0),
            r.units() == (if year >= 2024 { 1000int } else { 600int }) * unit(),
    {
        proof {
            crate::decimal::lemma_pow10_28();
        }
        if year >= 2024 {
            Decimal::new(1000, 0)
        } else {
            Decimal::new(600, 0)
        }
    }
}

impl Default for Section23 {
    fn default() -> (r: Section23)
        ensures
            r == Section23::spec_empty(),
    {
        Section23 {
            short_term_gains: Decimal::zero(),
            short_term_losses: Decimal::zero(),
            long_term_tax_free: Decimal::zero(),
            borrowed_review: Decimal::zero(),
        }
    }
}

/// Complete German tax statement for a single tax year.
#[derive(Debug)]
pub struct GermanTaxStatement {
    pub year: i32,
    pub tax_rates: GermanTaxRates,
    pub capital_gains: Vec<CapitalGainEntry>,
    pub dividends: Vec<DividendEntry>,
    pub interest: Vec<InterestEntry>,
    pub fx_gains: Vec<FxGainEntry>,
    pub fees: Vec<FeeEntry>,
    pub stock_grants: Vec<StockGrantEntry>,
    pub cash_grants: Vec<CashGrantEntry>,
    pub corporate_actions: Vec<CorporateActionEntry>,
    pub vorabpauschale: Vec<VorabpauschaleEntry>,
    /// Year-end fund holdings whose NAVs are not configured (ISIN, or symbol without one).
    pub vorabpauschale_missing_nav: Vec<String>,
    /// Short positions at the statement's end, `(symbol, negative quantity)`, for manual review.
    pub short_positions: Vec<(String, Decimal)>,
    /// Loss carryforwards (§20(6) EStG) brought in, and left for the next year, per pot.
    pub loss_carryforward_stock_prior: Decimal,
    pub loss_carryforward_other_prior: Decimal,
    pub loss_carryforward_stock_next: Decimal,
    pub loss_carryforward_other_next: Decimal,
    /// Saver's allowance of the year, and the part of it that the year's income used.
    pub sparer_pauschbetrag: Decimal,
    pub sparer_pauschbetrag_used: Decimal,
    pub total_capital_gains: Decimal,
    pub total_capital_losses: Decimal,
    pub total_dividend_income: Decimal,
    pub total_interest_income: Decimal,
    pub total_fx_gains: Decimal,
    pub total_fx_losses: Decimal,
    pub total_fees: Decimal,
    /// Employment income, not Abgeltungsteuer.
    pub total_stock_grant_income: Decimal,
    /// Other income, not Abgeltungsteuer.
    pub total_cash_grant_income: Decimal,
    /// Vorabpauschale of funds held at year end: next year's income, outside this year's base.
    pub total_vorabpauschale_gross: Decimal,
    pub total_vorabpauschale_taxable: Decimal,
    pub total_vorabpauschale_tax: Decimal,
    pub total_taxable_income: Decimal,
    pub total_foreign_tax: Decimal,
    pub total_abgeltungssteuer: Decimal,
    pub total_solidaritaetszuschlag: Decimal,
    pub total_kirchensteuer: Decimal,
    pub total_german_tax: Decimal,
    pub total_foreign_tax_credit: Decimal,
    pub net_tax_due: Decimal,
    /// FX results of margin loan repayments: not taxable.
    pub non_taxable_margin_fx: Decimal,
    /// Anlage KAP Zeile 19: net foreign capital income (non-fund entries).
    pub kap_zeile_19: Decimal,
    /// Anlage KAP Zeile 20: share-sale gains contained in Zeile 19.
    pub kap_zeile_20: Decimal,
    /// Anlage KAP Zeile 22: contained losses other than share-sale losses.
    pub kap_zeile_22: Decimal,
    /// Anlage KAP Zeile 23: contained share-sale losses.
    pub kap_zeile_23: Decimal,
    /// Anlage KAP Zeile 41: creditable foreign tax.
    pub kap_zeile_41: Decimal,
    /// Anlage KAP-INV figures by fund type, gross.
    pub kap_inv_equity: KapInvGroup,
    pub kap_inv_mixed: KapInvGroup,
    pub kap_inv_other: KapInvGroup,
    /// §23 EStG results of a non-interest-bearing currency account (Anlage SO).
    pub section23: Section23,
    /// Broker-level detail for the printable report.
    pub report: ReportDetails,
}

/// A statement as `new` makes it: no entries, every total zero.
pub open spec fn is_fresh(st: GermanTaxStatement) -> bool {
    let z = Decimal::spec_zero();
    &&& st.capital_gains@.len() == 0 && st.dividends@.len() == 0 && st.interest@.len() == 0
    &&& st.fx_gains@.len() == 0 && st.fees@.len() == 0 && st.stock_grants@.len() == 0
    &&& st.cash_grants@.len() == 0 && st.corporate_actions@.len() == 0
    &&& st.vorabpauschale@.len() == 0 && st.vorabpauschale_missing_nav@.len() == 0
    &&& st.short_positions@.len() == 0
    &&& st.loss_carryforward_stock_next == z && st.loss_carryforward_other_next == z
    &&& st.sparer_pauschbetrag_used == z
    &&& st.total_capital_gains == z && st.total_capital_losses == z
    &&& st.total_dividend_income == z && st.total_interest_income == z
    &&& st.total_fx_gains == z && st.total_fx_losses == z && st.total_fees == z
    &&& st.total_stock_grant_income == z && st.total_cash_grant_income == z
    &&& st.total_vorabpauschale_gross == z && st.total_vorabpauschale_taxable == z
    &&& st.total_vorabpauschale_tax == z
    &&& st.total_taxable_income == z && st.total_foreign_tax == z
    &&& st.total_abgeltungssteuer == z && st.total_solidaritaetszuschlag == z
    &&& st.total_kirchensteuer == z && st.total_german_tax == z
    &&& st.total_foreign_tax_credit == z && st.net_tax_due == z
    &&& st.non_taxable_margin_fx == z
    &&& st.kap_zeile_19 == z && st.kap_zeile_20 == z && st.kap_zeile_22 == z
    &&& st.kap_zeile_23 == z && st.kap_zeile_41 == z
    &&& st.kap_inv_equity == KapInvGroup::spec_empty()
    &&& st.kap_inv_mixed == KapInvGroup::spec_empty()
    &&& st.kap_inv_other == KapInvGroup::spec_empty()
    &&& st.section23 == Section23::spec_empty()
}


/// An entry amount the totals take: at most a trillion euros in magnitude.
pub open spec fn amount_ok(d: Decimal) -> bool {
    -quantity_bound() <= d.units() <= quantity_bound()
}

/// A running total after at most `k` steps.
pub open spec fn within(d: Decimal, k: int) -> bool {
    -(k * 10_000_000_000_010_000_000_000_000_000_000_000_000_000int) <= d.units() <= k
        * 10_000_000_000_010_000_000_000_000_000_000_000_000_000int
}


/// The running totals of capital income: the two §20(6) pots, the reported totals, and the
/// Anlage KAP and KAP-INV figures.
#[derive(Debug, Clone, Copy)]
pub struct PotTotals {
    pub foreign_tax: Decimal,
    pub foreign_tax_credit: Decimal,
    pub stock_gains: Decimal,
    pub stock_losses: Decimal,
    pub general_gains: Decimal,
    pub general_losses: Decimal,
    pub capital_gains: Decimal,
    pub capital_losses: Decimal,
    pub dividend_income: Decimal,
    pub interest_income: Decimal,
    pub fx_gains: Decimal,
    pub fx_losses: Decimal,
    pub kap_positive: Decimal,
    pub zeile_20: Decimal,
    pub zeile_22: Decimal,
    pub zeile_23: Decimal,
    pub equity: KapInvGroup,
    pub mixed: KapInvGroup,
    pub other: KapInvGroup,
}

/// The running totals that are reported but never reach the capital-income base.
#[derive(Debug, Clone, Copy)]
pub struct InfoTotals {
    pub fees: Decimal,
    pub stock_grant_income: Decimal,
    pub cash_grant_income: Decimal,
    pub vorabpauschale_gross: Decimal,
    pub vorabpauschale_taxable: Decimal,
    pub vorabpauschale_tax: Decimal,
}

pub open spec fn zero_pots() -> PotTotals {
    let z = Decimal::spec_zero();
    PotTotals {
        foreign_tax: z,
        foreign_tax_credit: z,
        stock_gains: z,
        stock_losses: z,
        general_gains: z,
        general_losses: z,
        capital_gains: z,
        capital_losses: z,
        dividend_income: z,
        interest_income: z,
        fx_gains: z,
        fx_losses: z,
        kap_positive: z,
        zeile_20: z,
        zeile_22: z,
        zeile_23: z,
        equity: KapInvGroup::spec_empty(),
        mixed: KapInvGroup::spec_empty(),
        other: KapInvGroup::spec_empty(),
    }
}

pub open spec fn zero_info() -> InfoTotals {
    let z = Decimal::spec_zero();
    InfoTotals {
        fees: z,
        stock_grant_income: z,
        cash_grant_income: z,
        vorabpauschale_gross: z,
        vorabpauschale_taxable: z,
        vorabpauschale_tax: z,
    }
}



/// A fund-unit sale: its gross result goes to the gains or, as a magnitude, to the losses.
pub open spec fn add_sale(g: KapInvGroup, amount: Decimal) -> KapInvGroup {
    if amount.units() >= 0 {
        KapInvGroup { sale_gains: g.sale_gains.spec_add(amount), ..g }
    } else {
        KapInvGroup { sale_losses: g.sale_losses.spec_add(amount.spec_neg()), ..g }
    }
}

pub open spec fn add_distribution(g: KapInvGroup, amount: Decimal) -> KapInvGroup {
    KapInvGroup { distributions: g.distributions.spec_add(amount), ..g }
}

/// A capital gain entry: its taxable amount goes, by its sign, to the gains or the losses of the
/// stock pot (shares) or of the general pot; a non-fund entry feeds Anlage KAP, a fund entry the
/// KAP-INV group of its fund type with the gross before Teilfreistellung.
pub open spec fn capital_gain_step(t: PotTotals, e: CapitalGainEntry) -> PotTotals {
    let a = e.taxable_amount;
    let t = PotTotals { foreign_tax: t.foreign_tax.spec_add(e.foreign_tax), ..t };
    let t = if a.units() >= 0 {
        if e.is_stock {
            PotTotals {
                stock_gains: t.stock_gains.spec_add(a),
                capital_gains: t.capital_gains.spec_add(a),
                ..t
            }
        } else {
            PotTotals {
                general_gains: t.general_gains.spec_add(a),
                capital_gains: t.capital_gains.spec_add(a),
                ..t
            }
        }
    } else {
        if e.is_stock {
            PotTotals {
                stock_losses: t.stock_losses.spec_add(a.spec_neg()),
                capital_losses: t.capital_losses.spec_add(a.spec_neg()),
                ..t
            }
        } else {
            PotTotals {
                general_losses: t.general_losses.spec_add(a.spec_neg()),
                capital_losses: t.capital_losses.spec_add(a.spec_neg()),
                ..t
            }
        }
    };
    match e.teilfreistellung_rate {
        TeilfreistellungRate::NotFund => if a.units() > 0 {
            PotTotals {
                zeile_20: t.zeile_20.spec_add(a),
                kap_positive: t.kap_positive.spec_add(a),
                ..t
            }
        } else if a.units() < 0 {
            PotTotals { zeile_23: t.zeile_23.spec_add(a.spec_neg()), ..t }
        } else {
            t
        },
        TeilfreistellungRate::Equity => PotTotals {
            equity: add_sale(t.equity, e.taxable_before_exemption),
            ..t
        },
        TeilfreistellungRate::Mixed => PotTotals {
            mixed: add_sale(t.mixed, e.taxable_before_exemption),
            ..t
        },
        TeilfreistellungRate::Bond => PotTotals {
            other: add_sale(t.other, e.taxable_before_exemption),
            ..t
        },
    }
}

/// A dividend: taxable amount to the dividend income and the general pot, withholding and credit
/// to their totals, the gross to Anlage KAP (non-fund) or to its KAP-INV group's distributions.
pub open spec fn dividend_step(t: PotTotals, e: DividendEntry) -> PotTotals {
    let t = PotTotals {
        dividend_income: t.dividend_income.spec_add(e.taxable_amount),
        foreign_tax: t.foreign_tax.spec_add(e.foreign_withholding_tax),
        foreign_tax_credit: t.foreign_tax_credit.spec_add(e.foreign_tax_credit),
        general_gains: t.general_gains.spec_add(e.taxable_amount),
        ..t
    };
    match e.teilfreistellung_rate {
        TeilfreistellungRate::NotFund => PotTotals {
            kap_positive: t.kap_positive.spec_add(e.gross_amount_eur),
            ..t
        },
        TeilfreistellungRate::Equity => PotTotals {
            equity: add_distribution(t.equity, e.gross_amount_eur),
            ..t
        },
        TeilfreistellungRate::Mixed => PotTotals {
            mixed: add_distribution(t.mixed, e.gross_amount_eur),
            ..t
        },
        TeilfreistellungRate::Bond => PotTotals {
            other: add_distribution(t.other, e.gross_amount_eur),
            ..t
        },
    }
}

/// Interest: taxable amount to the interest income and the general pot, the gross to Anlage KAP.
pub open spec fn interest_step(t: PotTotals, e: InterestEntry) -> PotTotals {
    PotTotals {
        interest_income: t.interest_income.spec_add(e.taxable_amount),
        foreign_tax: t.foreign_tax.spec_add(e.foreign_withholding_tax),
        foreign_tax_credit: t.foreign_tax_credit.spec_add(e.foreign_tax_credit),
        general_gains: t.general_gains.spec_add(e.taxable_amount),
        kap_positive: t.kap_positive.spec_add(e.gross_amount_eur),
        ..t
    }
}

/// An FX result (§20 Abs. 2 Nr. 7 EStG) joins the general pot as a gain or, by the sign of its
/// gross, as a loss of the magnitude of its taxable amount; on Anlage KAP a negative taxable
/// amount is a Zeile 22 loss.
pub open spec fn fx_step(t: PotTotals, e: FxGainEntry) -> PotTotals {
    let a = e.taxable_amount;
    let t = if e.gross_amount_eur.units() >= 0 {
        PotTotals {
            fx_gains: t.fx_gains.spec_add(a),
            general_gains: t.general_gains.spec_add(a),
            ..t
        }
    } else {
        PotTotals {
            fx_losses: t.fx_losses.spec_add(a.spec_abs()),
            general_losses: t.general_losses.spec_add(a.spec_abs()),
            ..t
        }
    };
    if a.units() >= 0 {
        PotTotals { kap_positive: t.kap_positive.spec_add(a), ..t }
    } else {
        PotTotals { zeile_22: t.zeile_22.spec_add(a.spec_neg()), ..t }
    }
}

pub open spec fn capital_gains_fold(t: PotTotals, s: Seq<CapitalGainEntry>) -> PotTotals
    decreases s.len(),
{
    if s.len() == 0 {
        t
    } else {
        capital_gain_step(capital_gains_fold(t, s.drop_last()), s.last())
    }
}

pub open spec fn dividends_fold(t: PotTotals, s: Seq<DividendEntry>) -> PotTotals
    decreases s.len(),
{
    if s.len() == 0 {
        t
    } else {
        dividend_step(dividends_fold(t, s.drop_last()), s.last())
    }
}

pub open spec fn interest_fold(t: PotTotals, s: Seq<InterestEntry>) -> PotTotals
    decreases s.len(),
{
    if s.len() == 0 {
        t
    } else {
        interest_step(interest_fold(t, s.drop_last()), s.last())
    }
}

pub open spec fn fx_fold(t: PotTotals, s: Seq<FxGainEntry>) -> PotTotals
    decreases s.len(),
{
    if s.len() == 0 {
        t
    } else {
        fx_step(fx_fold(t, s.drop_last()), s.last())
    }
}

/// The capital-income totals of a year: capital gains, dividends, interest and FX, in this order,
/// each in the order of its entries.
pub open spec fn pot_totals(
    cg: Seq<CapitalGainEntry>,
    div: Seq<DividendEntry>,
    ints: Seq<InterestEntry>,
    fx: Seq<FxGainEntry>,
) -> PotTotals {
    fx_fold(interest_fold(dividends_fold(capital_gains_fold(zero_pots(), cg), div), ints), fx)
}

pub open spec fn fees_fold(t: InfoTotals, s: Seq<FeeEntry>) -> InfoTotals
    decreases s.len(),
{
    if s.len() == 0 {
        t
    } else {
        let t = fees_fold(t, s.drop_last());
        InfoTotals { fees: t.fees.spec_add(s.last().amount_eur), ..t }
    }
}

pub open spec fn stock_grants_fold(t: InfoTotals, s: Seq<StockGrantEntry>) -> InfoTotals
    decreases s.len(),
{
    if s.len() == 0 {
        t
    } else {
        let t = stock_grants_fold(t, s.drop_last());
        InfoTotals { stock_grant_income: t.stock_grant_income.spec_add(s.last().total_fmv_eur), ..t }
    }
}

pub open spec fn cash_grants_fold(t: InfoTotals, s: Seq<CashGrantEntry>) -> InfoTotals
    decreases s.len(),
{
    if s.len() == 0 {
        t
    } else {
        let t = cash_grants_fold(t, s.drop_last());
        InfoTotals { cash_grant_income: t.cash_grant_income.spec_add(s.last().amount_eur), ..t }
    }
}

pub open spec fn vorabpauschale_fold(t: InfoTotals, s: Seq<VorabpauschaleEntry>) -> InfoTotals
    decreases s.len(),
{
    if s.len() == 0 {
        t
    } else {
        let t = vorabpauschale_fold(t, s.drop_last());
        let e = s.last();
        InfoTotals {
            vorabpauschale_gross: t.vorabpauschale_gross.spec_add(e.gross_vorabpauschale),
            vorabpauschale_taxable: t.vorabpauschale_taxable.spec_add(e.taxable_amount),
            vorabpauschale_tax: t.vorabpauschale_tax.spec_add(e.total_tax),
            ..t
        }
    }
}

/// The reported totals outside the capital-income base: fees, grants, Vorabpauschale.
pub open spec fn info_totals(
    fees: Seq<FeeEntry>,
    grants: Seq<StockGrantEntry>,
    cash: Seq<CashGrantEntry>,
    vap: Seq<VorabpauschaleEntry>,
) -> InfoTotals {
    vorabpauschale_fold(cash_grants_fold(stock_grants_fold(fees_fold(zero_info(), fees), grants), cash), vap)
}

/// A figure within a quarter of the representable range: two of them add, and three of them
/// add or subtract, without overflow.
pub open spec fn fits(d: Decimal) -> bool {
    -(limit() / 4) < d.units() < limit() / 4
}

pub open spec fn group_fit(g: KapInvGroup) -> bool {
    fits(g.distributions) && fits(g.sale_gains) && fits(g.sale_losses)
}

/// Every running total of capital income fits.
pub open spec fn pots_fit(t: PotTotals) -> bool {
    &&& fits(t.foreign_tax) && fits(t.foreign_tax_credit)
    &&& fits(t.stock_gains) && fits(t.stock_losses)
    &&& fits(t.general_gains) && fits(t.general_losses)
    &&& fits(t.capital_gains) && fits(t.capital_losses)
    &&& fits(t.dividend_income) && fits(t.interest_income)
    &&& fits(t.fx_gains) && fits(t.fx_losses)
    &&& fits(t.kap_positive) && fits(t.zeile_20)
    &&& fits(t.zeile_22) && fits(t.zeile_23)
    &&& group_fit(t.equity) && group_fit(t.mixed) && group_fit(t.other)
}

pub open spec fn info_fit(t: InfoTotals) -> bool {
    &&& fits(t.fees) && fits(t.stock_grant_income) && fits(t.cash_grant_income)
    &&& fits(t.vorabpauschale_gross) && fits(t.vorabpauschale_taxable) && fits(t.vorabpauschale_tax)
}

pub open spec fn capital_gain_fits(e: CapitalGainEntry) -> bool {
    fits(e.taxable_amount) && fits(e.foreign_tax) && fits(e.taxable_before_exemption)
}

pub open spec fn dividend_fits(e: DividendEntry) -> bool {
    &&& fits(e.taxable_amount) && fits(e.foreign_withholding_tax)
    &&& fits(e.foreign_tax_credit) && fits(e.gross_amount_eur)
}

pub open spec fn interest_fits(e: InterestEntry) -> bool {
    &&& fits(e.taxable_amount) && fits(e.foreign_withholding_tax)
    &&& fits(e.foreign_tax_credit) && fits(e.gross_amount_eur)
}

pub open spec fn vorabpauschale_fits(e: VorabpauschaleEntry) -> bool {
    fits(e.gross_vorabpauschale) && fits(e.taxable_amount) && fits(e.total_tax)
}

/// What the totals take: no entry and no running total leaves a quarter of the representable
/// range (so that no sum overflows `rust_decimal`), the pot results, the carryforwards, the taxable
/// income and the creditable foreign tax are within what the tax computation takes, and the church
/// tax rate is between 0 and 100%.
pub open spec fn totals_fit(st: GermanTaxStatement) -> bool {
    let cg = st.capital_gains@;
    let div = st.dividends@;
    let ints = st.interest@;
    let fx = st.fx_gains@;
    let p1 = capital_gains_fold(zero_pots(), cg);
    let p2 = dividends_fold(p1, div);
    let p3 = interest_fold(p2, ints);
    let p = fx_fold(p3, fx);
    let i1 = fees_fold(zero_info(), st.fees@);
    let i2 = stock_grants_fold(i1, st.stock_grants@);
    let i3 = cash_grants_fold(i2, st.cash_grants@);
    &&& forall|n: int| 0 <= n <= cg.len() ==> pots_fit(#[trigger] capital_gains_fold(zero_pots(), cg.take(n)))
    &&& forall|n: int| 0 <= n <= div.len() ==> pots_fit(#[trigger] dividends_fold(p1, div.take(n)))
    &&& forall|n: int| 0 <= n <= ints.len() ==> pots_fit(#[trigger] interest_fold(p2, ints.take(n)))
    &&& forall|n: int| 0 <= n <= fx.len() ==> pots_fit(#[trigger] fx_fold(p3, fx.take(n)))
    &&& forall|n: int| 0 <= n <= st.fees@.len() ==> info_fit(#[trigger] fees_fold(zero_info(), st.fees@.take(n)))
    &&& forall|n: int| 0 <= n <= st.stock_grants@.len() ==> info_fit(#[trigger] stock_grants_fold(i1, st.stock_grants@.take(n)))
    &&& forall|n: int| 0 <= n <= st.cash_grants@.len() ==> info_fit(#[trigger] cash_grants_fold(i2, st.cash_grants@.take(n)))
    &&& forall|n: int| 0 <= n <= st.vorabpauschale@.len() ==> info_fit(#[trigger] vorabpauschale_fold(i3, st.vorabpauschale@.take(n)))
    &&& forall|i: int| 0 <= i < cg.len() ==> capital_gain_fits(#[trigger] cg[i])
    &&& forall|i: int| 0 <= i < div.len() ==> dividend_fits(#[trigger] div[i])
    &&& forall|i: int| 0 <= i < ints.len() ==> interest_fits(#[trigger] ints[i])
    &&& forall|i: int| 0 <= i < fx.len() ==> fits(#[trigger] fx[i].taxable_amount)
    &&& forall|i: int| 0 <= i < st.fees@.len() ==> fits(#[trigger] st.fees@[i].amount_eur)
    &&& forall|i: int| 0 <= i < st.stock_grants@.len() ==> fits(#[trigger] st.stock_grants@[i].total_fmv_eur)
    &&& forall|i: int| 0 <= i < st.cash_grants@.len() ==> fits(#[trigger] st.cash_grants@[i].amount_eur)
    &&& forall|i: int| 0 <= i < st.vorabpauschale@.len() ==> vorabpauschale_fits(#[trigger] st.vorabpauschale@[i])
    &&& base_ok(p.stock_gains.spec_sub(p.stock_losses)) && base_ok(p.general_gains.spec_sub(p.general_losses))
    &&& base_ok(st.loss_carryforward_stock_prior) && base_ok(st.loss_carryforward_other_prior)
    &&& fits(st.sparer_pauschbetrag)
    &&& base_ok(with_totals(st).total_taxable_income) && base_ok(p.foreign_tax_credit)
    &&& church_rate_ok(st.tax_rates.church_tax_rate)
}

/// The creditable foreign tax of the dividends, summed.
pub open spec fn dividend_credits(s: Seq<DividendEntry>) -> int
    decreases s.len(),
{
    if s.len() == 0 {
        0
    } else {
        dividend_credits(s.drop_last()) + s.last().foreign_tax_credit.units()
    }
}

/// The creditable foreign tax of the interest entries, summed.
pub open spec fn interest_credits(s: Seq<InterestEntry>) -> int
    decreases s.len(),
{
    if s.len() == 0 {
        0
    } else {
        interest_credits(s.drop_last()) + s.last().foreign_tax_credit.units()
    }
}

/// The creditable foreign tax of a year: that of its dividends and its interest.
pub open spec fn year_credits(st: GermanTaxStatement) -> int {
    dividend_credits(st.dividends@) + interest_credits(st.interest@)
}

/// Where `rust_decimal` adds up the credits exactly: each credit has at most ten fractional
/// digits, and every running total, dividends first, stays within 10^18.
pub open spec fn credits_exact(st: GermanTaxStatement) -> bool {
    let div = st.dividends@;
    let ints = st.interest@;
    &&& forall|i: int| 0 <= i < div.len() ==> is_small(#[trigger] div[i].foreign_tax_credit)
    &&& forall|i: int| 0 <= i < ints.len() ==> is_small(#[trigger] ints[i].foreign_tax_credit)
    &&& forall|n: int| 0 <= n <= div.len() ==> -small_bound() <= #[trigger] dividend_credits(div.take(n)) <= small_bound()
    &&& forall|n: int|
        0 <= n <= ints.len() ==> -small_bound() <= dividend_credits(div) + #[trigger] interest_credits(ints.take(n))
            <= small_bound()
}

proof fn lemma_capital_gains_keep_credit(t: PotTotals, s: Seq<CapitalGainEntry>)
    ensures
        capital_gains_fold(t, s).foreign_tax_credit == t.foreign_tax_credit,
    decreases s.len(),
{
    if s.len() > 0 {
        lemma_capital_gains_keep_credit(t, s.drop_last());
    }
}

proof fn lemma_fx_keeps_credit(t: PotTotals, s: Seq<FxGainEntry>)
    ensures
        fx_fold(t, s).foreign_tax_credit == t.foreign_tax_credit,
    decreases s.len(),
{
    if s.len() > 0 {
        lemma_fx_keeps_credit(t, s.drop_last());
    }
}

/// The foreign tax withheld on the capital gains, summed.
pub open spec fn gains_foreign_tax(s: Seq<CapitalGainEntry>) -> int
    decreases s.len(),
{
    if s.len() == 0 {
        0
    } else {
        gains_foreign_tax(s.drop_last()) + s.last().foreign_tax.units()
    }
}

/// The taxable amounts of the dividends, summed.
pub open spec fn dividend_taxable(s: Seq<DividendEntry>) -> int
    decreases s.len(),
{
    if s.len() == 0 {
        0
    } else {
        dividend_taxable(s.drop_last()) + s.last().taxable_amount.units()
    }
}

/// The foreign tax withheld on the dividends, summed.
pub open spec fn dividend_withholding(s: Seq<DividendEntry>) -> int
    decreases s.len(),
{
    if s.len() == 0 {
        0
    } else {
        dividend_withholding(s.drop_last()) + s.last().foreign_withholding_tax.units()
    }
}

/// The taxable amounts of the interest entries, summed.
pub open spec fn interest_taxable(s: Seq<InterestEntry>) -> int
    decreases s.len(),
{
    if s.len() == 0 {
        0
    } else {
        interest_taxable(s.drop_last()) + s.last().taxable_amount.units()
    }
}

/// The foreign tax withheld on the interest, summed.
pub open spec fn interest_withholding(s: Seq<InterestEntry>) -> int
    decreases s.len(),
{
    if s.len() == 0 {
        0
    } else {
        interest_withholding(s.drop_last()) + s.last().foreign_withholding_tax.units()
    }
}

/// An entry figure of at most a trillion euros with at most ten fractional digits.
pub open spec fn entry_figure(d: Decimal) -> bool {
    d.exp() <= 10 && -quantity_bound() <= d.units() <= quantity_bound()
}

/// A running total of at most `k` entry figures.
pub open spec fn running_total(d: Decimal, k: int) -> bool {
    d.exp() <= 10 && -(k * quantity_bound()) <= d.units() <= k * quantity_bound()
}

/// Where `rust_decimal` adds up the income and the withheld tax exactly: at most a million capital
/// gain, dividend and interest entries, their taxable amounts and withheld tax entry figures.
pub open spec fn amounts_exact(st: GermanTaxStatement) -> bool {
    let cg = st.capital_gains@;
    let div = st.dividends@;
    let ints = st.interest@;
    &&& cg.len() + div.len() + ints.len() <= 1_000_000
    &&& forall|i: int| 0 <= i < cg.len() ==> entry_figure(#[trigger] cg[i].foreign_tax)
    &&& forall|i: int| 0 <= i < div.len() ==> entry_figure(#[trigger] div[i].taxable_amount) && entry_figure(div[i].foreign_withholding_tax)
    &&& forall|i: int| 0 <= i < ints.len() ==> entry_figure(#[trigger] ints[i].taxable_amount) && entry_figure(ints[i].foreign_withholding_tax)
}

proof fn lemma_running_step(a: Decimal, x: Decimal, k: int)
    requires
        0 <= k < 1_000_000,
        running_total(a, k),
        entry_figure(x),
    ensures
        is_small(a),
        is_small(x),
        -small_bound() <= a.units() + x.units() <= small_bound(),
        -((k + 1) * quantity_bound()) <= a.units() + x.units() <= (k + 1) * quantity_bound(),
{
    assert(k * quantity_bound() <= 999_999 * quantity_bound()) by (nonlinear_arith)
        requires
            0 <= k < 1_000_000,
            quantity_bound() > 0,
    ;
    assert((k + 1) * quantity_bound() == k * quantity_bound() + quantity_bound()) by (nonlinear_arith);
}

proof fn lemma_running_weaken(a: Decimal, k: int, m: int)
    requires
        0 <= k <= m,
        running_total(a, k),
    ensures
        running_total(a, m),
{
    assert(k * quantity_bound() <= m * quantity_bound()) by (nonlinear_arith)
        requires
            0 <= k <= m,
            quantity_bound() > 0,
    ;
}

proof fn lemma_capital_gains_keep_income(t: PotTotals, s: Seq<CapitalGainEntry>)
    ensures
        capital_gains_fold(t, s).dividend_income == t.dividend_income,
        capital_gains_fold(t, s).interest_income == t.interest_income,
    decreases s.len(),
{
    if s.len() > 0 {
        lemma_capital_gains_keep_income(t, s.drop_last());
    }
}

proof fn lemma_dividends_keep_interest(t: PotTotals, s: Seq<DividendEntry>)
    ensures
        dividends_fold(t, s).interest_income == t.interest_income,
    decreases s.len(),
{
    if s.len() > 0 {
        lemma_dividends_keep_interest(t, s.drop_last());
    }
}

proof fn lemma_interest_keeps_dividends(t: PotTotals, s: Seq<InterestEntry>)
    ensures
        interest_fold(t, s).dividend_income == t.dividend_income,
    decreases s.len(),
{
    if s.len() > 0 {
        lemma_interest_keeps_dividends(t, s.drop_last());
    }
}

proof fn lemma_fx_keeps_income(t: PotTotals, s: Seq<FxGainEntry>)
    ensures
        fx_fold(t, s).dividend_income == t.dividend_income,
        fx_fold(t, s).interest_income == t.interest_income,
        fx_fold(t, s).foreign_tax == t.foreign_tax,
    decreases s.len(),
{
    if s.len() > 0 {
        lemma_fx_keeps_income(t, s.drop_last());
    }
}

/// Starting from `t0`, after `k0` entries, the capital gains' withheld tax adds up exactly.
pub open spec fn gains_exact(t0: PotTotals, s: Seq<CapitalGainEntry>, k0: int) -> bool {
    &&& 0 <= k0 && k0 + s.len() <= 1_000_000
    &&& running_total(t0.foreign_tax, k0)
    &&& forall|i: int| 0 <= i < s.len() ==> entry_figure(#[trigger] s[i].foreign_tax)
}

/// Starting from `t0`, after `k0` entries, the dividends' income and withheld tax add up exactly.
pub open spec fn dividends_exact(t0: PotTotals, s: Seq<DividendEntry>, k0: int) -> bool {
    &&& 0 <= k0 && k0 + s.len() <= 1_000_000
    &&& running_total(t0.dividend_income, k0) && running_total(t0.foreign_tax, k0)
    &&& forall|i: int| 0 <= i < s.len() ==> entry_figure(#[trigger] s[i].taxable_amount) && entry_figure(s[i].foreign_withholding_tax)
}

/// Starting from `t0`, after `k0` entries, the interest's income and withheld tax add up exactly.
pub open spec fn interest_exact(t0: PotTotals, s: Seq<InterestEntry>, k0: int) -> bool {
    &&& 0 <= k0 && k0 + s.len() <= 1_000_000
    &&& running_total(t0.interest_income, k0) && running_total(t0.foreign_tax, k0)
    &&& forall|i: int| 0 <= i < s.len() ==> entry_figure(#[trigger] s[i].taxable_amount) && entry_figure(s[i].foreign_withholding_tax)
}

/// Starting from `base`, the dividends' credits add up exactly.
pub open spec fn credits_add_up(base: Decimal, s: Seq<DividendEntry>) -> bool {
    &&& is_small(base)
    &&& forall|i: int| 0 <= i < s.len() ==> is_small(#[trigger] s[i].foreign_tax_credit)
    &&& forall|n: int| 0 <= n <= s.len() ==> -small_bound() <= base.units() + #[trigger] dividend_credits(s.take(n))
        <= small_bound()
}

/// Starting from `base`, the interest entries' credits add up exactly.
pub open spec fn interest_credits_add_up(base: Decimal, s: Seq<InterestEntry>) -> bool {
    &&& is_small(base)
    &&& forall|i: int| 0 <= i < s.len() ==> is_small(#[trigger] s[i].foreign_tax_credit)
    &&& forall|n: int| 0 <= n <= s.len() ==> -small_bound() <= base.units() + #[trigger] interest_credits(s.take(n))
        <= small_bound()
}

/// The net results of the two §20(6) pots: share sales, and everything else.
pub open spec fn stock_net(st: GermanTaxStatement) -> Decimal {
    let p = pot_totals(st.capital_gains@, st.dividends@, st.interest@, st.fx_gains@);
    p.stock_gains.spec_sub(p.stock_losses)
}

pub open spec fn general_net(st: GermanTaxStatement) -> Decimal {
    let p = pot_totals(st.capital_gains@, st.dividends@, st.interest@, st.fx_gains@);
    p.general_gains.spec_sub(p.general_losses)
}

/// Where `rust_decimal` computes the pots' offsetting exactly: pot results, carryforwards and
/// allowance with at most ten fractional digits and at most 10^17 in magnitude, the carryforwards
/// and the allowance not negative.
pub open spec fn pot_law_applies(st: GermanTaxStatement) -> bool {
    &&& exact_figure(stock_net(st)) && exact_figure(general_net(st))
    &&& exact_figure(st.loss_carryforward_stock_prior) && st.loss_carryforward_stock_prior.units() >= 0
    &&& exact_figure(st.loss_carryforward_other_prior) && st.loss_carryforward_other_prior.units() >= 0
    &&& exact_figure(st.sparer_pauschbetrag) && st.sparer_pauschbetrag.units() >= 0
}

/// §20(6) EStG and §20(9) EStG: each pot's net result is offset against its own carryforward, a
/// loss left over is carried to the next year, and the saver's allowance comes off the sum of what
/// remains, never below zero.
pub open spec fn pot_law(st: GermanTaxStatement, t: GermanTaxStatement) -> bool {
    let ns = stock_net(st).units();
    let ng = general_net(st).units();
    let cs = st.loss_carryforward_stock_prior.units();
    let co = st.loss_carryforward_other_prior.units();
    let sp = st.sparer_pauschbetrag.units();
    let rs = max0(ns - cs);
    let rg = max0(ng - co);
    &&& t.loss_carryforward_stock_next.units() == max0(cs - ns)
    &&& t.loss_carryforward_other_next.units() == max0(co - ng)
    &&& t.total_taxable_income.units() == max0(rs + rg - sp)
    &&& t.sparer_pauschbetrag_used.units() == if sp < rs + rg {
        sp
    } else {
        rs + rg
    }
}

/// The statement with its totals: what `calculate_totals` makes of it.
pub open spec fn with_totals(st: GermanTaxStatement) -> GermanTaxStatement {
    let p = pot_totals(st.capital_gains@, st.dividends@, st.interest@, st.fx_gains@);
    let i = info_totals(st.fees@, st.stock_grants@, st.cash_grants@, st.vorabpauschale@);
    let stock = spec_loss_carryforward(
        p.stock_gains.spec_sub(p.stock_losses),
        st.loss_carryforward_stock_prior,
    );
    let general = spec_loss_carryforward(
        p.general_gains.spec_sub(p.general_losses),
        st.loss_carryforward_other_prior,
    );
    let before = stock.0.spec_add(general.0);
    let taxable = before.spec_sub(st.sparer_pauschbetrag).spec_max(Decimal::spec_zero());
    let taxes = spec_compute_taxes(st.tax_rates.church_tax_rate, taxable, p.foreign_tax_credit);
    GermanTaxStatement {
        loss_carryforward_stock_next: stock.2,
        loss_carryforward_other_next: general.2,
        sparer_pauschbetrag_used: st.sparer_pauschbetrag.spec_min(before),
        total_capital_gains: p.capital_gains,
        total_capital_losses: p.capital_losses,
        total_dividend_income: p.dividend_income,
        total_interest_income: p.interest_income,
        total_fx_gains: p.fx_gains,
        total_fx_losses: p.fx_losses,
        total_fees: i.fees,
        total_stock_grant_income: i.stock_grant_income,
        total_cash_grant_income: i.cash_grant_income,
        total_vorabpauschale_gross: i.vorabpauschale_gross,
        total_vorabpauschale_taxable: i.vorabpauschale_taxable,
        total_vorabpauschale_tax: i.vorabpauschale_tax,
        total_taxable_income: taxable,
        total_foreign_tax: p.foreign_tax,
        total_abgeltungssteuer: taxes.abgeltungssteuer,
        total_solidaritaetszuschlag: taxes.solidaritaetszuschlag,
        total_kirchensteuer: taxes.kirchensteuer,
        total_german_tax: taxes.total,
        total_foreign_tax_credit: p.foreign_tax_credit,
        net_tax_due: taxes.total.spec_max(Decimal::spec_zero()),
        kap_zeile_19: p.kap_positive.spec_sub(p.zeile_22).spec_sub(p.zeile_23),
        kap_zeile_20: p.zeile_20,
        kap_zeile_22: p.zeile_22,
        kap_zeile_23: p.zeile_23,
        kap_zeile_41: p.foreign_tax_credit,
        kap_inv_equity: p.equity,
        kap_inv_mixed: p.mixed,
        kap_inv_other: p.other,
        ..st
    }
}


/// `a + x` for a running total and an entry amount, both within a quarter of the range.
fn add_step(a: Decimal, x: Decimal) -> (r: Decimal)
    requires
        fits(a),
        fits(x),
    ensures
        r == a.spec_add(x),
        is_small(a) && is_small(x) && -small_bound() <= a.units() + x.units() <= small_bound() ==> r.units()
            == a.units() + x.units() && is_small(r),
{
    a.add(&x)
}

fn add_sale_exec(g: &mut KapInvGroup, amount: Decimal)
    requires
        group_fit(*old(g)),
        fits(amount),
    ensures
        *final(g) == add_sale(*old(g), amount),
{
    if amount.is_sign_positive() {
        g.sale_gains = add_step(g.sale_gains, amount);
    } else {
        g.sale_losses = add_step(g.sale_losses, amount.neg());
    }
}

fn add_distribution_exec(g: &mut KapInvGroup, amount: Decimal)
    requires
        group_fit(*old(g)),
        fits(amount),
    ensures
        *final(g) == add_distribution(*old(g), amount),
{
    g.distributions = add_step(g.distributions, amount);
}

fn apply_capital_gain(t: &mut PotTotals, e: &CapitalGainEntry)
    requires
        pots_fit(*old(t)),
        capital_gain_fits(*e),
    ensures
        *final(t) == capital_gain_step(*old(t), *e),
        is_small(old(t).foreign_tax) && is_small(e.foreign_tax) && -small_bound() <= old(t).foreign_tax.units()
            + e.foreign_tax.units() <= small_bound() ==> final(t).foreign_tax.units() == old(t).foreign_tax.units()
            + e.foreign_tax.units() && is_small(final(t).foreign_tax),
{
    let a = e.taxable_amount;
    let zero = Decimal::zero();
    t.foreign_tax = add_step(t.foreign_tax, e.foreign_tax);
    if a.is_sign_positive() {
        if e.is_stock {
            t.stock_gains = add_step(t.stock_gains, a);
        } else {
            t.general_gains = add_step(t.general_gains, a);
        }
        t.capital_gains = add_step(t.capital_gains, a);
    } else {
        let m = a.neg();
        if e.is_stock {
            t.stock_losses = add_step(t.stock_losses, m);
        } else {
            t.general_losses = add_step(t.general_losses, m);
        }
        t.capital_losses = add_step(t.capital_losses, m);
    }
    match e.teilfreistellung_rate {
        TeilfreistellungRate::NotFund => {
            if zero.lt(&a) {
                t.zeile_20 = add_step(t.zeile_20, a);
                t.kap_positive = add_step(t.kap_positive, a);
            } else if a.lt(&zero) {
                t.zeile_23 = add_step(t.zeile_23, a.neg());
            }
        },
        TeilfreistellungRate::Equity => {
            add_sale_exec(&mut t.equity, e.taxable_before_exemption);
        },
        TeilfreistellungRate::Mixed => {
            add_sale_exec(&mut t.mixed, e.taxable_before_exemption);
        },
        TeilfreistellungRate::Bond => {
            add_sale_exec(&mut t.other, e.taxable_before_exemption);
        },
    }
}

fn apply_dividend(t: &mut PotTotals, e: &DividendEntry)
    requires
        pots_fit(*old(t)),
        dividend_fits(*e),
    ensures
        *final(t) == dividend_step(*old(t), *e),
        is_small(old(t).foreign_tax_credit) && is_small(e.foreign_tax_credit) && -small_bound()
            <= old(t).foreign_tax_credit.units() + e.foreign_tax_credit.units() <= small_bound()
            ==> final(t).foreign_tax_credit.units() == old(t).foreign_tax_credit.units() + e.foreign_tax_credit.units()
            && is_small(final(t).foreign_tax_credit),
        is_small(old(t).dividend_income) && is_small(e.taxable_amount) && -small_bound()
            <= old(t).dividend_income.units() + e.taxable_amount.units() <= small_bound()
            ==> final(t).dividend_income.units() == old(t).dividend_income.units() + e.taxable_amount.units()
            && is_small(final(t).dividend_income),
        is_small(old(t).foreign_tax) && is_small(e.foreign_withholding_tax) && -small_bound()
            <= old(t).foreign_tax.units() + e.foreign_withholding_tax.units() <= small_bound()
            ==> final(t).foreign_tax.units() == old(t).foreign_tax.units() + e.foreign_withholding_tax.units()
            && is_small(final(t).foreign_tax),
{
    t.dividend_income = add_step(t.dividend_income, e.taxable_amount);
    t.foreign_tax = add_step(t.foreign_tax, e.foreign_withholding_tax);
    t.foreign_tax_credit = add_step(t.foreign_tax_credit, e.foreign_tax_credit);
    t.general_gains = add_step(t.general_gains, e.taxable_amount);
    match e.teilfreistellung_rate {
        TeilfreistellungRate::NotFund => {
            t.kap_positive = add_step(t.kap_positive, e.gross_amount_eur);
        },
        TeilfreistellungRate::Equity => {
            add_distribution_exec(&mut t.equity, e.gross_amount_eur);
        },
        TeilfreistellungRate::Mixed => {
            add_distribution_exec(&mut t.mixed, e.gross_amount_eur);
        },
        TeilfreistellungRate::Bond => {
            add_distribution_exec(&mut t.other, e.gross_amount_eur);
        },
    }
}

fn apply_interest(t: &mut PotTotals, e: &InterestEntry)
    requires
        pots_fit(*old(t)),
        interest_fits(*e),
    ensures
        *final(t) == interest_step(*old(t), *e),
        is_small(old(t).foreign_tax_credit) && is_small(e.foreign_tax_credit) && -small_bound()
            <= old(t).foreign_tax_credit.units() + e.foreign_tax_credit.units() <= small_bound()
            ==> final(t).foreign_tax_credit.units() == old(t).foreign_tax_credit.units() + e.foreign_tax_credit.units()
            && is_small(final(t).foreign_tax_credit),
        is_small(old(t).interest_income) && is_small(e.taxable_amount) && -small_bound()
            <= old(t).interest_income.units() + e.taxable_amount.units() <= small_bound()
            ==> final(t).interest_income.units() == old(t).interest_income.units() + e.taxable_amount.units()
            && is_small(final(t).interest_income),
        is_small(old(t).foreign_tax) && is_small(e.foreign_withholding_tax) && -small_bound()
            <= old(t).foreign_tax.units() + e.foreign_withholding_tax.units() <= small_bound()
            ==> final(t).foreign_tax.units() == old(t).foreign_tax.units() + e.foreign_withholding_tax.units()
            && is_small(final(t).foreign_tax),
{
    t.interest_income = add_step(t.interest_income, e.taxable_amount);
    t.foreign_tax = add_step(t.foreign_tax, e.foreign_withholding_tax);
    t.foreign_tax_credit = add_step(t.foreign_tax_credit, e.foreign_tax_credit);
    t.general_gains = add_step(t.general_gains, e.taxable_amount);
    t.kap_positive = add_step(t.kap_positive, e.gross_amount_eur);
}

fn apply_fx(t: &mut PotTotals, e: &FxGainEntry)
    requires
        pots_fit(*old(t)),
        fits(e.taxable_amount),
    ensures
        *final(t) == fx_step(*old(t), *e),
{
    let a = e.taxable_amount;
    if e.gross_amount_eur.is_sign_positive() {
        t.fx_gains = add_step(t.fx_gains, a);
        t.general_gains = add_step(t.general_gains, a);
    } else {
        let m = a.abs();
        t.fx_losses = add_step(t.fx_losses, m);
        t.general_losses = add_step(t.general_losses, m);
    }
    if a.is_sign_positive() {
        t.kap_positive = add_step(t.kap_positive, a);
    } else {
        t.zeile_22 = add_step(t.zeile_22, a.neg());
    }
}

fn fold_capital_gains(entries: &Vec<CapitalGainEntry>, t0: PotTotals, Ghost(k0): Ghost<int>) -> (r:
    PotTotals)
    requires
        forall|n: int| 0 <= n <= entries@.len() ==> pots_fit(#[trigger] capital_gains_fold(t0, entries@.take(n))),
        forall|i: int| 0 <= i < entries@.len() ==> capital_gain_fits(#[trigger] entries@[i]),
    ensures
        r == capital_gains_fold(t0, entries@),
        gains_exact(t0, entries@, k0) ==> r.foreign_tax.units() == t0.foreign_tax.units() + gains_foreign_tax(entries@)
            && running_total(r.foreign_tax, k0 + entries@.len()),
{
    let mut t = t0;
    let mut i: usize = 0;
    while i < entries.len()
        invariant
            0 <= i <= entries@.len(),
            t == capital_gains_fold(t0, entries@.take(i as int)),
            gains_exact(t0, entries@, k0) ==> t.foreign_tax.units() == t0.foreign_tax.units() + gains_foreign_tax(
                entries@.take(i as int),
            ) && running_total(t.foreign_tax, k0 + i),
            forall|n: int| 0 <= n <= entries@.len() ==> pots_fit(#[trigger] capital_gains_fold(t0, entries@.take(n))),
            forall|j: int| 0 <= j < entries@.len() ==> capital_gain_fits(#[trigger] entries@[j]),
        decreases entries@.len() - i,
    {
        proof {
            assert(entries@.take(i + 1).drop_last() =~= entries@.take(i as int));
            assert(entries@.take(i + 1).last() == entries@[i as int]);
            if gains_exact(t0, entries@, k0) {
                lemma_running_step(t.foreign_tax, entries@[i as int].foreign_tax, k0 + i);
            }
        }
        apply_capital_gain(&mut t, &entries[i]);
        i = i + 1;
    }
    proof {
        assert(entries@.take(i as int) =~= entries@);
    }
    t
}

fn fold_dividends(entries: &Vec<DividendEntry>, t0: PotTotals, Ghost(k0): Ghost<int>) -> (r:
    PotTotals)
    requires
        forall|n: int| 0 <= n <= entries@.len() ==> pots_fit(#[trigger] dividends_fold(t0, entries@.take(n))),
        forall|i: int| 0 <= i < entries@.len() ==> dividend_fits(#[trigger] entries@[i]),
    ensures
        r == dividends_fold(t0, entries@),
        credits_add_up(t0.foreign_tax_credit, entries@) ==> r.foreign_tax_credit.units()
            == t0.foreign_tax_credit.units() + dividend_credits(entries@) && is_small(r.foreign_tax_credit),
        dividends_exact(t0, entries@, k0) ==> r.dividend_income.units() == t0.dividend_income.units()
            + dividend_taxable(entries@) && running_total(r.dividend_income, k0 + entries@.len())
            && r.foreign_tax.units() == t0.foreign_tax.units() + dividend_withholding(entries@)
            && running_total(r.foreign_tax, k0 + entries@.len()),
{
    let mut t = t0;
    let mut i: usize = 0;
    while i < entries.len()
        invariant
            0 <= i <= entries@.len(),
            t == dividends_fold(t0, entries@.take(i as int)),
            credits_add_up(t0.foreign_tax_credit, entries@) ==> t.foreign_tax_credit.units()
                == t0.foreign_tax_credit.units() + dividend_credits(entries@.take(i as int)) && is_small(t.foreign_tax_credit),
            dividends_exact(t0, entries@, k0) ==> t.dividend_income.units() == t0.dividend_income.units()
                + dividend_taxable(entries@.take(i as int)) && running_total(t.dividend_income, k0 + i)
                && t.foreign_tax.units() == t0.foreign_tax.units() + dividend_withholding(entries@.take(i as int))
                && running_total(t.foreign_tax, k0 + i),
            forall|n: int| 0 <= n <= entries@.len() ==> pots_fit(#[trigger] dividends_fold(t0, entries@.take(n))),
            forall|j: int| 0 <= j < entries@.len() ==> dividend_fits(#[trigger] entries@[j]),
        decreases entries@.len() - i,
    {
        proof {
            assert(entries@.take(i + 1).drop_last() =~= entries@.take(i as int));
            assert(entries@.take(i + 1).last() == entries@[i as int]);
            if credits_add_up(t0.foreign_tax_credit, entries@) {
                assert(is_small(entries@[i as int].foreign_tax_credit));
                assert(-small_bound() <= t0.foreign_tax_credit.units() + dividend_credits(entries@.take(i + 1)) <= small_bound());
            }
            if dividends_exact(t0, entries@, k0) {
                lemma_running_step(t.dividend_income, entries@[i as int].taxable_amount, k0 + i);
                lemma_running_step(t.foreign_tax, entries@[i as int].foreign_withholding_tax, k0 + i);
            }
        }
        apply_dividend(&mut t, &entries[i]);
        i = i + 1;
    }
    proof {
        assert(entries@.take(i as int) =~= entries@);
    }
    t
}

fn fold_interest(entries: &Vec<InterestEntry>, t0: PotTotals, Ghost(k0): Ghost<int>) -> (r:
    PotTotals)
    requires
        forall|n: int| 0 <= n <= entries@.len() ==> pots_fit(#[trigger] interest_fold(t0, entries@.take(n))),
        forall|i: int| 0 <= i < entries@.len() ==> interest_fits(#[trigger] entries@[i]),
    ensures
        r == interest_fold(t0, entries@),
        interest_credits_add_up(t0.foreign_tax_credit, entries@) ==> r.foreign_tax_credit.units()
            == t0.foreign_tax_credit.units() + interest_credits(entries@) && is_small(r.foreign_tax_credit),
        interest_exact(t0, entries@, k0) ==> r.interest_income.units() == t0.interest_income.units()
            + interest_taxable(entries@) && running_total(r.interest_income, k0 + entries@.len())
            && r.foreign_tax.units() == t0.foreign_tax.units() + interest_withholding(entries@)
            && running_total(r.foreign_tax, k0 + entries@.len()),
{
    let mut t = t0;
    let mut i: usize = 0;
    while i < entries.len()
        invariant
            0 <= i <= entries@.len(),
            t == interest_fold(t0, entries@.take(i as int)),
            interest_credits_add_up(t0.foreign_tax_credit, entries@) ==> t.foreign_tax_credit.units()
                == t0.foreign_tax_credit.units() + interest_credits(entries@.take(i as int)) && is_small(t.foreign_tax_credit),
            interest_exact(t0, entries@, k0) ==> t.interest_income.units() == t0.interest_income.units()
                + interest_taxable(entries@.take(i as int)) && running_total(t.interest_income, k0 + i)
                && t.foreign_tax.units() == t0.foreign_tax.units() + interest_withholding(entries@.take(i as int))
                && running_total(t.foreign_tax, k0 + i),
            forall|n: int| 0 <= n <= entries@.len() ==> pots_fit(#[trigger] interest_fold(t0, entries@.take(n))),
            forall|j: int| 0 <= j < entries@.len() ==> interest_fits(#[trigger] entries@[j]),
        decreases entries@.len() - i,
    {
        proof {
            assert(entries@.take(i + 1).drop_last() =~= entries@.take(i as int));
            assert(entries@.take(i + 1).last() == entries@[i as int]);
            if interest_credits_add_up(t0.foreign_tax_credit, entries@) {
                assert(is_small(entries@[i as int].foreign_tax_credit));
                assert(-small_bound() <= t0.foreign_tax_credit.units() + interest_credits(entries@.take(i + 1)) <= small_bound());
            }
            if interest_exact(t0, entries@, k0) {
                lemma_running_step(t.interest_income, entries@[i as int].taxable_amount, k0 + i);
                lemma_running_step(t.foreign_tax, entries@[i as int].foreign_withholding_tax, k0 + i);
            }
        }
        apply_interest(&mut t, &entries[i]);
        i = i + 1;
    }
    proof {
        assert(entries@.take(i as int) =~= entries@);
    }
    t
}

fn fold_fx(entries: &Vec<FxGainEntry>, t0: PotTotals) -> (r: PotTotals)
    requires
        forall|n: int| 0 <= n <= entries@.len() ==> pots_fit(#[trigger] fx_fold(t0, entries@.take(n))),
        forall|i: int| 0 <= i < entries@.len() ==> fits(#[trigger] entries@[i].taxable_amount),
    ensures
        r == fx_fold(t0, entries@),
{
    let mut t = t0;
    let mut i: usize = 0;
    while i < entries.len()
        invariant
            0 <= i <= entries@.len(),
            t == fx_fold(t0, entries@.take(i as int)),
            forall|n: int| 0 <= n <= entries@.len() ==> pots_fit(#[trigger] fx_fold(t0, entries@.take(n))),
            forall|j: int| 0 <= j < entries@.len() ==> fits(#[trigger] entries@[j].taxable_amount),
        decreases entries@.len() - i,
    {
        proof {
            assert(entries@.take(i + 1).drop_last() =~= entries@.take(i as int));
        }
        apply_fx(&mut t, &entries[i]);
        i = i + 1;
    }
    proof {
        assert(entries@.take(i as int) =~= entries@);
    }
    t
}

fn fold_fees(entries: &Vec<FeeEntry>, t0: InfoTotals) -> (r: InfoTotals)
    requires
        forall|n: int| 0 <= n <= entries@.len() ==> info_fit(#[trigger] fees_fold(t0, entries@.take(n))),
        forall|i: int| 0 <= i < entries@.len() ==> fits(#[trigger] entries@[i].amount_eur),
    ensures
        r == fees_fold(t0, entries@),
{
    let mut t = t0;
    let mut i: usize = 0;
    while i < entries.len()
        invariant
            0 <= i <= entries@.len(),
            t == fees_fold(t0, entries@.take(i as int)),
            forall|n: int| 0 <= n <= entries@.len() ==> info_fit(#[trigger] fees_fold(t0, entries@.take(n))),
            forall|j: int| 0 <= j < entries@.len() ==> fits(#[trigger] entries@[j].amount_eur),
        decreases entries@.len() - i,
    {
        proof {
            assert(entries@.take(i + 1).drop_last() =~= entries@.take(i as int));
        }
        t.fees = add_step(t.fees, entries[i].amount_eur);
        i = i + 1;
    }
    proof {
        assert(entries@.take(i as int) =~= entries@);
    }
    t
}

fn fold_stock_grants(entries: &Vec<StockGrantEntry>, t0: InfoTotals) -> (r:
    InfoTotals)
    requires
        forall|n: int| 0 <= n <= entries@.len() ==> info_fit(#[trigger] stock_grants_fold(t0, entries@.take(n))),
        forall|i: int| 0 <= i < entries@.len() ==> fits(#[trigger] entries@[i].total_fmv_eur),
    ensures
        r == stock_grants_fold(t0, entries@),
{
    let mut t = t0;
    let mut i: usize = 0;
    while i < entries.len()
        invariant
            0 <= i <= entries@.len(),
            t == stock_grants_fold(t0, entries@.take(i as int)),
            forall|n: int| 0 <= n <= entries@.len() ==> info_fit(#[trigger] stock_grants_fold(t0, entries@.take(n))),
            forall|j: int| 0 <= j < entries@.len() ==> fits(#[trigger] entries@[j].total_fmv_eur),
        decreases entries@.len() - i,
    {
        proof {
            assert(entries@.take(i + 1).drop_last() =~= entries@.take(i as int));
        }
        t.stock_grant_income = add_step(t.stock_grant_income, entries[i].total_fmv_eur);
        i = i + 1;
    }
    proof {
        assert(entries@.take(i as int) =~= entries@);
    }
    t
}

fn fold_cash_grants(entries: &Vec<CashGrantEntry>, t0: InfoTotals) -> (r:
    InfoTotals)
    requires
        forall|n: int| 0 <= n <= entries@.len() ==> info_fit(#[trigger] cash_grants_fold(t0, entries@.take(n))),
        forall|i: int| 0 <= i < entries@.len() ==> fits(#[trigger] entries@[i].amount_eur),
    ensures
        r == cash_grants_fold(t0, entries@),
{
    let mut t = t0;
    let mut i: usize = 0;
    while i < entries.len()
        invariant
            0 <= i <= entries@.len(),
            t == cash_grants_fold(t0, entries@.take(i as int)),
            forall|n: int| 0 <= n <= entries@.len() ==> info_fit(#[trigger] cash_grants_fold(t0, entries@.take(n))),
            forall|j: int| 0 <= j < entries@.len() ==> fits(#[trigger] entries@[j].amount_eur),
        decreases entries@.len() - i,
    {
        proof {
            assert(entries@.take(i + 1).drop_last() =~= entries@.take(i as int));
        }
        t.cash_grant_income = add_step(t.cash_grant_income, entries[i].amount_eur);
        i = i + 1;
    }
    proof {
        assert(entries@.take(i as int) =~= entries@);
    }
    t
}

fn fold_vorabpauschale(entries: &Vec<VorabpauschaleEntry>, t0: InfoTotals) -> (r:
    InfoTotals)
    requires
        forall|n: int| 0 <= n <= entries@.len() ==> info_fit(#[trigger] vorabpauschale_fold(t0, entries@.take(n))),
        forall|i: int| 0 <= i < entries@.len() ==> vorabpauschale_fits(#[trigger] entries@[i]),
    ensures
        r == vorabpauschale_fold(t0, entries@),
{
    let mut t = t0;
    let mut i: usize = 0;
    while i < entries.len()
        invariant
            0 <= i <= entries@.len(),
            t == vorabpauschale_fold(t0, entries@.take(i as int)),
            forall|n: int| 0 <= n <= entries@.len() ==> info_fit(#[trigger] vorabpauschale_fold(t0, entries@.take(n))),
            forall|j: int| 0 <= j < entries@.len() ==> vorabpauschale_fits(#[trigger] entries@[j]),
        decreases entries@.len() - i,
    {
        proof {
            assert(entries@.take(i + 1).drop_last() =~= entries@.take(i as int));
        }
        let e = &entries[i];
        t.vorabpauschale_gross = add_step(t.vorabpauschale_gross, e.gross_vorabpauschale);
        t.vorabpauschale_taxable = add_step(t.vorabpauschale_taxable, e.taxable_amount);
        t.vorabpauschale_tax = add_step(t.vorabpauschale_tax, e.total_tax);
        i = i + 1;
    }
    proof {
        assert(entries@.take(i as int) =~= entries@);
    }
    t
}

fn no_pots() -> (r: PotTotals)
    ensures
        r == zero_pots(),
{
    let z = Decimal::zero();
    PotTotals {
        foreign_tax: z,
        foreign_tax_credit: z,
        stock_gains: z,
        stock_losses: z,
        general_gains: z,
        general_losses: z,
        capital_gains: z,
        capital_losses: z,
        dividend_income: z,
        interest_income: z,
        fx_gains: z,
        fx_losses: z,
        kap_positive: z,
        zeile_20: z,
        zeile_22: z,
        zeile_23: z,
        equity: KapInvGroup::default(),
        mixed: KapInvGroup::default(),
        other: KapInvGroup::default(),
    }
}

fn no_info() -> (r: InfoTotals)
    ensures
        r == zero_info(),
{
    let z = Decimal::zero();
    InfoTotals {
        fees: z,
        stock_grant_income: z,
        cash_grant_income: z,
        vorabpauschale_gross: z,
        vorabpauschale_taxable: z,
        vorabpauschale_tax: z,
    }
}

impl GermanTaxStatement {
    /// A new statement for `year`, with the prior-year loss carryforward of each §20(6) pot and
    /// the saver's allowance. Refused where the rates of the year are (before 2009, or a church
    /// tax rate outside 0..=100%).
    pub fn new(
        year: i32,
        church_tax_rate: Decimal,
        loss_carryforward_stock: Decimal,
        loss_carryforward_other: Decimal,
        sparer_pauschbetrag: Decimal,
    ) -> (r: Result<GermanTaxStatement, String>)
        ensures
            r is Ok <==> year >= 2009 && church_rate_ok(church_tax_rate),
            r matches Ok(st) ==> {
                &&& st.year == year
                &&& st.tax_rates.year == year
                &&& st.tax_rates.church_tax_rate == church_tax_rate
                &&& st.loss_carryforward_stock_prior == loss_carryforward_stock
                &&& st.loss_carryforward_other_prior == loss_carryforward_other
                &&& st.sparer_pauschbetrag == sparer_pauschbetrag
                &&& is_fresh(st)
            },
    {
        let tax_rates = match GermanTaxRates::for_year(year, church_tax_rate) {
            Ok(rates) => rates,
            Err(e) => {
                return Err(e);
            },
        };
        let z = Decimal::zero();
        Ok(GermanTaxStatement {
            year,
            tax_rates,
            capital_gains: Vec::new(),
            dividends: Vec::new(),
            interest: Vec::new(),
            fx_gains: Vec::new(),
            fees: Vec::new(),
            stock_grants: Vec::new(),
            cash_grants: Vec::new(),
            corporate_actions: Vec::new(),
            vorabpauschale: Vec::new(),
            vorabpauschale_missing_nav: Vec::new(),
            short_positions: Vec::new(),
            loss_carryforward_stock_prior: loss_carryforward_stock,
            loss_carryforward_other_prior: loss_carryforward_other,
            loss_carryforward_stock_next: z,
            loss_carryforward_other_next: z,
            sparer_pauschbetrag,
            sparer_pauschbetrag_used: z,
            total_capital_gains: z,
            total_capital_losses: z,
            total_dividend_income: z,
            total_interest_income: z,
            total_fx_gains: z,
            total_fx_losses: z,
            total_fees: z,
            total_stock_grant_income: z,
            total_cash_grant_income: z,
            total_vorabpauschale_gross: z,
            total_vorabpauschale_taxable: z,
            total_vorabpauschale_tax: z,
            total_taxable_income: z,
            total_foreign_tax: z,
            total_abgeltungssteuer: z,
            total_solidaritaetszuschlag: z,
            total_kirchensteuer: z,
            total_german_tax: z,
            total_foreign_tax_credit: z,
            net_tax_due: z,
            non_taxable_margin_fx: z,
            kap_zeile_19: z,
            kap_zeile_20: z,
            kap_zeile_22: z,
            kap_zeile_23: z,
            kap_zeile_41: z,
            kap_inv_equity: KapInvGroup::default(),
            kap_inv_mixed: KapInvGroup::default(),
            kap_inv_other: KapInvGroup::default(),
            section23: Section23::default(),
            report: ReportDetails::new(),
        })
    }

    /// Add a capital gain entry.
    pub fn add_capital_gain(&mut self, entry: CapitalGainEntry)
        ensures
            final(self).capital_gains@ == old(self).capital_gains@.push(entry),
            *final(self) == (GermanTaxStatement { capital_gains: final(self).capital_gains, ..*old(self) }),
    {
        self.capital_gains.push(entry);
    }

    /// Add a dividend entry.
    pub fn add_dividend(&mut self, entry: DividendEntry)
        ensures
            final(self).dividends@ == old(self).dividends@.push(entry),
            *final(self) == (GermanTaxStatement { dividends: final(self).dividends, ..*old(self) }),
    {
        self.dividends.push(entry);
    }

    /// Add an interest entry.
    pub fn add_interest(&mut self, entry: InterestEntry)
        ensures
            final(self).interest@ == old(self).interest@.push(entry),
            *final(self) == (GermanTaxStatement { interest: final(self).interest, ..*old(self) }),
    {
        self.interest.push(entry);
    }

    /// Add an FX gain/loss entry.
    pub fn add_fx_gain(&mut self, entry: FxGainEntry)
        ensures
            final(self).fx_gains@ == old(self).fx_gains@.push(entry),
            *final(self) == (GermanTaxStatement { fx_gains: final(self).fx_gains, ..*old(self) }),
    {
        self.fx_gains.push(entry);
    }

    /// Add a fee entry.
    pub fn add_fee(&mut self, entry: FeeEntry)
        ensures
            final(self).fees@ == old(self).fees@.push(entry),
            *final(self) == (GermanTaxStatement { fees: final(self).fees, ..*old(self) }),
    {
        self.fees.push(entry);
    }

    /// Add a stock grant entry.
    pub fn add_stock_grant(&mut self, entry: StockGrantEntry)
        ensures
            final(self).stock_grants@ == old(self).stock_grants@.push(entry),
            *final(self) == (GermanTaxStatement { stock_grants: final(self).stock_grants, ..*old(self) }),
    {
        self.stock_grants.push(entry);
    }

    /// Add a cash grant entry.
    pub fn add_cash_grant(&mut self, entry: CashGrantEntry)
        ensures
            final(self).cash_grants@ == old(self).cash_grants@.push(entry),
            *final(self) == (GermanTaxStatement { cash_grants: final(self).cash_grants, ..*old(self) }),
    {
        self.cash_grants.push(entry);
    }

    /// Add a corporate action entry.
    pub fn add_corporate_action(&mut self, entry: CorporateActionEntry)
        ensures
            final(self).corporate_actions@ == old(self).corporate_actions@.push(entry),
            *final(self) == (GermanTaxStatement {
                corporate_actions: final(self).corporate_actions,
                ..*old(self)
            }),
    {
        self.corporate_actions.push(entry);
    }

    /// Add a Vorabpauschale entry.
    pub fn add_vorabpauschale(&mut self, entry: VorabpauschaleEntry)
        ensures
            final(self).vorabpauschale@ == old(self).vorabpauschale@.push(entry),
            *final(self) == (GermanTaxStatement {
                vorabpauschale: final(self).vorabpauschale,
                ..*old(self)
            }),
    {
        self.vorabpauschale.push(entry);
    }
    /// Calculate all summary totals from the entries, the prior-year loss carryforwards, the
    /// saver's allowance and the rates. Everything else stays as it was.
    #[verifier::rlimit(60)]
    pub fn calculate_totals(&mut self)
        requires
            totals_fit(*old(self)),
        ensures
            *final(self) == with_totals(*old(self)),
            pot_law_applies(*old(self)) ==> pot_law(*old(self), *final(self)),
            credits_exact(*old(self)) ==> final(self).total_foreign_tax_credit.units() == year_credits(*old(self))
                && final(self).kap_zeile_41 == final(self).total_foreign_tax_credit,
            credits_exact(*old(self)) && old(self).tax_rates.church_tax_rate.exp() <= 10
                && final(self).total_taxable_income.units() > 0 && final(self).total_taxable_income.exp() <= 10
                && representable_quotient(
                final(self).total_taxable_income.units() - 4 * year_credits(*old(self)),
                4 * unit() + old(self).tax_rates.church_tax_rate.units(),
            ) ==> final(self).total_abgeltungssteuer.units() == exact_abgeltungsteuer(
                final(self).total_taxable_income.units(),
                year_credits(*old(self)),
                old(self).tax_rates.church_tax_rate.units(),
            ),
            representable(
                final(self).total_abgeltungssteuer.mant() * 55,
                (final(self).total_abgeltungssteuer.exp() + 3) as int,
            ) ==> final(self).total_solidaritaetszuschlag.units() * 1000 == final(self).total_abgeltungssteuer.units() * 55,
            representable(
                final(self).total_abgeltungssteuer.mant() * old(self).tax_rates.church_tax_rate.mant(),
                (final(self).total_abgeltungssteuer.exp() + old(self).tax_rates.church_tax_rate.exp()) as int,
            ) ==> final(self).total_kirchensteuer.units() * unit() == final(self).total_abgeltungssteuer.units()
                * old(self).tax_rates.church_tax_rate.units(),
            is_small(final(self).total_abgeltungssteuer) && is_small(final(self).total_solidaritaetszuschlag)
                && is_small(final(self).total_kirchensteuer) && -small_bound() <= final(self).total_abgeltungssteuer.units()
                + final(self).total_solidaritaetszuschlag.units() <= small_bound() && -small_bound()
                <= final(self).total_abgeltungssteuer.units() + final(self).total_solidaritaetszuschlag.units()
                + final(self).total_kirchensteuer.units() <= small_bound() ==> final(self).total_german_tax.units()
                == final(self).total_abgeltungssteuer.units() + final(self).total_solidaritaetszuschlag.units()
                + final(self).total_kirchensteuer.units(),
            final(self).net_tax_due.units() == max0(final(self).total_german_tax.units()),
            amounts_exact(*old(self)) ==> {
                &&& final(self).total_dividend_income.units() == dividend_taxable(old(self).dividends@)
                &&& final(self).total_interest_income.units() == interest_taxable(old(self).interest@)
                &&& final(self).total_foreign_tax.units() == gains_foreign_tax(old(self).capital_gains@)
                    + dividend_withholding(old(self).dividends@) + interest_withholding(old(self).interest@)
            },
    {
        proof {
            let st = *self;
            assert(st.capital_gains@.take(st.capital_gains@.len() as int) =~= st.capital_gains@);
            assert(st.dividends@.take(st.dividends@.len() as int) =~= st.dividends@);
            assert(st.interest@.take(st.interest@.len() as int) =~= st.interest@);
            assert(st.fx_gains@.take(st.fx_gains@.len() as int) =~= st.fx_gains@);
            let p3 = interest_fold(
                dividends_fold(capital_gains_fold(zero_pots(), st.capital_gains@), st.dividends@),
                st.interest@,
            );
            assert(pots_fit(fx_fold(p3, st.fx_gains@.take(st.fx_gains@.len() as int))));
        }
        let ghost st0 = *self;
        let ghost kc = st0.capital_gains@.len() as int;
        let ghost kd = st0.dividends@.len() as int;
        let p = fold_capital_gains(&self.capital_gains, no_pots(), Ghost(0));
        proof {
            lemma_capital_gains_keep_credit(zero_pots(), st0.capital_gains@);
            lemma_capital_gains_keep_income(zero_pots(), st0.capital_gains@);
            Decimal::lemma_spec_zero();
            if amounts_exact(st0) {
                assert(gains_exact(zero_pots(), st0.capital_gains@, 0));
                assert(running_total(p.foreign_tax, kc));
                assert(running_total(p.dividend_income, kc));
                assert(dividends_exact(p, st0.dividends@, kc));
            }
            Decimal::lemma_spec_zero();
            if credits_exact(st0) {
                assert(credits_add_up(p.foreign_tax_credit, st0.dividends@));
            }
        }
        let ghost p1 = p;
        let p = fold_dividends(&self.dividends, p, Ghost(kc));
        proof {
            if credits_exact(st0) {
                assert(interest_credits_add_up(p.foreign_tax_credit, st0.interest@));
            }
            lemma_dividends_keep_interest(p1, st0.dividends@);
            if amounts_exact(st0) {
                assert(interest_exact(p, st0.interest@, kc + kd));
            }
        }
        let ghost p2 = p;
        let p = fold_interest(&self.interest, p, Ghost(kc + kd));
        proof {
            lemma_interest_keeps_dividends(p2, st0.interest@);
        }
        let ghost p3 = p;
        let p = fold_fx(&self.fx_gains, p);
        proof {
            lemma_fx_keeps_credit(p3, st0.fx_gains@);
            lemma_fx_keeps_income(p3, st0.fx_gains@);
        }
        let i = fold_fees(&self.fees, no_info());
        let i = fold_stock_grants(&self.stock_grants, i);
        let i = fold_cash_grants(&self.cash_grants, i);
        let i = fold_vorabpauschale(&self.vorabpauschale, i);

        let stock_net = p.stock_gains.sub(&p.stock_losses);
        let general_net = p.general_gains.sub(&p.general_losses);
        let (stock_result, _stock_used, stock_next) = calculate_with_loss_carryforward(
            stock_net,
            self.loss_carryforward_stock_prior,
        );
        let (general_result, _general_used, general_next) = calculate_with_loss_carryforward(
            general_net,
            self.loss_carryforward_other_prior,
        );
        let before = stock_result.add(&general_result);
        let used = self.sparer_pauschbetrag.min(&before);
        let zero = Decimal::zero();
        let taxable = before.sub(&self.sparer_pauschbetrag).max(&zero);
        let taxes = self.tax_rates.compute_taxes(taxable, p.foreign_tax_credit);
        let zeile_19 = p.kap_positive.sub(&p.zeile_22).sub(&p.zeile_23);

        self.loss_carryforward_stock_next = stock_next;
        self.loss_carryforward_other_next = general_next;
        self.sparer_pauschbetrag_used = used;
        self.total_capital_gains = p.capital_gains;
        self.total_capital_losses = p.capital_losses;
        self.total_dividend_income = p.dividend_income;
        self.total_interest_income = p.interest_income;
        self.total_fx_gains = p.fx_gains;
        self.total_fx_losses = p.fx_losses;
        self.total_fees = i.fees;
        self.total_stock_grant_income = i.stock_grant_income;
        self.total_cash_grant_income = i.cash_grant_income;
        self.total_vorabpauschale_gross = i.vorabpauschale_gross;
        self.total_vorabpauschale_taxable = i.vorabpauschale_taxable;
        self.total_vorabpauschale_tax = i.vorabpauschale_tax;
        self.total_taxable_income = taxable;
        self.total_foreign_tax = p.foreign_tax;
        self.total_abgeltungssteuer = taxes.abgeltungssteuer;
        self.total_solidaritaetszuschlag = taxes.solidaritaetszuschlag;
        self.total_kirchensteuer = taxes.kirchensteuer;
        self.total_german_tax = taxes.total;
        self.total_foreign_tax_credit = p.foreign_tax_credit;
        self.net_tax_due = taxes.total.max(&zero);
        self.kap_zeile_19 = zeile_19;
        self.kap_zeile_20 = p.zeile_20;
        self.kap_zeile_22 = p.zeile_22;
        self.kap_zeile_23 = p.zeile_23;
        self.kap_zeile_41 = p.foreign_tax_credit;
        self.kap_inv_equity = p.equity;
        self.kap_inv_mixed = p.mixed;
        self.kap_inv_other = p.other;
    }
}

/// The taxable income of a year and the net tax due are never negative.
pub proof fn taxable_income_is_never_negative(st: GermanTaxStatement)
    ensures
        with_totals(st).total_taxable_income.units() >= 0,
        with_totals(st).net_tax_due.units() >= 0,
{
    Decimal::lemma_spec_zero();
}

/// The part of the saver's allowance that a year uses is never more than the allowance.
pub proof fn allowance_used_is_at_most_the_allowance(st: GermanTaxStatement)
    ensures
        with_totals(st).sparer_pauschbetrag_used.units() <= st.sparer_pauschbetrag.units(),
{
}

/// Calculating the totals a second time changes nothing, and is possible wherever the first time
/// was.
pub proof fn totals_are_idempotent(st: GermanTaxStatement)
    ensures
        with_totals(with_totals(st)) == with_totals(st),
        totals_fit(st) ==> totals_fit(with_totals(st)),
{
}

/// Fees, stock and cash grants and the Vorabpauschale never change the capital-income base: two
/// statements with the same capital income, carryforwards, allowance and rates have the same
/// taxable income, tax, loss carryforwards and Anlage KAP figures.
pub proof fn fees_grants_and_vorabpauschale_stay_out_of_the_base(
    a: GermanTaxStatement,
    b: GermanTaxStatement,
)
    requires
        a.capital_gains@ == b.capital_gains@,
        a.dividends@ == b.dividends@,
        a.interest@ == b.interest@,
        a.fx_gains@ == b.fx_gains@,
        a.loss_carryforward_stock_prior == b.loss_carryforward_stock_prior,
        a.loss_carryforward_other_prior == b.loss_carryforward_other_prior,
        a.sparer_pauschbetrag == b.sparer_pauschbetrag,
        a.tax_rates == b.tax_rates,
    ensures
        with_totals(a).total_taxable_income == with_totals(b).total_taxable_income,
        with_totals(a).total_german_tax == with_totals(b).total_german_tax,
        with_totals(a).net_tax_due == with_totals(b).net_tax_due,
        with_totals(a).loss_carryforward_stock_next == with_totals(b).loss_carryforward_stock_next,
        with_totals(a).loss_carryforward_other_next == with_totals(b).loss_carryforward_other_next,
        with_totals(a).sparer_pauschbetrag_used == with_totals(b).sparer_pauschbetrag_used,
        with_totals(a).kap_zeile_19 == with_totals(b).kap_zeile_19,
{
}

proof fn dividends_keep_stock_pot(t: PotTotals, s: Seq<DividendEntry>)
    ensures
        dividends_fold(t, s).stock_gains == t.stock_gains,
        dividends_fold(t, s).stock_losses == t.stock_losses,
    decreases s.len(),
{
    if s.len() > 0 {
        dividends_keep_stock_pot(t, s.drop_last());
    }
}

proof fn interest_keeps_stock_pot(t: PotTotals, s: Seq<InterestEntry>)
    ensures
        interest_fold(t, s).stock_gains == t.stock_gains,
        interest_fold(t, s).stock_losses == t.stock_losses,
    decreases s.len(),
{
    if s.len() > 0 {
        interest_keeps_stock_pot(t, s.drop_last());
    }
}

proof fn fx_keeps_stock_pot(t: PotTotals, s: Seq<FxGainEntry>)
    ensures
        fx_fold(t, s).stock_gains == t.stock_gains,
        fx_fold(t, s).stock_losses == t.stock_losses,
    decreases s.len(),
{
    if s.len() > 0 {
        fx_keeps_stock_pot(t, s.drop_last());
    }
}

proof fn dividends_general_pot_from(t1: PotTotals, t2: PotTotals, s: Seq<DividendEntry>)
    requires
        t1.general_gains == t2.general_gains,
        t1.general_losses == t2.general_losses,
    ensures
        dividends_fold(t1, s).general_gains == dividends_fold(t2, s).general_gains,
        dividends_fold(t1, s).general_losses == dividends_fold(t2, s).general_losses,
    decreases s.len(),
{
    if s.len() > 0 {
        dividends_general_pot_from(t1, t2, s.drop_last());
    }
}

proof fn interest_general_pot_from(t1: PotTotals, t2: PotTotals, s: Seq<InterestEntry>)
    requires
        t1.general_gains == t2.general_gains,
        t1.general_losses == t2.general_losses,
    ensures
        interest_fold(t1, s).general_gains == interest_fold(t2, s).general_gains,
        interest_fold(t1, s).general_losses == interest_fold(t2, s).general_losses,
    decreases s.len(),
{
    if s.len() > 0 {
        interest_general_pot_from(t1, t2, s.drop_last());
    }
}

proof fn fx_general_pot_from(t1: PotTotals, t2: PotTotals, s: Seq<FxGainEntry>)
    requires
        t1.general_gains == t2.general_gains,
        t1.general_losses == t2.general_losses,
    ensures
        fx_fold(t1, s).general_gains == fx_fold(t2, s).general_gains,
        fx_fold(t1, s).general_losses == fx_fold(t2, s).general_losses,
    decreases s.len(),
{
    if s.len() > 0 {
        fx_general_pot_from(t1, t2, s.drop_last());
    }
}

/// §20(6) EStG: a share sale lands in the stock pot only. Appending one to the capital gains of a
/// year leaves the general pot, and so the general carryforward, as it was.
pub proof fn share_sales_stay_in_the_stock_pot(
    cg: Seq<CapitalGainEntry>,
    div: Seq<DividendEntry>,
    ints: Seq<InterestEntry>,
    fx: Seq<FxGainEntry>,
    e: CapitalGainEntry,
)
    requires
        e.is_stock,
    ensures
        pot_totals(cg.push(e), div, ints, fx).general_gains == pot_totals(cg, div, ints, fx).general_gains,
        pot_totals(cg.push(e), div, ints, fx).general_losses == pot_totals(cg, div, ints, fx).general_losses,
{
    assert(cg.push(e).drop_last() =~= cg);
    let t1 = capital_gains_fold(zero_pots(), cg.push(e));
    let t2 = capital_gains_fold(zero_pots(), cg);
    dividends_general_pot_from(t1, t2, div);
    let d1 = dividends_fold(t1, div);
    let d2 = dividends_fold(t2, div);
    interest_general_pot_from(d1, d2, ints);
    fx_general_pot_from(interest_fold(d1, ints), interest_fold(d2, ints), fx);
}

/// §20(6) EStG: any other capital gain entry (a fund unit) never touches the stock pot.
pub proof fn other_sales_stay_out_of_the_stock_pot(
    cg: Seq<CapitalGainEntry>,
    div: Seq<DividendEntry>,
    ints: Seq<InterestEntry>,
    fx: Seq<FxGainEntry>,
    e: CapitalGainEntry,
)
    requires
        !e.is_stock,
    ensures
        pot_totals(cg.push(e), div, ints, fx).stock_gains == pot_totals(cg, div, ints, fx).stock_gains,
        pot_totals(cg.push(e), div, ints, fx).stock_losses == pot_totals(cg, div, ints, fx).stock_losses,
{
    assert(cg.push(e).drop_last() =~= cg);
    let t1 = capital_gains_fold(zero_pots(), cg.push(e));
    let t2 = capital_gains_fold(zero_pots(), cg);
    dividends_keep_stock_pot(t1, div);
    dividends_keep_stock_pot(t2, div);
    let d1 = dividends_fold(t1, div);
    let d2 = dividends_fold(t2, div);
    interest_keeps_stock_pot(d1, ints);
    interest_keeps_stock_pot(d2, ints);
    fx_keeps_stock_pot(interest_fold(d1, ints), fx);
    fx_keeps_stock_pot(interest_fold(d2, ints), fx);
}

/// Dividends, interest and FX results never touch the stock pot: the stock pot of a year is that of
/// its capital gains alone.
pub proof fn stock_pot_is_the_share_sales_alone(
    cg: Seq<CapitalGainEntry>,
    div: Seq<DividendEntry>,
    ints: Seq<InterestEntry>,
    fx: Seq<FxGainEntry>,
)
    ensures
        pot_totals(cg, div, ints, fx).stock_gains == capital_gains_fold(zero_pots(), cg).stock_gains,
        pot_totals(cg, div, ints, fx).stock_losses == capital_gains_fold(zero_pots(), cg).stock_losses,
{
    let t = capital_gains_fold(zero_pots(), cg);
    dividends_keep_stock_pot(t, div);
    interest_keeps_stock_pot(dividends_fold(t, div), ints);
    fx_keeps_stock_pot(interest_fold(dividends_fold(t, div), ints), fx);
}

} // verus!
