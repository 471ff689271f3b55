//! CSV text of a German tax statement: one 21-column row per entry, then the summary block with the
//! Anlage KAP, KAP-INV, Vorabpauschale, short-position and Anlage SO sections.
use vstd::prelude::*;

use crate::date::{dotted_text, Date};
use crate::decimal::{unit, Decimal};
use crate::tax_statement::eur::{eur_ok, eur_text, format_eur};
use crate::taxes::germany::{exempt_percent, spec_rate, TeilfreistellungRate};
use crate::text::{int_text, push_char, push_int};

use super::statement::{
    action_label, CapitalGainEntry, CashGrantEntry, CorporateActionEntry, DividendEntry, FeeEntry,
    FxGainEntry, GermanTaxStatement, InterestEntry, KapInvGroup, Section23, StockGrantEntry,
    VorabpauschaleEntry,
};

verus! {

/// Characters that make a CSV cell need quoting.
pub open spec fn is_special(c: char) -> bool {
    c == ',' || c == '"' || c == '\n'
}

pub open spec fn needs_quotes(s: Seq<char>) -> bool {
    exists|i: int| 0 <= i < s.len() && is_special(#[trigger] s[i])
}

/// The text with every `"` doubled.
pub open spec fn doubled_quotes(s: Seq<char>) -> Seq<char>
    decreases s.len(),
{
    if s.len() == 0 {
        seq![]
    } else if s.last() == '"' {
        doubled_quotes(s.drop_last()) + seq!['"', '"']
    } else {
        doubled_quotes(s.drop_last()).push(s.last())
    }
}

/// A CSV cell: the text itself, or, where it holds a comma, a quote or a line break, the text in
/// quotes with its quotes doubled.
pub open spec fn escape_text(s: Seq<char>) -> Seq<char> {
    if needs_quotes(s) {
        seq!['"'] + doubled_quotes(s) + seq!['"']
    } else {
        s
    }
}

/// The notes of an entry, or a default text.
pub open spec fn note_text(notes: Option<String>, default: Seq<char>) -> Seq<char> {
    match notes {
        Some(n) => n@,
        None => default,
    }
}

/// Anlage KAP-INV line numbers of a fund type: (distributions, Vorabpauschale, sale gains/losses),
/// as on the official forms of 2024 and 2025 (Aktien-, Misch-, sonstige Fonds). A non-fund has none.
pub open spec fn spec_kap_inv_zeilen(rate: TeilfreistellungRate) -> Option<(u32, u32, u32)> {
    match rate {
        TeilfreistellungRate::Equity => Some((4, 9, 14)),
        TeilfreistellungRate::Mixed => Some((5, 10, 17)),
        TeilfreistellungRate::Bond => Some((8, 13, 26)),
        TeilfreistellungRate::NotFund => None,
    }
}

/// Anlage KAP-INV line numbers of a fund type.
pub fn kap_inv_zeilen(rate: TeilfreistellungRate) -> (r: Option<(u32, u32, u32)>)
    ensures
        r == spec_kap_inv_zeilen(rate),
{
    match rate {
        TeilfreistellungRate::Equity => Some((4, 9, 14)),
        TeilfreistellungRate::Mixed => Some((5, 10, 17)),
        TeilfreistellungRate::Bond => Some((8, 13, 26)),
        TeilfreistellungRate::NotFund => None,
    }
}

/// The exemption of a fund type in percent, as the rows report it: the rate times 100.
pub open spec fn pct(rate: TeilfreistellungRate) -> Decimal {
    spec_rate(rate).spec_mul(Decimal::spec_new(100, 0))
}

fn pct_of(rate: TeilfreistellungRate) -> (r: Decimal)
    ensures
        r == pct(rate),
        r.units() == exempt_percent(rate) * unit(),
        eur_ok(r),
{
    let share = rate.rate();
    let hundred = Decimal::new(100, 0);
    proof {
        crate::decimal::lemma_pow10_28();
        assert(hundred.units() == 100 * unit());
    }
    share.mul(&hundred)
}

pub open spec fn capital_gain_ok(e: CapitalGainEntry) -> bool {
    &&& eur_ok(e.quantity) && eur_ok(e.cost_basis_eur) && eur_ok(e.proceeds_eur)
    &&& eur_ok(e.gross_gain_loss) && eur_ok(e.taxable_amount) && eur_ok(e.foreign_tax)
    &&& eur_ok(e.abgeltungssteuer) && eur_ok(e.solidaritaetszuschlag) && eur_ok(e.kirchensteuer)
    &&& eur_ok(e.total_tax)
}

pub open spec fn dividend_ok(e: DividendEntry) -> bool {
    &&& eur_ok(e.gross_amount_eur) && eur_ok(e.taxable_amount) && eur_ok(e.foreign_withholding_tax)
    &&& eur_ok(e.abgeltungssteuer) && eur_ok(e.solidaritaetszuschlag) && eur_ok(e.kirchensteuer)
    &&& eur_ok(e.foreign_tax_credit) && eur_ok(e.total_tax) && eur_ok(e.net_tax)
}

pub open spec fn interest_ok(e: InterestEntry) -> bool {
    &&& eur_ok(e.gross_amount_eur) && eur_ok(e.taxable_amount) && eur_ok(e.foreign_withholding_tax)
    &&& eur_ok(e.abgeltungssteuer) && eur_ok(e.solidaritaetszuschlag) && eur_ok(e.kirchensteuer)
    &&& eur_ok(e.foreign_tax_credit) && eur_ok(e.total_tax) && eur_ok(e.net_tax)
}

pub open spec fn fx_ok(e: FxGainEntry) -> bool {
    &&& eur_ok(e.gross_amount_eur) && eur_ok(e.taxable_amount) && eur_ok(e.abgeltungssteuer)
    &&& eur_ok(e.solidaritaetszuschlag) && eur_ok(e.kirchensteuer) && eur_ok(e.total_tax)
}

pub open spec fn corporate_action_ok(e: CorporateActionEntry) -> bool {
    match e.tax_impact_eur {
        Some(v) => eur_ok(v),
        None => true,
    }
}

/// Append a text.
fn put(out: &mut String, s: &str)
    ensures
        final(out)@ == old(out)@ + s@,
{
    out.append(s);
}

/// Append an amount as the CSV writes it.
fn put_eur(out: &mut String, v: Decimal)
    requires
        eur_ok(v),
    ensures
        final(out)@ == old(out)@ + eur_text(v),
{
    let t = format_eur(v);
    out.append(t.as_str());
}

fn put_date(out: &mut String, d: &Date)
    ensures
        final(out)@ == old(out)@ + dotted_text(*d),
{
    let t = d.dotted_text();
    out.append(t.as_str());
}

fn put_escaped(out: &mut String, s: &str)
    ensures
        final(out)@ == old(out)@ + escape_text(s@),
{
    let t = CsvFormatter::escape_csv(s);
    out.append(t.as_str());
}

fn put_note(out: &mut String, notes: &Option<String>, default: &str)
    ensures
        final(out)@ == old(out)@ + escape_text(note_text(*notes, default@)),
{
    match notes {
        Some(n) => put_escaped(out, n.as_str()),
        None => put_escaped(out, default),
    }
}

/// The CSV header row.
pub open spec fn header_after(p: Seq<char>) -> Seq<char> {
    p + "transaction_type,transaction_date,settle_date,symbol,isin,description,quantity,cost_basis_eur,proceeds_eur,gross_amount_eur,gross_gain_loss_eur,teilfreistellung_pct,taxable_amount_eur,foreign_tax_eur,abgeltungssteuer_eur,solidaritaetszuschlag_eur,kirchensteuer_eur,foreign_tax_credit_eur,total_tax_eur,net_tax_eur,notes\n"@
}

pub open spec fn capital_gain_row_after(p: Seq<char>, e: CapitalGainEntry) -> Seq<char> {
    p + "Capital Gain,"@ + dotted_text(e.transaction_date) + ","@ + dotted_text(e.settle_date)
        + ","@ + escape_text(e.symbol@) + ","@ + escape_text(e.isin@) + ","@ + escape_text(
        e.description@,
    ) + ","@ + eur_text(e.quantity) + ","@ + eur_text(e.cost_basis_eur) + ","@ + eur_text(
        e.proceeds_eur,
    ) + ",,"@ + eur_text(e.gross_gain_loss) + ","@ + eur_text(pct(e.teilfreistellung_rate))
        + ","@ + eur_text(e.taxable_amount) + ","@ + eur_text(e.foreign_tax) + ","@ + eur_text(
        e.abgeltungssteuer,
    ) + ","@ + eur_text(e.solidaritaetszuschlag) + ","@ + eur_text(e.kirchensteuer) + ","@
        + eur_text(Decimal::spec_zero()) + ","@ + eur_text(e.total_tax) + ","@ + eur_text(
        e.total_tax,
    ) + ","@ + escape_text(note_text(e.notes, ""@)) + "\n"@
}

pub open spec fn dividend_row_after(p: Seq<char>, e: DividendEntry) -> Seq<char> {
    p + "Dividend,"@ + dotted_text(e.payment_date) + ","@ + dotted_text(e.payment_date) + ","@
        + escape_text(e.symbol@) + ","@ + escape_text(e.isin@) + ","@ + escape_text(e.description@)
        + ",,,,"@ + eur_text(e.gross_amount_eur) + ",,"@ + eur_text(pct(e.teilfreistellung_rate))
        + ","@ + eur_text(e.taxable_amount) + ","@ + eur_text(e.foreign_withholding_tax) + ","@
        + eur_text(e.abgeltungssteuer) + ","@ + eur_text(e.solidaritaetszuschlag) + ","@ + eur_text(
        e.kirchensteuer,
    ) + ","@ + eur_text(e.foreign_tax_credit) + ","@ + eur_text(e.total_tax) + ","@ + eur_text(
        e.net_tax,
    ) + ","@ + escape_text(note_text(e.notes, ""@)) + "\n"@
}

pub open spec fn interest_row_after(p: Seq<char>, e: InterestEntry) -> Seq<char> {
    p + "Interest,"@ + dotted_text(e.payment_date) + ","@ + dotted_text(e.payment_date)
        + ",CASH,,"@ + escape_text(e.description@) + ",,,,"@ + eur_text(e.gross_amount_eur)
        + ",,0.00,"@ + eur_text(e.taxable_amount) + ","@ + eur_text(e.foreign_withholding_tax)
        + ","@ + eur_text(e.abgeltungssteuer) + ","@ + eur_text(e.solidaritaetszuschlag) + ","@
        + eur_text(e.kirchensteuer) + ","@ + eur_text(e.foreign_tax_credit) + ","@ + eur_text(
        e.total_tax,
    ) + ","@ + eur_text(e.net_tax) + ","@ + escape_text(note_text(e.notes, ""@)) + "\n"@
}

pub open spec fn fx_row_after(p: Seq<char>, e: FxGainEntry) -> Seq<char> {
    p + "FX Gain/Loss,"@ + dotted_text(e.transaction_date) + ","@ + dotted_text(
        e.transaction_date,
    ) + ","@ + escape_text(e.currency_pair@) + ",,"@ + escape_text(e.description@) + ",,,,"@
        + eur_text(e.gross_amount_eur) + ",,0.00,"@ + eur_text(e.taxable_amount) + ","@ + eur_text(
        Decimal::spec_zero(),
    ) + ","@ + eur_text(e.abgeltungssteuer) + ","@ + eur_text(e.solidaritaetszuschlag) + ","@
        + eur_text(e.kirchensteuer) + ","@ + eur_text(Decimal::spec_zero()) + ","@ + eur_text(
        e.total_tax,
    ) + ","@ + eur_text(e.total_tax) + ","@ + escape_text(note_text(e.notes, ""@)) + "\n"@
}

pub open spec fn fee_row_after(p: Seq<char>, e: FeeEntry) -> Seq<char> {
    p + "Fee/Deduction,"@ + dotted_text(e.date) + ","@ + dotted_text(e.date) + ",,,"@
        + escape_text(e.description@) + ",,,,,"@ + eur_text(e.amount_eur) + ",0.00,"@ + eur_text(
        Decimal::spec_zero(),
    ) + ",0.00,0.00,0.00,0.00,0.00,0.00,0.00,"@ + escape_text(
        note_text(e.notes, "Informational — not deductible under §20(9) EStG"@),
    ) + "\n"@
}

pub open spec fn stock_grant_row_after(p: Seq<char>, e: StockGrantEntry) -> Seq<char> {
    p + "Stock Grant (Employment Income),"@ + dotted_text(e.vest_date) + ","@ + dotted_text(
        e.vest_date,
    ) + ","@ + escape_text(e.symbol@) + ","@ + escape_text(e.isin@) + ",RSU/Stock Grant,"@
        + eur_text(e.quantity) + ",,,,,,"@ + eur_text(e.total_fmv_eur) + ",0.00,,,,0.00,,,"@
        + escape_text(
        note_text(e.notes, "Geldwerter Vorteil - declare as employment income (Anlage N)"@),
    ) + "\n"@
}

pub open spec fn cash_grant_row_after(p: Seq<char>, e: CashGrantEntry) -> Seq<char> {
    p + "Cash Grant (Other Income),"@ + dotted_text(e.date) + ","@ + dotted_text(e.date) + ",,,"@
        + escape_text(e.description@) + ",,,,,"@ + eur_text(e.amount_eur) + ",,"@ + eur_text(
        e.amount_eur,
    ) + ",0.00,,,,0.00,,,"@ + escape_text(
        note_text(e.notes, "Sonstige Einkünfte §22 EStG - taxable if >€256/year"@),
    ) + "\n"@
}

/// The tax impact cell of a corporate action: its amount, or nothing.
pub open spec fn impact_text(v: Option<Decimal>) -> Seq<char> {
    match v {
        Some(d) => eur_text(d),
        None => seq![],
    }
}

pub open spec fn corporate_action_row_after(p: Seq<char>, e: CorporateActionEntry) -> Seq<char> {
    p + "Corporate Action,"@ + dotted_text(e.date) + ","@ + dotted_text(e.date) + ","@
        + escape_text(e.symbol@) + ",,"@ + escape_text(
        action_label(e.action_type) + " - "@ + e.description@,
    ) + ",,,,,"@ + impact_text(e.tax_impact_eur) + ",,"@ + impact_text(e.tax_impact_eur)
        + ",0.00,0.00,0.00,0.00,0.00,0.00,0.00,"@ + escape_text(note_text(e.notes, ""@)) + "\n"@
}

/// A summary line: key and label, then the amount.
pub open spec fn value_line(p: Seq<char>, key_label: Seq<char>, v: Decimal) -> Seq<char> {
    p + key_label + eur_text(v) + "\n"@
}

pub open spec fn totals_block_after(p: Seq<char>, st: GermanTaxStatement) -> Seq<char> {
    let p = p + "\n"@
        + "# Summary tax is computed on the year's net taxable base after the §20(6) loss pots,\n"@
        + "# carryforward, and the Sparer-Pauschbetrag — NOT the sum of the per-row tax columns.\n"@
        + "summary_key,label,value_eur\n"@;
    let p = value_line(p, "SUMMARY_TOTAL_TAXABLE_INCOME,Total Taxable Income,"@, st.total_taxable_income);
    let p = value_line(p, "SUMMARY_TOTAL_FOREIGN_TAX,Total Foreign Tax Paid,"@, st.total_foreign_tax);
    let p = value_line(p, "SUMMARY_TOTAL_ABGELTUNGSSTEUER,Total Abgeltungssteuer,"@, st.total_abgeltungssteuer);
    let p = value_line(p, "SUMMARY_TOTAL_SOLIDARITAETSZUSCHLAG,Total Solidaritätszuschlag,"@, st.total_solidaritaetszuschlag);
    let p = value_line(p, "SUMMARY_TOTAL_KIRCHENSTEUER,Total Kirchensteuer,"@, st.total_kirchensteuer);
    let p = value_line(p, "SUMMARY_FX_GAINS,Total FX Gains,"@, st.total_fx_gains);
    let p = value_line(p, "SUMMARY_FX_LOSSES,Total FX Losses,"@, st.total_fx_losses);
    let p = value_line(p, "SUMMARY_TOTAL_FEES,Total Fees (informational — not deductible under §20(9) EStG),"@, st.total_fees);
    let p = value_line(p, "SUMMARY_TOTAL_GERMAN_TAX,Total German Tax,"@, st.total_german_tax);
    let p = value_line(p, "SUMMARY_FOREIGN_TAX_CREDIT,Foreign Tax Credit Applied,"@, st.total_foreign_tax_credit);
    let p = value_line(p, "SUMMARY_NET_TAX_DUE,Net German Tax Due,"@, st.net_tax_due);
    let p = value_line(p, "SUMMARY_SPARER_PAUSCHBETRAG,Sparer-Pauschbetrag applied,"@, st.sparer_pauschbetrag_used);
    let p = value_line(p, "SUMMARY_LOSS_CF_STOCK_NEXT,Stock loss carryforward to next year (§20(6) Aktien),"@, st.loss_carryforward_stock_next);
    value_line(p, "SUMMARY_LOSS_CF_GENERAL_NEXT,General loss carryforward to next year,"@, st.loss_carryforward_other_next)
}

pub open spec fn kap_block_after(p: Seq<char>, st: GermanTaxStatement) -> Seq<char> {
    let p = p + "\n"@ + "# ANLAGE KAP - German Tax Form Values (non-fund income)\n"@
        + "# Zeilen verified against the official Anlage KAP 2024 and 2025 (identical in both);\n"@
        + "# re-check them if you file a later year — see docs/germany-taxes.md.\n"@;
    let p = value_line(p, "KAP_ZEILE_19,Ausländische Kapitalerträge (net foreign capital income),"@, st.kap_zeile_19);
    let p = value_line(p, "KAP_ZEILE_20,Enthaltene Gewinne aus Aktienveräußerungen (contained share-sale gains),"@, st.kap_zeile_20);
    let p = value_line(p, "KAP_ZEILE_22,Enthaltene Verluste ohne Aktien (contained non-share losses),"@, st.kap_zeile_22);
    let p = value_line(p, "KAP_ZEILE_23,Enthaltene Verluste aus Aktienveräußerungen (contained share-sale losses),"@, st.kap_zeile_23);
    value_line(p, "KAP_ZEILE_41,Anrechenbare ausländische Steuer (Creditable Foreign Tax),"@, st.kap_zeile_41)
}

pub open spec fn group_empty(g: KapInvGroup) -> bool {
    g.distributions.units() == 0 && g.sale_gains.units() == 0 && g.sale_losses.units() == 0
}

/// The four KAP-INV lines of one fund-type group, where it has figures.
pub open spec fn group_lines_after(
    p: Seq<char>,
    key: Seq<char>,
    label: Seq<char>,
    rate: TeilfreistellungRate,
    g: KapInvGroup,
) -> Seq<char> {
    if group_empty(g) {
        p
    } else {
        let z = match spec_kap_inv_zeilen(rate) {
            Some(z) => z,
            None => (0u32, 0u32, 0u32),
        };
        let p = p + "KAP_INV_"@ + key + "_DISTRIBUTIONS,"@ + label + " — gross distributions (Zeile "@
            + int_text(z.0 as int) + "),"@ + eur_text(g.distributions) + "\n"@;
        let p = p + "KAP_INV_"@ + key + "_VERAEUSSERUNG,"@ + label + " — net sale gain/loss (Zeile "@
            + int_text(z.2 as int) + "),"@ + eur_text(g.sale_gains.spec_sub(g.sale_losses)) + "\n"@;
        let p = p + "KAP_INV_"@ + key + "_SALE_GAINS,"@ + label + " — gross sale gains (informational),"@
            + eur_text(g.sale_gains) + "\n"@;
        p + "KAP_INV_"@ + key + "_SALE_LOSSES,"@ + label + " — gross sale losses (informational),"@
            + eur_text(g.sale_losses) + "\n"@
    }
}

pub open spec fn kap_inv_after(p: Seq<char>, st: GermanTaxStatement) -> Seq<char> {
    if group_empty(st.kap_inv_equity) && group_empty(st.kap_inv_mixed) && group_empty(st.kap_inv_other) {
        p
    } else {
        let p = p + "\n"@
            + "# ANLAGE KAP-INV - Investment fund income. Enter these GROSS values; the tax office\n"@
            + "# applies the Teilfreistellung itself.\n"@
            + "# Zeilen verified against the official Anlage KAP-INV 2024 and 2025 (identical in both);\n"@
            + "# re-check them if you file a later year — see docs/germany-taxes.md.\n"@;
        let p = group_lines_after(p, "AKTIENFONDS"@, "Aktienfonds (equity 30% Teilfreistellung)"@,
            TeilfreistellungRate::Equity, st.kap_inv_equity);
        let p = group_lines_after(p, "MISCHFONDS"@, "Mischfonds (mixed 15% Teilfreistellung)"@,
            TeilfreistellungRate::Mixed, st.kap_inv_mixed);
        group_lines_after(p, "SONSTIGE"@, "Sonstige Fonds (bond/other 0% Teilfreistellung)"@,
            TeilfreistellungRate::Bond, st.kap_inv_other)
    }
}

/// A fund as the Vorabpauschale lines name it: `SYMBOL (ISIN)`, or the symbol alone.
pub open spec fn fund_name(e: VorabpauschaleEntry) -> Seq<char> {
    if e.isin@.len() == 0 {
        e.symbol@
    } else {
        e.symbol@ + " ("@ + e.isin@ + ")"@
    }
}

pub open spec fn vorabpauschale_zeile(rate: TeilfreistellungRate) -> int {
    match spec_kap_inv_zeilen(rate) {
        Some(z) => z.1 as int,
        None => 0,
    }
}

pub open spec fn vorabpauschale_lines_after(p: Seq<char>, e: VorabpauschaleEntry) -> Seq<char> {
    let p = p + "VORABPAUSCHALE_GROSS,"@ + escape_text(
        fund_name(e) + " — gross Vorabpauschale (KAP-INV Zeile "@ + int_text(
            vorabpauschale_zeile(e.teilfreistellung_rate),
        ) + ")"@,
    ) + ","@ + eur_text(e.gross_vorabpauschale) + "\n"@;
    let p = p + "VORABPAUSCHALE_TAXABLE,"@ + escape_text(e.symbol@ + " — taxable after Teilfreistellung"@)
        + ","@ + eur_text(e.taxable_amount) + "\n"@;
    let p = p + "VORABPAUSCHALE_TAX,"@ + escape_text(e.symbol@ + " — estimated tax (Abgelt.+Soli+KiSt)"@)
        + ","@ + eur_text(e.total_tax) + "\n"@;
    p + "VORABPAUSCHALE_CARRYFORWARD,"@ + escape_text(
        e.symbol@ + " — accumulated gross for next year's config"@,
    ) + ","@ + eur_text(e.accumulated_after) + "\n"@
}

pub open spec fn vorabpauschale_entries_after(p: Seq<char>, s: Seq<VorabpauschaleEntry>) -> Seq<char>
    decreases s.len(),
{
    if s.len() == 0 {
        p
    } else {
        vorabpauschale_lines_after(vorabpauschale_entries_after(p, s.drop_last()), s.last())
    }
}

/// Texts joined with `, `.
pub open spec fn joined(s: Seq<String>) -> Seq<char>
    decreases s.len(),
{
    if s.len() == 0 {
        seq![]
    } else if s.len() == 1 {
        s[0]@
    } else {
        joined(s.drop_last()) + ", "@ + s.last()@
    }
}

pub open spec fn vorabpauschale_after(p: Seq<char>, st: GermanTaxStatement) -> Seq<char> {
    let p = if st.vorabpauschale@.len() == 0 {
        p
    } else {
        let next_year = int_text(st.year + 1);
        let p = p + "\n"@
            + "# VORABPAUSCHALE (§18 InvStG) — advance lump-sum income of funds held at year end.\n"@
            + "# Deemed received on the first business day of "@ + next_year
            + "; declare it in the "@ + next_year
            + " return (Anlage KAP-INV, Vorabpauschale Zeilen 9/10/13 by fund type). Values in EUR.\n"@
            + "# The estimated tax below is a gross figure at the full rate; it ignores next year's Sparer-Pauschbetrag and any loss offset, so the actual liability may be lower.\n"@;
        let p = vorabpauschale_entries_after(p, st.vorabpauschale@);
        value_line(p, "VORABPAUSCHALE_TOTAL_TAX,Total estimated Vorabpauschale tax,"@, st.total_vorabpauschale_tax)
    };
    if st.vorabpauschale_missing_nav@.len() == 0 {
        p
    } else {
        p + "\n"@
            + "# WARNING: Vorabpauschale (§18 InvStG) NOT computed for year-end fund holdings without\n"@
            + "# configured NAVs: "@ + joined(st.vorabpauschale_missing_nav@)
            + ". Set taxes.fund_nav.<ISIN>."@ + int_text(st.year as int)
            + " (jan1/dec31) to include them.\n"@
    }
}

pub open spec fn short_lines_after(p: Seq<char>, s: Seq<(String, Decimal)>) -> Seq<char>
    decreases s.len(),
{
    if s.len() == 0 {
        p
    } else {
        short_lines_after(p, s.drop_last()) + "SHORT_POSITION,"@ + escape_text(
            s.last().0@ + " — open short quantity (manual review)"@,
        ) + ","@ + eur_text(s.last().1) + "\n"@
    }
}

pub open spec fn shorts_after(p: Seq<char>, st: GermanTaxStatement) -> Seq<char> {
    if st.short_positions@.len() == 0 {
        p
    } else {
        short_lines_after(
            p + "\n"@
                + "# SHORT POSITIONS — MANUAL §20 EStG REVIEW REQUIRED. No tax is computed for these.\n"@
                + "# Short sales / open written options are Termin-/Stillhaltergeschäfte; classify and declare them by hand (Anlage KAP). Quantities are negative (units still open at year end).\n"@,
            st.short_positions@,
        )
    }
}

pub open spec fn section23_empty(s: Section23) -> bool {
    &&& s.short_term_gains.units() == 0 && s.short_term_losses.units() == 0
    &&& s.long_term_tax_free.units() == 0 && s.borrowed_review.units() == 0
}

pub open spec fn section23_after(p: Seq<char>, st: GermanTaxStatement) -> Seq<char> {
    let s = st.section23;
    if section23_empty(s) {
        p
    } else {
        let p = p + "\n"@
            + "# ANLAGE SO (§23 EStG) — private Veräußerungsgeschäfte from a non-interest-bearing\n"@
            + "# foreign-currency account. No tax is computed: §23 income is taxed at your personal rate.\n"@;
        let p = value_line(p, "SECTION23_SHORT_TERM_GAIN,Veräußerungsgeschäfte gehalten ≤ 1 Jahr — Gewinn,"@, s.short_term_gains);
        let p = value_line(p, "SECTION23_SHORT_TERM_LOSS,Veräußerungsgeschäfte gehalten ≤ 1 Jahr — Verlust,"@, s.short_term_losses);
        let p = value_line(p, "SECTION23_SHORT_TERM_NET,Veräußerungsgeschäfte gehalten ≤ 1 Jahr — netto,"@,
            s.short_term_gains.spec_sub(s.short_term_losses));
        let p = p + "SECTION23_FREIGRENZE,Freigrenze "@ + int_text(st.year as int)
            + " (Gesamtgewinn ≤ Freigrenze → steuerfrei; sonst voll steuerpflichtig),"@ + eur_text(
            Decimal::spec_new(if st.year >= 2024 { 1000int } else { 600int }, 0),
        ) + "\n"@;
        let p = if s.long_term_tax_free.units() != 0 {
            value_line(p, "SECTION23_LONG_TERM_TAX_FREE,Steuerfrei (> 1 Jahr gehalten — Spekulationsfrist erfüllt),"@, s.long_term_tax_free)
        } else {
            p
        };
        if s.borrowed_review.units() != 0 {
            value_line(p, "SECTION23_BORROWED_REVIEW,Fremdwährungskredit-Realisierung — MANUAL REVIEW (§20-Ausnahme BMF 19.05.2022 Rz. 131 gilt nicht für §23),"@, s.borrowed_review)
        } else {
            p
        }
    }
}

pub open spec fn non_capital_after(p: Seq<char>, st: GermanTaxStatement) -> Seq<char> {
    let stock = st.total_stock_grant_income;
    let cash = st.total_cash_grant_income;
    if stock.units() > 0 || cash.units() > 0 {
        let p = p + "\n"@ + "# NON-CAPITAL INCOME (Not Abgeltungssteuer - requires separate declaration)\n"@;
        let p = if stock.units() > 0 {
            value_line(p, "EMPLOYMENT_INCOME_STOCK_GRANTS,Stock Grants (geldwerter Vorteil - Anlage N),"@, stock)
        } else {
            p
        };
        if cash.units() > 0 {
            let note = if cash.units() > 256 * unit() {
                " (TAXABLE - exceeds €256 threshold)"@
            } else {
                " (not taxable - below €256 threshold)"@
            };
            p + "OTHER_INCOME_CASH_GRANTS,Cash Grants (sonstige Einkünfte §22 EStG)"@ + note + ","@
                + eur_text(cash) + "\n"@
        } else {
            p
        }
    } else {
        p
    }
}

pub open spec fn non_taxable_after(p: Seq<char>, st: GermanTaxStatement) -> Seq<char> {
    if st.non_taxable_margin_fx.units() != 0 {
        value_line(
            p + "\n"@ + "# NON-TAXABLE AMOUNTS (Nicht steuerbar)\n"@,
            "NON_TAXABLE_MARGIN_FX,Tilgung Fremdwährungskredit / Margin Loan FX (nicht steuerbar),"@,
            st.non_taxable_margin_fx,
        )
    } else {
        p
    }
}

/// The summary block that follows the rows.
pub open spec fn summary_after(p: Seq<char>, st: GermanTaxStatement) -> Seq<char> {
    non_taxable_after(
        non_capital_after(
            section23_after(
                shorts_after(
                    vorabpauschale_after(kap_inv_after(kap_block_after(totals_block_after(p, st), st), st), st),
                    st,
                ),
                st,
            ),
            st,
        ),
        st,
    )
}

pub open spec fn capital_gain_rows_after(p: Seq<char>, s: Seq<CapitalGainEntry>) -> Seq<char>
    decreases s.len(),
{
    if s.len() == 0 {
        p
    } else {
        capital_gain_row_after(capital_gain_rows_after(p, s.drop_last()), s.last())
    }
}

pub open spec fn dividend_rows_after(p: Seq<char>, s: Seq<DividendEntry>) -> Seq<char>
    decreases s.len(),
{
    if s.len() == 0 {
        p
    } else {
        dividend_row_after(dividend_rows_after(p, s.drop_last()), s.last())
    }
}

pub open spec fn interest_rows_after(p: Seq<char>, s: Seq<InterestEntry>) -> Seq<char>
    decreases s.len(),
{
    if s.len() == 0 {
        p
    } else {
        interest_row_after(interest_rows_after(p, s.drop_last()), s.last())
    }
}

pub open spec fn fx_rows_after(p: Seq<char>, s: Seq<FxGainEntry>) -> Seq<char>
    decreases s.len(),
{
    if s.len() == 0 {
        p
    } else {
        fx_row_after(fx_rows_after(p, s.drop_last()), s.last())
    }
}

pub open spec fn fee_rows_after(p: Seq<char>, s: Seq<FeeEntry>) -> Seq<char>
    decreases s.len(),
{
    if s.len() == 0 {
        p
    } else {
        fee_row_after(fee_rows_after(p, s.drop_last()), s.last())
    }
}

pub open spec fn stock_grant_rows_after(p: Seq<char>, s: Seq<StockGrantEntry>) -> Seq<char>
    decreases s.len(),
{
    if s.len() == 0 {
        p
    } else {
        stock_grant_row_after(stock_grant_rows_after(p, s.drop_last()), s.last())
    }
}

pub open spec fn cash_grant_rows_after(p: Seq<char>, s: Seq<CashGrantEntry>) -> Seq<char>
    decreases s.len(),
{
    if s.len() == 0 {
        p
    } else {
        cash_grant_row_after(cash_grant_rows_after(p, s.drop_last()), s.last())
    }
}

pub open spec fn corporate_action_rows_after(p: Seq<char>, s: Seq<CorporateActionEntry>) -> Seq<char>
    decreases s.len(),
{
    if s.len() == 0 {
        p
    } else {
        corporate_action_row_after(corporate_action_rows_after(p, s.drop_last()), s.last())
    }
}

/// The whole CSV text of a statement: the header, the rows of each kind of entry in turn, and the
/// summary block.
pub open spec fn csv_text(st: GermanTaxStatement) -> Seq<char> {
    let p = header_after(seq![]);
    let p = capital_gain_rows_after(p, st.capital_gains@);
    let p = dividend_rows_after(p, st.dividends@);
    let p = interest_rows_after(p, st.interest@);
    let p = fx_rows_after(p, st.fx_gains@);
    let p = fee_rows_after(p, st.fees@);
    let p = stock_grant_rows_after(p, st.stock_grants@);
    let p = cash_grant_rows_after(p, st.cash_grants@);
    let p = corporate_action_rows_after(p, st.corporate_actions@);
    summary_after(p, st)
}

/// Fund-group figures the CSV takes: at most a trillion euros each.
pub open spec fn group_ok(g: KapInvGroup) -> bool {
    &&& -crate::decimal::quantity_bound() <= g.distributions.units() <= crate::decimal::quantity_bound()
    &&& -crate::decimal::quantity_bound() <= g.sale_gains.units() <= crate::decimal::quantity_bound()
    &&& -crate::decimal::quantity_bound() <= g.sale_losses.units() <= crate::decimal::quantity_bound()
}

pub open spec fn section23_ok(s: Section23) -> bool {
    &&& -crate::decimal::quantity_bound() <= s.short_term_gains.units() <= crate::decimal::quantity_bound()
    &&& -crate::decimal::quantity_bound() <= s.short_term_losses.units() <= crate::decimal::quantity_bound()
    &&& eur_ok(s.long_term_tax_free) && eur_ok(s.borrowed_review)
}

pub open spec fn vorabpauschale_ok(e: VorabpauschaleEntry) -> bool {
    eur_ok(e.gross_vorabpauschale) && eur_ok(e.taxable_amount) && eur_ok(e.total_tax)
        && eur_ok(e.accumulated_after)
}

/// What the CSV takes: every reported amount within 10^18 EUR (fund-group and §23 figures within a
/// trillion, so that their differences are too), and a year before the last one `i32` holds.
pub open spec fn csv_ok(st: GermanTaxStatement) -> bool {
    &&& forall|i: int| 0 <= i < st.capital_gains@.len() ==> capital_gain_ok(#[trigger] st.capital_gains@[i])
    &&& forall|i: int| 0 <= i < st.dividends@.len() ==> dividend_ok(#[trigger] st.dividends@[i])
    &&& forall|i: int| 0 <= i < st.interest@.len() ==> interest_ok(#[trigger] st.interest@[i])
    &&& forall|i: int| 0 <= i < st.fx_gains@.len() ==> fx_ok(#[trigger] st.fx_gains@[i])
    &&& forall|i: int| 0 <= i < st.fees@.len() ==> eur_ok(#[trigger] st.fees@[i].amount_eur)
    &&& forall|i: int| 0 <= i < st.stock_grants@.len() ==> eur_ok(#[trigger] st.stock_grants@[i].quantity)
        && eur_ok(st.stock_grants@[i].total_fmv_eur)
    &&& forall|i: int| 0 <= i < st.cash_grants@.len() ==> eur_ok(#[trigger] st.cash_grants@[i].amount_eur)
    &&& forall|i: int| 0 <= i < st.corporate_actions@.len() ==> corporate_action_ok(#[trigger] st.corporate_actions@[i])
    &&& forall|i: int| 0 <= i < st.vorabpauschale@.len() ==> vorabpauschale_ok(#[trigger] st.vorabpauschale@[i])
    &&& forall|i: int| 0 <= i < st.short_positions@.len() ==> eur_ok(#[trigger] st.short_positions@[i].1)
    &&& eur_ok(st.total_taxable_income) && eur_ok(st.total_foreign_tax)
    &&& eur_ok(st.total_abgeltungssteuer) && eur_ok(st.total_solidaritaetszuschlag)
    &&& eur_ok(st.total_kirchensteuer) && eur_ok(st.total_fx_gains) && eur_ok(st.total_fx_losses)
    &&& eur_ok(st.total_fees) && eur_ok(st.total_german_tax) && eur_ok(st.total_foreign_tax_credit)
    &&& eur_ok(st.net_tax_due) && eur_ok(st.sparer_pauschbetrag_used)
    &&& eur_ok(st.loss_carryforward_stock_next) && eur_ok(st.loss_carryforward_other_next)
    &&& eur_ok(st.kap_zeile_19) && eur_ok(st.kap_zeile_20) && eur_ok(st.kap_zeile_22)
    &&& eur_ok(st.kap_zeile_23) && eur_ok(st.kap_zeile_41)
    &&& eur_ok(st.total_vorabpauschale_tax) && eur_ok(st.total_stock_grant_income)
    &&& eur_ok(st.total_cash_grant_income) && eur_ok(st.non_taxable_margin_fx)
    &&& group_ok(st.kap_inv_equity) && group_ok(st.kap_inv_mixed) && group_ok(st.kap_inv_other)
    &&& section23_ok(st.section23)
    &&& st.year < i32::MAX
}

fn put_line(out: &mut String, key_label: &str, v: Decimal)
    requires
        eur_ok(v),
    ensures
        final(out)@ == value_line(old(out)@, key_label@, v),
{
    put(out, key_label);
    put_eur(out, v);
    put(out, "\n");
}

fn group_is_empty(g: &KapInvGroup) -> (r: bool)
    ensures
        r == group_empty(*g),
{
    g.distributions.is_zero() && g.sale_gains.is_zero() && g.sale_losses.is_zero()
}

fn put_group_lines(out: &mut String, key: &str, label: &str, rate: TeilfreistellungRate, g: &KapInvGroup)
    requires
        group_ok(*g),
    ensures
        final(out)@ == group_lines_after(old(out)@, key@, label@, rate, *g),
{
    if group_is_empty(g) {
        return;
    }
    let z = match kap_inv_zeilen(rate) {
        Some(z) => z,
        None => (0u32, 0u32, 0u32),
    };
    put(out, "KAP_INV_");
    put(out, key);
    put(out, "_DISTRIBUTIONS,");
    put(out, label);
    put(out, " — gross distributions (Zeile ");
    push_int(out, z.0 as i64);
    put(out, "),");
    put_eur(out, g.distributions);
    put(out, "\n");
    let net = g.sale_gains.sub(&g.sale_losses);
    put(out, "KAP_INV_");
    put(out, key);
    put(out, "_VERAEUSSERUNG,");
    put(out, label);
    put(out, " — net sale gain/loss (Zeile ");
    push_int(out, z.2 as i64);
    put(out, "),");
    put_eur(out, net);
    put(out, "\n");
    put(out, "KAP_INV_");
    put(out, key);
    put(out, "_SALE_GAINS,");
    put(out, label);
    put(out, " — gross sale gains (informational),");
    put_eur(out, g.sale_gains);
    put(out, "\n");
    put(out, "KAP_INV_");
    put(out, key);
    put(out, "_SALE_LOSSES,");
    put(out, label);
    put(out, " — gross sale losses (informational),");
    put_eur(out, g.sale_losses);
    put(out, "\n");
}

fn put_vorabpauschale_lines(out: &mut String, e: &VorabpauschaleEntry)
    requires
        vorabpauschale_ok(*e),
    ensures
        final(out)@ == vorabpauschale_lines_after(old(out)@, *e),
{
    let mut who = <String as StringExecFns>::from_str(e.symbol.as_str());
    if e.isin.unicode_len() != 0 {
        who.append(" (");
        who.append(e.isin.as_str());
        who.append(")");
    }
    let zeile: u32 = match kap_inv_zeilen(e.teilfreistellung_rate) {
        Some(z) => z.1,
        None => 0,
    };
    who.append(" — gross Vorabpauschale (KAP-INV Zeile ");
    push_int(&mut who, zeile as i64);
    who.append(")");
    put(out, "VORABPAUSCHALE_GROSS,");
    put_escaped(out, who.as_str());
    put(out, ",");
    put_eur(out, e.gross_vorabpauschale);
    put(out, "\n");
    let mut label = <String as StringExecFns>::from_str(e.symbol.as_str());
    label.append(" — taxable after Teilfreistellung");
    put(out, "VORABPAUSCHALE_TAXABLE,");
    put_escaped(out, label.as_str());
    put(out, ",");
    put_eur(out, e.taxable_amount);
    put(out, "\n");
    let mut label = <String as StringExecFns>::from_str(e.symbol.as_str());
    label.append(" — estimated tax (Abgelt.+Soli+KiSt)");
    put(out, "VORABPAUSCHALE_TAX,");
    put_escaped(out, label.as_str());
    put(out, ",");
    put_eur(out, e.total_tax);
    put(out, "\n");
    let mut label = <String as StringExecFns>::from_str(e.symbol.as_str());
    label.append(" — accumulated gross for next year's config");
    put(out, "VORABPAUSCHALE_CARRYFORWARD,");
    put_escaped(out, label.as_str());
    put(out, ",");
    put_eur(out, e.accumulated_after);
    put(out, "\n");
}

fn put_joined(out: &mut String, items: &Vec<String>)
    ensures
        final(out)@ == old(out)@ + joined(items@),
{
    let ghost start = out@;
    let mut i: usize = 0;
    while i < items.len()
        invariant
            i <= items@.len(),
            out@ == start + joined(items@.take(i as int)),
        decreases items@.len() - i,
    {
        proof {
            assert(items@.take(i + 1).drop_last() =~= items@.take(i as int));
        }
        if i > 0 {
            put(out, ", ");
        }
        put(out, items[i].as_str());
        proof {
            if i == 0 {
                assert(joined(items@.take(1)) == items@.take(1)[0]@);
                assert(out@ =~= start + joined(items@.take(1)));
            } else {
                assert(out@ =~= start + joined(items@.take(i + 1)));
            }
        }
        i = i + 1;
    }
    proof {
        assert(items@.take(i as int) =~= items@);
    }
}

/// CSV formatter for German tax statements.
pub struct CsvFormatter;

impl CsvFormatter {
    /// A CSV cell of a text: quoted, with its quotes doubled, where it holds a comma, a quote or a
    /// line break.
    pub fn escape_csv(value: &str) -> (r: String)
        ensures
            r@ == escape_text(value@),
    {
        let n = value.unicode_len();
        let mut special = false;
        let mut i: usize = 0;
        while i < n
            invariant
                n == value@.len(),
                i <= n,
                special == exists|j: int| 0 <= j < i && is_special(#[trigger] value@[j]),
            decreases n - i,
        {
            let c = value.get_char(i);
            if c == ',' || c == '"' || c == '\n' {
                special = true;
            }
            i = i + 1;
        }
        if !special {
            return <String as StringExecFns>::from_str(value);
        }
        let mut out = String::new();
        push_char(&mut out, '"');
        let mut k: usize = 0;
        while k < n
            invariant
                n == value@.len(),
                k <= n,
                out@ == seq!['"'] + doubled_quotes(value@.take(k as int)),
            decreases n - k,
        {
            let c = value.get_char(k);
            proof {
                assert(value@.take(k + 1).drop_last() =~= value@.take(k as int));
            }
            if c == '"' {
                push_char(&mut out, '"');
                push_char(&mut out, '"');
                assert(out@ =~= seq!['"'] + doubled_quotes(value@.take(k + 1)));
            } else {
                push_char(&mut out, c);
                assert(out@ =~= seq!['"'] + doubled_quotes(value@.take(k + 1)));
            }
            k = k + 1;
        }
        push_char(&mut out, '"');
        proof {
            assert(value@.take(n as int) =~= value@);
        }
        out
    }

    /// Round a reported figure to two places, halves away from zero (`0.518` → `0.52`).
    pub fn format_decimal(value: Decimal) -> (r: String)
        requires
            eur_ok(value),
        ensures
            r@ == eur_text(value),
    {
        format_eur(value)
    }

    /// Append the header row.
    pub fn write_header(out: &mut String)
        ensures
            final(out)@ == header_after(old(out)@),
    {
        put(
            out,
            "transaction_type,transaction_date,settle_date,symbol,isin,description,quantity,cost_basis_eur,proceeds_eur,gross_amount_eur,gross_gain_loss_eur,teilfreistellung_pct,taxable_amount_eur,foreign_tax_eur,abgeltungssteuer_eur,solidaritaetszuschlag_eur,kirchensteuer_eur,foreign_tax_credit_eur,total_tax_eur,net_tax_eur,notes\n",
        );
    }

    /// Append the row of a capital gain.
    pub fn write_capital_gain_row(out: &mut String, e: &CapitalGainEntry)
        requires
            capital_gain_ok(*e),
        ensures
            final(out)@ == capital_gain_row_after(old(out)@, *e),
    {
        put(out, "Capital Gain,");
        put_date(out, &e.transaction_date);
        put(out, ",");
        put_date(out, &e.settle_date);
        put(out, ",");
        put_escaped(out, e.symbol.as_str());
        put(out, ",");
        put_escaped(out, e.isin.as_str());
        put(out, ",");
        put_escaped(out, e.description.as_str());
        put(out, ",");
        put_eur(out, e.quantity);
        put(out, ",");
        put_eur(out, e.cost_basis_eur);
        put(out, ",");
        put_eur(out, e.proceeds_eur);
        put(out, ",,");
        put_eur(out, e.gross_gain_loss);
        put(out, ",");
        put_eur(out, pct_of(e.teilfreistellung_rate));
        put(out, ",");
        put_eur(out, e.taxable_amount);
        put(out, ",");
        put_eur(out, e.foreign_tax);
        put(out, ",");
        put_eur(out, e.abgeltungssteuer);
        put(out, ",");
        put_eur(out, e.solidaritaetszuschlag);
        put(out, ",");
        put_eur(out, e.kirchensteuer);
        put(out, ",");
        put_eur(out, Decimal::zero());
        put(out, ",");
        put_eur(out, e.total_tax);
        put(out, ",");
        put_eur(out, e.total_tax);
        put(out, ",");
        put_note(out, &e.notes, "");
        put(out, "\n");
    }

    /// Append the row of a dividend. It carries no share quantity: that cell stays empty.
    pub fn write_dividend_row(out: &mut String, e: &DividendEntry)
        requires
            dividend_ok(*e),
        ensures
            final(out)@ == dividend_row_after(old(out)@, *e),
    {
        put(out, "Dividend,");
        put_date(out, &e.payment_date);
        put(out, ",");
        put_date(out, &e.payment_date);
        put(out, ",");
        put_escaped(out, e.symbol.as_str());
        put(out, ",");
        put_escaped(out, e.isin.as_str());
        put(out, ",");
        put_escaped(out, e.description.as_str());
        put(out, ",,,,");
        put_eur(out, e.gross_amount_eur);
        put(out, ",,");
        put_eur(out, pct_of(e.teilfreistellung_rate));
        put(out, ",");
        put_eur(out, e.taxable_amount);
        put(out, ",");
        put_eur(out, e.foreign_withholding_tax);
        put(out, ",");
        put_eur(out, e.abgeltungssteuer);
        put(out, ",");
        put_eur(out, e.solidaritaetszuschlag);
        put(out, ",");
        put_eur(out, e.kirchensteuer);
        put(out, ",");
        put_eur(out, e.foreign_tax_credit);
        put(out, ",");
        put_eur(out, e.total_tax);
        put(out, ",");
        put_eur(out, e.net_tax);
        put(out, ",");
        put_note(out, &e.notes, "");
        put(out, "\n");
    }

    /// Append the row of an interest payment.
    pub fn write_interest_row(out: &mut String, e: &InterestEntry)
        requires
            interest_ok(*e),
        ensures
            final(out)@ == interest_row_after(old(out)@, *e),
    {
        put(out, "Interest,");
        put_date(out, &e.payment_date);
        put(out, ",");
        put_date(out, &e.payment_date);
        put(out, ",CASH,,");
        put_escaped(out, e.description.as_str());
        put(out, ",,,,");
        put_eur(out, e.gross_amount_eur);
        put(out, ",,0.00,");
        put_eur(out, e.taxable_amount);
        put(out, ",");
        put_eur(out, e.foreign_withholding_tax);
        put(out, ",");
        put_eur(out, e.abgeltungssteuer);
        put(out, ",");
        put_eur(out, e.solidaritaetszuschlag);
        put(out, ",");
        put_eur(out, e.kirchensteuer);
        put(out, ",");
        put_eur(out, e.foreign_tax_credit);
        put(out, ",");
        put_eur(out, e.total_tax);
        put(out, ",");
        put_eur(out, e.net_tax);
        put(out, ",");
        put_note(out, &e.notes, "");
        put(out, "\n");
    }

    /// Append the row of an FX gain or loss.
    pub fn write_fx_gain_row(out: &mut String, e: &FxGainEntry)
        requires
            fx_ok(*e),
        ensures
            final(out)@ == fx_row_after(old(out)@, *e),
    {
        put(out, "FX Gain/Loss,");
        put_date(out, &e.transaction_date);
        put(out, ",");
        put_date(out, &e.transaction_date);
        put(out, ",");
        put_escaped(out, e.currency_pair.as_str());
        put(out, ",,");
        put_escaped(out, e.description.as_str());
        put(out, ",,,,");
        put_eur(out, e.gross_amount_eur);
        put(out, ",,0.00,");
        put_eur(out, e.taxable_amount);
        put(out, ",");
        put_eur(out, Decimal::zero());
        put(out, ",");
        put_eur(out, e.abgeltungssteuer);
        put(out, ",");
        put_eur(out, e.solidaritaetszuschlag);
        put(out, ",");
        put_eur(out, e.kirchensteuer);
        put(out, ",");
        put_eur(out, Decimal::zero());
        put(out, ",");
        put_eur(out, e.total_tax);
        put(out, ",");
        put_eur(out, e.total_tax);
        put(out, ",");
        put_note(out, &e.notes, "");
        put(out, "\n");
    }

    /// Append the row of a fee: reported, its taxable amount zero (§20(9) EStG).
    pub fn write_fee_row(out: &mut String, e: &FeeEntry)
        requires
            eur_ok(e.amount_eur),
        ensures
            final(out)@ == fee_row_after(old(out)@, *e),
    {
        put(out, "Fee/Deduction,");
        put_date(out, &e.date);
        put(out, ",");
        put_date(out, &e.date);
        put(out, ",,,");
        put_escaped(out, e.description.as_str());
        put(out, ",,,,,");
        put_eur(out, e.amount_eur);
        put(out, ",0.00,");
        put_eur(out, Decimal::zero());
        put(out, ",0.00,0.00,0.00,0.00,0.00,0.00,0.00,");
        put_note(out, &e.notes, "Informational — not deductible under §20(9) EStG");
        put(out, "\n");
    }

    /// Append the row of a stock grant: employment income, declared separately.
    pub fn write_stock_grant_row(out: &mut String, e: &StockGrantEntry)
        requires
            eur_ok(e.quantity),
            eur_ok(e.total_fmv_eur),
        ensures
            final(out)@ == stock_grant_row_after(old(out)@, *e),
    {
        put(out, "Stock Grant (Employment Income),");
        put_date(out, &e.vest_date);
        put(out, ",");
        put_date(out, &e.vest_date);
        put(out, ",");
        put_escaped(out, e.symbol.as_str());
        put(out, ",");
        put_escaped(out, e.isin.as_str());
        put(out, ",RSU/Stock Grant,");
        put_eur(out, e.quantity);
        put(out, ",,,,,,");
        put_eur(out, e.total_fmv_eur);
        put(out, ",0.00,,,,0.00,,,");
        put_note(out, &e.notes, "Geldwerter Vorteil - declare as employment income (Anlage N)");
        put(out, "\n");
    }

    /// Append the row of a cash grant: other income, declared separately.
    pub fn write_cash_grant_row(out: &mut String, e: &CashGrantEntry)
        requires
            eur_ok(e.amount_eur),
        ensures
            final(out)@ == cash_grant_row_after(old(out)@, *e),
    {
        put(out, "Cash Grant (Other Income),");
        put_date(out, &e.date);
        put(out, ",");
        put_date(out, &e.date);
        put(out, ",,,");
        put_escaped(out, e.description.as_str());
        put(out, ",,,,,");
        put_eur(out, e.amount_eur);
        put(out, ",,");
        put_eur(out, e.amount_eur);
        put(out, ",0.00,,,,0.00,,,");
        put_note(out, &e.notes, "Sonstige Einkünfte §22 EStG - taxable if >€256/year");
        put(out, "\n");
    }

    /// Append the row of a corporate action, its type and description escaped as one cell.
    pub fn write_corporate_action_row(out: &mut String, e: &CorporateActionEntry)
        requires
            corporate_action_ok(*e),
        ensures
            final(out)@ == corporate_action_row_after(old(out)@, *e),
    {
        let mut cell = e.action_type.label();
        cell.append(" - ");
        cell.append(e.description.as_str());
        put(out, "Corporate Action,");
        put_date(out, &e.date);
        put(out, ",");
        put_date(out, &e.date);
        put(out, ",");
        put_escaped(out, e.symbol.as_str());
        put(out, ",,");
        put_escaped(out, cell.as_str());
        put(out, ",,,,,");
        match e.tax_impact_eur {
            Some(v) => put_eur(out, v),
            None => {},
        }
        put(out, ",,");
        match e.tax_impact_eur {
            Some(v) => put_eur(out, v),
            None => {},
        }
        put(out, ",0.00,0.00,0.00,0.00,0.00,0.00,0.00,");
        put_note(out, &e.notes, "");
        put(out, "\n");
    }
    /// Append the summary block: the year's totals, Anlage KAP, KAP-INV, Vorabpauschale, short
    /// positions, Anlage SO, non-capital and non-taxable amounts.
    pub fn write_summary_rows(out: &mut String, st: &GermanTaxStatement)
        requires
            csv_ok(*st),
        ensures
            final(out)@ == summary_after(old(out)@, *st),
    {
        put(out, "\n");
        put(out, "# Summary tax is computed on the year's net taxable base after the §20(6) loss pots,\n");
        put(out, "# carryforward, and the Sparer-Pauschbetrag — NOT the sum of the per-row tax columns.\n");
        put(out, "summary_key,label,value_eur\n");
        put_line(out, "SUMMARY_TOTAL_TAXABLE_INCOME,Total Taxable Income,", st.total_taxable_income);
        put_line(out, "SUMMARY_TOTAL_FOREIGN_TAX,Total Foreign Tax Paid,", st.total_foreign_tax);
        put_line(out, "SUMMARY_TOTAL_ABGELTUNGSSTEUER,Total Abgeltungssteuer,", st.total_abgeltungssteuer);
        put_line(out, "SUMMARY_TOTAL_SOLIDARITAETSZUSCHLAG,Total Solidaritätszuschlag,", st.total_solidaritaetszuschlag);
        put_line(out, "SUMMARY_TOTAL_KIRCHENSTEUER,Total Kirchensteuer,", st.total_kirchensteuer);
        put_line(out, "SUMMARY_FX_GAINS,Total FX Gains,", st.total_fx_gains);
        put_line(out, "SUMMARY_FX_LOSSES,Total FX Losses,", st.total_fx_losses);
        put_line(out, "SUMMARY_TOTAL_FEES,Total Fees (informational — not deductible under §20(9) EStG),", st.total_fees);
        put_line(out, "SUMMARY_TOTAL_GERMAN_TAX,Total German Tax,", st.total_german_tax);
        put_line(out, "SUMMARY_FOREIGN_TAX_CREDIT,Foreign Tax Credit Applied,", st.total_foreign_tax_credit);
        put_line(out, "SUMMARY_NET_TAX_DUE,Net German Tax Due,", st.net_tax_due);
        put_line(out, "SUMMARY_SPARER_PAUSCHBETRAG,Sparer-Pauschbetrag applied,", st.sparer_pauschbetrag_used);
        put_line(out, "SUMMARY_LOSS_CF_STOCK_NEXT,Stock loss carryforward to next year (§20(6) Aktien),", st.loss_carryforward_stock_next);
        put_line(out, "SUMMARY_LOSS_CF_GENERAL_NEXT,General loss carryforward to next year,", st.loss_carryforward_other_next);
        put(out, "\n");
        put(out, "# ANLAGE KAP - German Tax Form Values (non-fund income)\n");
        put(out, "# Zeilen verified against the official Anlage KAP 2024 and 2025 (identical in both);\n");
        put(out, "# re-check them if you file a later year — see docs/germany-taxes.md.\n");
        put_line(out, "KAP_ZEILE_19,Ausländische Kapitalerträge (net foreign capital income),", st.kap_zeile_19);
        put_line(out, "KAP_ZEILE_20,Enthaltene Gewinne aus Aktienveräußerungen (contained share-sale gains),", st.kap_zeile_20);
        put_line(out, "KAP_ZEILE_22,Enthaltene Verluste ohne Aktien (contained non-share losses),", st.kap_zeile_22);
        put_line(out, "KAP_ZEILE_23,Enthaltene Verluste aus Aktienveräußerungen (contained share-sale losses),", st.kap_zeile_23);
        put_line(out, "KAP_ZEILE_41,Anrechenbare ausländische Steuer (Creditable Foreign Tax),", st.kap_zeile_41);
        Self::write_kap_inv_section(out, st);
        Self::write_vorabpauschale(out, st);
        Self::write_short_positions(out, st);
        Self::write_section23(out, st);
        let zero = Decimal::zero();
        let stock = st.total_stock_grant_income;
        let cash = st.total_cash_grant_income;
        if zero.lt(&stock) || zero.lt(&cash) {
            put(out, "\n");
            put(out, "# NON-CAPITAL INCOME (Not Abgeltungssteuer - requires separate declaration)\n");
            if zero.lt(&stock) {
                put_line(out, "EMPLOYMENT_INCOME_STOCK_GRANTS,Stock Grants (geldwerter Vorteil - Anlage N),", stock);
            }
            if zero.lt(&cash) {
                let threshold = Decimal::new(256, 0);
                proof {
                    crate::decimal::lemma_pow10_28();
                }
                put(out, "OTHER_INCOME_CASH_GRANTS,Cash Grants (sonstige Einkünfte §22 EStG)");
                if threshold.lt(&cash) {
                    put(out, " (TAXABLE - exceeds €256 threshold)");
                } else {
                    put(out, " (not taxable - below €256 threshold)");
                }
                put(out, ",");
                put_eur(out, cash);
                put(out, "\n");
            }
        }
        if !st.non_taxable_margin_fx.is_zero() {
            put(out, "\n");
            put(out, "# NON-TAXABLE AMOUNTS (Nicht steuerbar)\n");
            put_line(out, "NON_TAXABLE_MARGIN_FX,Tilgung Fremdwährungskredit / Margin Loan FX (nicht steuerbar),", st.non_taxable_margin_fx);
        }
    }

    /// Append the Anlage KAP-INV section: gross figures of each fund type that has any.
    pub fn write_kap_inv_section(out: &mut String, st: &GermanTaxStatement)
        requires
            group_ok(st.kap_inv_equity),
            group_ok(st.kap_inv_mixed),
            group_ok(st.kap_inv_other),
        ensures
            final(out)@ == kap_inv_after(old(out)@, *st),
    {
        if group_is_empty(&st.kap_inv_equity) && group_is_empty(&st.kap_inv_mixed)
            && group_is_empty(&st.kap_inv_other) {
            return;
        }
        put(out, "\n");
        put(out, "# ANLAGE KAP-INV - Investment fund income. Enter these GROSS values; the tax office\n");
        put(out, "# applies the Teilfreistellung itself.\n");
        put(out, "# Zeilen verified against the official Anlage KAP-INV 2024 and 2025 (identical in both);\n");
        put(out, "# re-check them if you file a later year — see docs/germany-taxes.md.\n");
        put_group_lines(out, "AKTIENFONDS", "Aktienfonds (equity 30% Teilfreistellung)",
            TeilfreistellungRate::Equity, &st.kap_inv_equity);
        put_group_lines(out, "MISCHFONDS", "Mischfonds (mixed 15% Teilfreistellung)",
            TeilfreistellungRate::Mixed, &st.kap_inv_mixed);
        put_group_lines(out, "SONSTIGE", "Sonstige Fonds (bond/other 0% Teilfreistellung)",
            TeilfreistellungRate::Bond, &st.kap_inv_other);
    }

    /// Append the Vorabpauschale section (next year's income) and the warning about funds without
    /// configured NAVs.
    pub fn write_vorabpauschale(out: &mut String, st: &GermanTaxStatement)
        requires
            forall|i: int| 0 <= i < st.vorabpauschale@.len() ==> vorabpauschale_ok(#[trigger] st.vorabpauschale@[i]),
            eur_ok(st.total_vorabpauschale_tax),
            st.year < i32::MAX,
        ensures
            final(out)@ == vorabpauschale_after(old(out)@, *st),
    {
        if st.vorabpauschale.len() != 0 {
            let next_year = st.year + 1;
            put(out, "\n");
            put(out, "# VORABPAUSCHALE (§18 InvStG) — advance lump-sum income of funds held at year end.\n");
            put(out, "# Deemed received on the first business day of ");
            push_int(out, next_year as i64);
            put(out, "; declare it in the ");
            push_int(out, next_year as i64);
            put(out, " return (Anlage KAP-INV, Vorabpauschale Zeilen 9/10/13 by fund type). Values in EUR.\n");
            put(out, "# The estimated tax below is a gross figure at the full rate; it ignores next year's Sparer-Pauschbetrag and any loss offset, so the actual liability may be lower.\n");
            let ghost start = out@;
            let mut i: usize = 0;
            while i < st.vorabpauschale.len()
                invariant
                    i <= st.vorabpauschale@.len(),
                    out@ == vorabpauschale_entries_after(start, st.vorabpauschale@.take(i as int)),
                    forall|j: int| 0 <= j < st.vorabpauschale@.len() ==> vorabpauschale_ok(#[trigger] st.vorabpauschale@[j]),
                decreases st.vorabpauschale@.len() - i,
            {
                proof {
                    assert(st.vorabpauschale@.take(i + 1).drop_last() =~= st.vorabpauschale@.take(i as int));
                }
                put_vorabpauschale_lines(out, &st.vorabpauschale[i]);
                i = i + 1;
            }
            proof {
                assert(st.vorabpauschale@.take(i as int) =~= st.vorabpauschale@);
            }
            put_line(out, "VORABPAUSCHALE_TOTAL_TAX,Total estimated Vorabpauschale tax,", st.total_vorabpauschale_tax);
        }
        if st.vorabpauschale_missing_nav.len() != 0 {
            put(out, "\n");
            put(out, "# WARNING: Vorabpauschale (§18 InvStG) NOT computed for year-end fund holdings without\n");
            put(out, "# configured NAVs: ");
            put_joined(out, &st.vorabpauschale_missing_nav);
            put(out, ". Set taxes.fund_nav.<ISIN>.");
            push_int(out, st.year as i64);
            put(out, " (jan1/dec31) to include them.\n");
        }
    }

    /// Append the short positions for manual review, where there are any.
    pub fn write_short_positions(out: &mut String, st: &GermanTaxStatement)
        requires
            forall|i: int| 0 <= i < st.short_positions@.len() ==> eur_ok(#[trigger] st.short_positions@[i].1),
        ensures
            final(out)@ == shorts_after(old(out)@, *st),
    {
        if st.short_positions.len() == 0 {
            return;
        }
        put(out, "\n");
        put(out, "# SHORT POSITIONS — MANUAL §20 EStG REVIEW REQUIRED. No tax is computed for these.\n");
        put(out, "# Short sales / open written options are Termin-/Stillhaltergeschäfte; classify and declare them by hand (Anlage KAP). Quantities are negative (units still open at year end).\n");
        let ghost start = out@;
        let mut i: usize = 0;
        while i < st.short_positions.len()
            invariant
                i <= st.short_positions@.len(),
                out@ == short_lines_after(start, st.short_positions@.take(i as int)),
                forall|j: int| 0 <= j < st.short_positions@.len() ==> eur_ok(#[trigger] st.short_positions@[j].1),
            decreases st.short_positions@.len() - i,
        {
            proof {
                assert(st.short_positions@.take(i + 1).drop_last() =~= st.short_positions@.take(i as int));
            }
            let (symbol, quantity) = &st.short_positions[i];
            let mut label = <String as StringExecFns>::from_str(symbol.as_str());
            label.append(" — open short quantity (manual review)");
            put(out, "SHORT_POSITION,");
            put_escaped(out, label.as_str());
            put(out, ",");
            put_eur(out, *quantity);
            put(out, "\n");
            i = i + 1;
        }
        proof {
            assert(st.short_positions@.take(i as int) =~= st.short_positions@);
        }
    }

    /// Append the Anlage SO (§23 EStG) figures of a non-interest-bearing currency account, where
    /// there are any. No tax is computed for them.
    pub fn write_section23(out: &mut String, st: &GermanTaxStatement)
        requires
            section23_ok(st.section23),
        ensures
            final(out)@ == section23_after(old(out)@, *st),
    {
        let s = &st.section23;
        if s.is_empty() {
            return;
        }
        put(out, "\n");
        put(out, "# ANLAGE SO (§23 EStG) — private Veräußerungsgeschäfte from a non-interest-bearing\n");
        put(out, "# foreign-currency account. No tax is computed: §23 income is taxed at your personal rate.\n");
        put_line(out, "SECTION23_SHORT_TERM_GAIN,Veräußerungsgeschäfte gehalten ≤ 1 Jahr — Gewinn,", s.short_term_gains);
        put_line(out, "SECTION23_SHORT_TERM_LOSS,Veräußerungsgeschäfte gehalten ≤ 1 Jahr — Verlust,", s.short_term_losses);
        put_line(out, "SECTION23_SHORT_TERM_NET,Veräußerungsgeschäfte gehalten ≤ 1 Jahr — netto,", s.short_term_net());
        put(out, "SECTION23_FREIGRENZE,Freigrenze ");
        push_int(out, st.year as i64);
        put(out, " (Gesamtgewinn ≤ Freigrenze → steuerfrei; sonst voll steuerpflichtig),");
        put_eur(out, Section23::freigrenze(st.year));
        put(out, "\n");
        if !s.long_term_tax_free.is_zero() {
            put_line(out, "SECTION23_LONG_TERM_TAX_FREE,Steuerfrei (> 1 Jahr gehalten — Spekulationsfrist erfüllt),", s.long_term_tax_free);
        }
        if !s.borrowed_review.is_zero() {
            put_line(out, "SECTION23_BORROWED_REVIEW,Fremdwährungskredit-Realisierung — MANUAL REVIEW (§20-Ausnahme BMF 19.05.2022 Rz. 131 gilt nicht für §23),", s.borrowed_review);
        }
    }

    /// The complete CSV text of the statement: the header, one row per entry, the summary block.
    pub fn write(st: &GermanTaxStatement) -> (r: String)
        requires
            csv_ok(*st),
        ensures
            r@ == csv_text(*st),
    {
        let mut out = String::new();
        Self::write_header(&mut out);
        let ghost p0 = out@;
        let mut i: usize = 0;
        while i < st.capital_gains.len()
            invariant
                i <= st.capital_gains@.len(),
                out@ == capital_gain_rows_after(p0, st.capital_gains@.take(i as int)),
                csv_ok(*st),
            decreases st.capital_gains@.len() - i,
        {
            proof {
                assert(st.capital_gains@.take(i + 1).drop_last() =~= st.capital_gains@.take(i as int));
            }
            Self::write_capital_gain_row(&mut out, &st.capital_gains[i]);
            i = i + 1;
        }
        proof {
            assert(st.capital_gains@.take(i as int) =~= st.capital_gains@);
        }
        let ghost p1 = out@;
        let mut i: usize = 0;
        while i < st.dividends.len()
            invariant
                i <= st.dividends@.len(),
                out@ == dividend_rows_after(p1, st.dividends@.take(i as int)),
                csv_ok(*st),
            decreases st.dividends@.len() - i,
        {
            proof {
                assert(st.dividends@.take(i + 1).drop_last() =~= st.dividends@.take(i as int));
            }
            Self::write_dividend_row(&mut out, &st.dividends[i]);
            i = i + 1;
        }
        proof {
            assert(st.dividends@.take(i as int) =~= st.dividends@);
        }
        let ghost p2 = out@;
        let mut i: usize = 0;
        while i < st.interest.len()
            invariant
                i <= st.interest@.len(),
                out@ == interest_rows_after(p2, st.interest@.take(i as int)),
                csv_ok(*st),
            decreases st.interest@.len() - i,
        {
            proof {
                assert(st.interest@.take(i + 1).drop_last() =~= st.interest@.take(i as int));
            }
            Self::write_interest_row(&mut out, &st.interest[i]);
            i = i + 1;
        }
        proof {
            assert(st.interest@.take(i as int) =~= st.interest@);
        }
        let ghost p3 = out@;
        let mut i: usize = 0;
        while i < st.fx_gains.len()
            invariant
                i <= st.fx_gains@.len(),
                out@ == fx_rows_after(p3, st.fx_gains@.take(i as int)),
                csv_ok(*st),
            decreases st.fx_gains@.len() - i,
        {
            proof {
                assert(st.fx_gains@.take(i + 1).drop_last() =~= st.fx_gains@.take(i as int));
            }
            Self::write_fx_gain_row(&mut out, &st.fx_gains[i]);
            i = i + 1;
        }
        proof {
            assert(st.fx_gains@.take(i as int) =~= st.fx_gains@);
        }
        let ghost p4 = out@;
        let mut i: usize = 0;
        while i < st.fees.len()
            invariant
                i <= st.fees@.len(),
                out@ == fee_rows_after(p4, st.fees@.take(i as int)),
                csv_ok(*st),
            decreases st.fees@.len() - i,
        {
            proof {
                assert(st.fees@.take(i + 1).drop_last() =~= st.fees@.take(i as int));
            }
            Self::write_fee_row(&mut out, &st.fees[i]);
            i = i + 1;
        }
        proof {
            assert(st.fees@.take(i as int) =~= st.fees@);
        }
        let ghost p5 = out@;
        let mut i: usize = 0;
        while i < st.stock_grants.len()
            invariant
                i <= st.stock_grants@.len(),
                out@ == stock_grant_rows_after(p5, st.stock_grants@.take(i as int)),
                csv_ok(*st),
            decreases st.stock_grants@.len() - i,
        {
            proof {
                assert(st.stock_grants@.take(i + 1).drop_last() =~= st.stock_grants@.take(i as int));
            }
            Self::write_stock_grant_row(&mut out, &st.stock_grants[i]);
            i = i + 1;
        }
        proof {
            assert(st.stock_grants@.take(i as int) =~= st.stock_grants@);
        }
        let ghost p6 = out@;
        let mut i: usize = 0;
        while i < st.cash_grants.len()
            invariant
                i <= st.cash_grants@.len(),
                out@ == cash_grant_rows_after(p6, st.cash_grants@.take(i as int)),
                csv_ok(*st),
            decreases st.cash_grants@.len() - i,
        {
            proof {
                assert(st.cash_grants@.take(i + 1).drop_last() =~= st.cash_grants@.take(i as int));
            }
            Self::write_cash_grant_row(&mut out, &st.cash_grants[i]);
            i = i + 1;
        }
        proof {
            assert(st.cash_grants@.take(i as int) =~= st.cash_grants@);
        }
        let ghost p7 = out@;
        let mut i: usize = 0;
        while i < st.corporate_actions.len()
            invariant
                i <= st.corporate_actions@.len(),
                out@ == corporate_action_rows_after(p7, st.corporate_actions@.take(i as int)),
                csv_ok(*st),
            decreases st.corporate_actions@.len() - i,
        {
            proof {
                assert(st.corporate_actions@.take(i + 1).drop_last() =~= st.corporate_actions@.take(i as int));
            }
            Self::write_corporate_action_row(&mut out, &st.corporate_actions[i]);
            i = i + 1;
        }
        proof {
            assert(st.corporate_actions@.take(i as int) =~= st.corporate_actions@);
        }
        Self::write_summary_rows(&mut out, st);
        out
    }
}

/// `line` stands in `text` as a whole line beginning at `i`.
pub open spec fn line_at(text: Seq<char>, line: Seq<char>, i: int) -> bool {
    &&& 0 <= i && i + line.len() + 1 <= text.len()
    &&& (i == 0 || text[i - 1] == '\n')
    &&& text.subrange(i, i + line.len() + 1) == line + "\n"@
}

/// `text` has `line` as one of its lines.
pub open spec fn has_line(text: Seq<char>, line: Seq<char>) -> bool {
    exists|i: int| #[trigger] line_at(text, line, i)
}

/// `b` begins with `a`.
pub open spec fn extends(a: Seq<char>, b: Seq<char>) -> bool {
    a.len() <= b.len() && b.subrange(0, a.len() as int) == a
}

proof fn lemma_extends_add(a: Seq<char>, x: Seq<char>)
    ensures
        extends(a, a + x),
{
    assert((a + x).subrange(0, a.len() as int) =~= a);
}

proof fn lemma_extends_trans(a: Seq<char>, b: Seq<char>, c: Seq<char>)
    requires
        extends(a, b),
        extends(b, c),
    ensures
        extends(a, c),
{
    assert(c.subrange(0, a.len() as int) =~= c.subrange(0, b.len() as int).subrange(0, a.len() as int));
}

proof fn lemma_line_kept(a: Seq<char>, b: Seq<char>, line: Seq<char>, i: int)
    requires
        line_at(a, line, i),
        extends(a, b),
    ensures
        line_at(b, line, i),
{
    let n = a.len() as int;
    assert(b.subrange(i, i + line.len() + 1) =~= b.subrange(0, n).subrange(i, i + line.len() + 1));
    if i > 0 {
        assert(b[i - 1] == b.subrange(0, n)[i - 1]);
    }
}

proof fn lemma_value_line_extends(p: Seq<char>, key_label: Seq<char>, v: Decimal)
    ensures
        extends(p, value_line(p, key_label, v)),
{
    assert(value_line(p, key_label, v).subrange(0, p.len() as int) =~= p);
}

proof fn lemma_group_lines_extend(p: Seq<char>, key: Seq<char>, label: Seq<char>, rate: TeilfreistellungRate, g: KapInvGroup)
    ensures
        extends(p, group_lines_after(p, key, label, rate, g)),
{
    assert(group_lines_after(p, key, label, rate, g).subrange(0, p.len() as int) =~= p);
}

proof fn lemma_vorabpauschale_entries_extend(p: Seq<char>, s: Seq<VorabpauschaleEntry>)
    ensures
        extends(p, vorabpauschale_entries_after(p, s)),
    decreases s.len(),
{
    if s.len() > 0 {
        let q = vorabpauschale_entries_after(p, s.drop_last());
        lemma_vorabpauschale_entries_extend(p, s.drop_last());
        assert(vorabpauschale_lines_after(q, s.last()).subrange(0, q.len() as int) =~= q);
        lemma_extends_trans(p, q, vorabpauschale_lines_after(q, s.last()));
    } else {
        assert(p.subrange(0, p.len() as int) =~= p);
    }
}

proof fn lemma_short_lines_extend(p: Seq<char>, s: Seq<(String, Decimal)>)
    ensures
        extends(p, short_lines_after(p, s)),
    decreases s.len(),
{
    if s.len() > 0 {
        let q = short_lines_after(p, s.drop_last());
        lemma_short_lines_extend(p, s.drop_last());
        assert(short_lines_after(p, s).subrange(0, q.len() as int) =~= q);
        lemma_extends_trans(p, q, short_lines_after(p, s));
    } else {
        assert(p.subrange(0, p.len() as int) =~= p);
    }
}

proof fn lemma_kap_block_extends(p: Seq<char>, st: GermanTaxStatement)
    ensures
        extends(p, kap_block_after(p, st)),
{
    assert(kap_block_after(p, st).subrange(0, p.len() as int) =~= p);
}

#[verifier::spinoff_prover]
proof fn lemma_kap_inv_extends(k: Seq<char>, st: GermanTaxStatement)
    ensures
        extends(k, kap_inv_after(k, st)),
{
    if !(group_empty(st.kap_inv_equity) && group_empty(st.kap_inv_mixed) && group_empty(st.kap_inv_other)) {
        let h = k + "\n"@
            + "# ANLAGE KAP-INV - Investment fund income. Enter these GROSS values; the tax office\n"@
            + "# applies the Teilfreistellung itself.\n"@
            + "# Zeilen verified against the official Anlage KAP-INV 2024 and 2025 (identical in both);\n"@
            + "# re-check them if you file a later year — see docs/germany-taxes.md.\n"@;
        assert(h.subrange(0, k.len() as int) =~= k);
        let g1 = group_lines_after(h, "AKTIENFONDS"@, "Aktienfonds (equity 30% Teilfreistellung)"@,
            TeilfreistellungRate::Equity, st.kap_inv_equity);
        lemma_group_lines_extend(h, "AKTIENFONDS"@, "Aktienfonds (equity 30% Teilfreistellung)"@,
            TeilfreistellungRate::Equity, st.kap_inv_equity);
        let g2 = group_lines_after(g1, "MISCHFONDS"@, "Mischfonds (mixed 15% Teilfreistellung)"@,
            TeilfreistellungRate::Mixed, st.kap_inv_mixed);
        lemma_group_lines_extend(g1, "MISCHFONDS"@, "Mischfonds (mixed 15% Teilfreistellung)"@,
            TeilfreistellungRate::Mixed, st.kap_inv_mixed);
        lemma_group_lines_extend(g2, "SONSTIGE"@, "Sonstige Fonds (bond/other 0% Teilfreistellung)"@,
            TeilfreistellungRate::Bond, st.kap_inv_other);
        lemma_extends_trans(k, h, g1);
        lemma_extends_trans(k, g1, g2);
        lemma_extends_trans(k, g2, kap_inv_after(k, st));
    } else {
        assert(kap_inv_after(k, st).subrange(0, k.len() as int) =~= k);
    }
}

#[verifier::spinoff_prover]
proof fn lemma_vorabpauschale_extends(i: Seq<char>, st: GermanTaxStatement)
    ensures
        extends(i, vorabpauschale_after(i, st)),
{
    let v1 = if st.vorabpauschale@.len() == 0 {
        i
    } else {
        let next_year = int_text(st.year + 1);
        let q = i + "\n"@
            + "# VORABPAUSCHALE (§18 InvStG) — advance lump-sum income of funds held at year end.\n"@
            + "# Deemed received on the first business day of "@ + next_year
            + "; declare it in the "@ + next_year
            + " return (Anlage KAP-INV, Vorabpauschale Zeilen 9/10/13 by fund type). Values in EUR.\n"@
            + "# The estimated tax below is a gross figure at the full rate; it ignores next year's Sparer-Pauschbetrag and any loss offset, so the actual liability may be lower.\n"@;
        assert(q.subrange(0, i.len() as int) =~= i);
        let e = vorabpauschale_entries_after(q, st.vorabpauschale@);
        lemma_vorabpauschale_entries_extend(q, st.vorabpauschale@);
        let w = value_line(e, "VORABPAUSCHALE_TOTAL_TAX,Total estimated Vorabpauschale tax,"@, st.total_vorabpauschale_tax);
        lemma_value_line_extends(e, "VORABPAUSCHALE_TOTAL_TAX,Total estimated Vorabpauschale tax,"@, st.total_vorabpauschale_tax);
        lemma_extends_trans(i, q, e);
        lemma_extends_trans(i, e, w);
        w
    };
    if st.vorabpauschale@.len() == 0 {
        assert(v1.subrange(0, i.len() as int) =~= i);
    }
    let v = vorabpauschale_after(i, st);
    assert(v.subrange(0, v1.len() as int) =~= v1);
    lemma_extends_trans(i, v1, v);
}

proof fn lemma_shorts_extend(v: Seq<char>, st: GermanTaxStatement)
    ensures
        extends(v, shorts_after(v, st)),
{
    if st.short_positions@.len() == 0 {
        assert(shorts_after(v, st).subrange(0, v.len() as int) =~= v);
    } else {
        let q = v + "\n"@
            + "# SHORT POSITIONS — MANUAL §20 EStG REVIEW REQUIRED. No tax is computed for these.\n"@
            + "# Short sales / open written options are Termin-/Stillhaltergeschäfte; classify and declare them by hand (Anlage KAP). Quantities are negative (units still open at year end).\n"@;
        assert(q.subrange(0, v.len() as int) =~= v);
        lemma_short_lines_extend(q, st.short_positions@);
        lemma_extends_trans(v, q, shorts_after(v, st));
    }
}

#[verifier::spinoff_prover]
proof fn lemma_section23_extends(p: Seq<char>, st: GermanTaxStatement)
    ensures
        extends(p, section23_after(p, st)),
{
    assert(section23_after(p, st).subrange(0, p.len() as int) =~= p);
}

proof fn lemma_non_capital_extends(p: Seq<char>, st: GermanTaxStatement)
    ensures
        extends(p, non_capital_after(p, st)),
{
    assert(non_capital_after(p, st).subrange(0, p.len() as int) =~= p);
}

proof fn lemma_non_taxable_extends(p: Seq<char>, st: GermanTaxStatement)
    ensures
        extends(p, non_taxable_after(p, st)),
{
    assert(non_taxable_after(p, st).subrange(0, p.len() as int) =~= p);
}

/// Each block of the summary only appends to the text before it.
proof fn lemma_summary_extends(p: Seq<char>, st: GermanTaxStatement)
    ensures
        extends(totals_block_after(p, st), summary_after(p, st)),
{
    let t = totals_block_after(p, st);
    let k = kap_block_after(t, st);
    let i = kap_inv_after(k, st);
    let v = vorabpauschale_after(i, st);
    let sh = shorts_after(v, st);
    let s23 = section23_after(sh, st);
    let nc = non_capital_after(s23, st);
    lemma_kap_block_extends(t, st);
    lemma_kap_inv_extends(k, st);
    lemma_vorabpauschale_extends(i, st);
    lemma_shorts_extend(v, st);
    lemma_section23_extends(sh, st);
    lemma_non_capital_extends(s23, st);
    lemma_non_taxable_extends(nc, st);
    lemma_extends_trans(t, k, i);
    lemma_extends_trans(t, i, v);
    lemma_extends_trans(t, v, sh);
    lemma_extends_trans(t, sh, s23);
    lemma_extends_trans(t, s23, nc);
    lemma_extends_trans(t, nc, non_taxable_after(nc, st));
}

/// The summary line of the stock pot's loss carried into the next year.
pub open spec fn stock_carry_line(st: GermanTaxStatement) -> Seq<char> {
    "SUMMARY_LOSS_CF_STOCK_NEXT,Stock loss carryforward to next year (§20(6) Aktien),"@ + eur_text(
        st.loss_carryforward_stock_next,
    )
}

/// The summary line of the general pot's loss carried into the next year.
pub open spec fn general_carry_line(st: GermanTaxStatement) -> Seq<char> {
    "SUMMARY_LOSS_CF_GENERAL_NEXT,General loss carryforward to next year,"@ + eur_text(
        st.loss_carryforward_other_next,
    )
}

#[verifier::spinoff_prover]
proof fn lemma_totals_block_lines(p: Seq<char>, st: GermanTaxStatement)
    ensures
        has_line(totals_block_after(p, st), stock_carry_line(st)),
        has_line(totals_block_after(p, st), general_carry_line(st)),
{
    reveal_strlit("\n");
    let q = p + "\n"@
        + "# Summary tax is computed on the year's net taxable base after the §20(6) loss pots,\n"@
        + "# carryforward, and the Sparer-Pauschbetrag — NOT the sum of the per-row tax columns.\n"@
        + "summary_key,label,value_eur\n"@;
    let q = value_line(q, "SUMMARY_TOTAL_TAXABLE_INCOME,Total Taxable Income,"@, st.total_taxable_income);
    let q = value_line(q, "SUMMARY_TOTAL_FOREIGN_TAX,Total Foreign Tax Paid,"@, st.total_foreign_tax);
    let q = value_line(q, "SUMMARY_TOTAL_ABGELTUNGSSTEUER,Total Abgeltungssteuer,"@, st.total_abgeltungssteuer);
    let q = value_line(q, "SUMMARY_TOTAL_SOLIDARITAETSZUSCHLAG,Total Solidaritätszuschlag,"@, st.total_solidaritaetszuschlag);
    let q = value_line(q, "SUMMARY_TOTAL_KIRCHENSTEUER,Total Kirchensteuer,"@, st.total_kirchensteuer);
    let q = value_line(q, "SUMMARY_FX_GAINS,Total FX Gains,"@, st.total_fx_gains);
    let q = value_line(q, "SUMMARY_FX_LOSSES,Total FX Losses,"@, st.total_fx_losses);
    let q = value_line(q, "SUMMARY_TOTAL_FEES,Total Fees (informational — not deductible under §20(9) EStG),"@, st.total_fees);
    let q = value_line(q, "SUMMARY_TOTAL_GERMAN_TAX,Total German Tax,"@, st.total_german_tax);
    let q = value_line(q, "SUMMARY_FOREIGN_TAX_CREDIT,Foreign Tax Credit Applied,"@, st.total_foreign_tax_credit);
    let q = value_line(q, "SUMMARY_NET_TAX_DUE,Net German Tax Due,"@, st.net_tax_due);
    let q = value_line(q, "SUMMARY_SPARER_PAUSCHBETRAG,Sparer-Pauschbetrag applied,"@, st.sparer_pauschbetrag_used);
    let stock = stock_carry_line(st);
    let general = general_carry_line(st);
    let r = value_line(q, "SUMMARY_LOSS_CF_STOCK_NEXT,Stock loss carryforward to next year (§20(6) Aktien),"@, st.loss_carryforward_stock_next);
    let t = value_line(r, "SUMMARY_LOSS_CF_GENERAL_NEXT,General loss carryforward to next year,"@, st.loss_carryforward_other_next);
    assert(t == totals_block_after(p, st));
    let i = q.len() as int;
    assert(q[i - 1] == '\n');
    assert(t.subrange(i, i + stock.len() + 1) =~= stock + "\n"@);
    assert(line_at(t, stock, i));
    let j = r.len() as int;
    assert(r[j - 1] == '\n');
    assert(t.subrange(j, j + general.len() + 1) =~= general + "\n"@);
    assert(line_at(t, general, j));
}

/// §20(6) EStG in the CSV: the summary block reports each pot's loss carried into the next year on
/// a line of its own, the stock pot's under `SUMMARY_LOSS_CF_STOCK_NEXT` and the general pot's under
/// `SUMMARY_LOSS_CF_GENERAL_NEXT`, each with its own pot's figure in euros.
pub proof fn csv_reports_each_pots_carryforward(st: GermanTaxStatement)
    ensures
        has_line(csv_text(st), stock_carry_line(st)),
        has_line(csv_text(st), general_carry_line(st)),
{
    let p = header_after(seq![]);
    let p = capital_gain_rows_after(p, st.capital_gains@);
    let p = dividend_rows_after(p, st.dividends@);
    let p = interest_rows_after(p, st.interest@);
    let p = fx_rows_after(p, st.fx_gains@);
    let p = fee_rows_after(p, st.fees@);
    let p = stock_grant_rows_after(p, st.stock_grants@);
    let p = cash_grant_rows_after(p, st.cash_grants@);
    let p = corporate_action_rows_after(p, st.corporate_actions@);
    assert(csv_text(st) == summary_after(p, st));
    let t = totals_block_after(p, st);
    lemma_totals_block_lines(p, st);
    lemma_summary_extends(p, st);
    let i = choose|i: int| #[trigger] line_at(t, stock_carry_line(st), i);
    let j = choose|j: int| #[trigger] line_at(t, general_carry_line(st), j);
    lemma_line_kept(t, csv_text(st), stock_carry_line(st), i);
    lemma_line_kept(t, csv_text(st), general_carry_line(st), j);
}

/// The figures of the CSV summary block, each with its key and label, in order.
pub open spec fn summary_figures(st: GermanTaxStatement) -> Seq<(Seq<char>, Decimal)> {
    seq![
        ("SUMMARY_TOTAL_TAXABLE_INCOME,Total Taxable Income,"@, st.total_taxable_income),
        ("SUMMARY_TOTAL_FOREIGN_TAX,Total Foreign Tax Paid,"@, st.total_foreign_tax),
        ("SUMMARY_TOTAL_ABGELTUNGSSTEUER,Total Abgeltungssteuer,"@, st.total_abgeltungssteuer),
        ("SUMMARY_TOTAL_SOLIDARITAETSZUSCHLAG,Total Solidaritätszuschlag,"@, st.total_solidaritaetszuschlag),
        ("SUMMARY_TOTAL_KIRCHENSTEUER,Total Kirchensteuer,"@, st.total_kirchensteuer),
        ("SUMMARY_FX_GAINS,Total FX Gains,"@, st.total_fx_gains),
        ("SUMMARY_FX_LOSSES,Total FX Losses,"@, st.total_fx_losses),
        ("SUMMARY_TOTAL_FEES,Total Fees (informational — not deductible under §20(9) EStG),"@, st.total_fees),
        ("SUMMARY_TOTAL_GERMAN_TAX,Total German Tax,"@, st.total_german_tax),
        ("SUMMARY_FOREIGN_TAX_CREDIT,Foreign Tax Credit Applied,"@, st.total_foreign_tax_credit),
        ("SUMMARY_NET_TAX_DUE,Net German Tax Due,"@, st.net_tax_due),
        ("SUMMARY_SPARER_PAUSCHBETRAG,Sparer-Pauschbetrag applied,"@, st.sparer_pauschbetrag_used),
        (
            "SUMMARY_LOSS_CF_STOCK_NEXT,Stock loss carryforward to next year (§20(6) Aktien),"@,
            st.loss_carryforward_stock_next,
        ),
        ("SUMMARY_LOSS_CF_GENERAL_NEXT,General loss carryforward to next year,"@, st.loss_carryforward_other_next),
    ]
}

/// The Anlage KAP figures of the CSV, each with its key and label, in order.
pub open spec fn kap_figures(st: GermanTaxStatement) -> Seq<(Seq<char>, Decimal)> {
    seq![
        ("KAP_ZEILE_19,Ausländische Kapitalerträge (net foreign capital income),"@, st.kap_zeile_19),
        ("KAP_ZEILE_20,Enthaltene Gewinne aus Aktienveräußerungen (contained share-sale gains),"@, st.kap_zeile_20),
        ("KAP_ZEILE_22,Enthaltene Verluste ohne Aktien (contained non-share losses),"@, st.kap_zeile_22),
        ("KAP_ZEILE_23,Enthaltene Verluste aus Aktienveräußerungen (contained share-sale losses),"@, st.kap_zeile_23),
        ("KAP_ZEILE_41,Anrechenbare ausländische Steuer (Creditable Foreign Tax),"@, st.kap_zeile_41),
    ]
}

/// A line per figure: key and label, then the amount in euros.
pub open spec fn figure_line(f: (Seq<char>, Decimal)) -> Seq<char> {
    f.0 + eur_text(f.1)
}

spec fn value_lines_after(p: Seq<char>, figs: Seq<(Seq<char>, Decimal)>) -> Seq<char>
    decreases figs.len(),
{
    if figs.len() == 0 {
        p
    } else {
        value_line(value_lines_after(p, figs.drop_last()), figs.last().0, figs.last().1)
    }
}

proof fn lemma_value_lines(p: Seq<char>, figs: Seq<(Seq<char>, Decimal)>)
    requires
        p.len() > 0,
        p.last() == '\n',
    ensures
        extends(p, value_lines_after(p, figs)),
        value_lines_after(p, figs).last() == '\n',
        value_lines_after(p, figs).len() > 0,
        forall|k: int| 0 <= k < figs.len() ==> has_line(value_lines_after(p, figs), #[trigger] figure_line(figs[k])),
    decreases figs.len(),
{
    reveal_strlit("\n");
    if figs.len() == 0 {
        assert(p.subrange(0, p.len() as int) =~= p);
    } else {
        let rest = figs.drop_last();
        let r = value_lines_after(p, rest);
        lemma_value_lines(p, rest);
        let f = figs.last();
        let t = value_line(r, f.0, f.1);
        lemma_value_line_extends(r, f.0, f.1);
        lemma_extends_trans(p, r, t);
        let i = r.len() as int;
        assert(t.subrange(i, i + figure_line(f).len() + 1) =~= figure_line(f) + "\n"@);
        assert(line_at(t, figure_line(f), i));
        assert forall|k: int| 0 <= k < figs.len() implies has_line(t, #[trigger] figure_line(figs[k])) by {
            if k < figs.len() - 1 {
                assert(figs[k] == rest[k]);
                assert(has_line(r, figure_line(rest[k])));
                let j = choose|j: int| #[trigger] line_at(r, figure_line(rest[k]), j);
                lemma_line_kept(r, t, figure_line(rest[k]), j);
            } else {
                assert(figs[k] == f);
            }
        }
    }
}

proof fn lemma_has_line_kept(a: Seq<char>, b: Seq<char>, line: Seq<char>)
    requires
        has_line(a, line),
        extends(a, b),
    ensures
        has_line(b, line),
{
    let i = choose|i: int| #[trigger] line_at(a, line, i);
    lemma_line_kept(a, b, line, i);
}

/// The comment and column header that open the summary block.
spec fn summary_head(p: Seq<char>) -> Seq<char> {
    p + "\n"@
        + "# Summary tax is computed on the year's net taxable base after the §20(6) loss pots,\n"@
        + "# carryforward, and the Sparer-Pauschbetrag — NOT the sum of the per-row tax columns.\n"@
        + "summary_key,label,value_eur\n"@
}

/// The comment that opens the Anlage KAP block.
spec fn kap_head(p: Seq<char>) -> Seq<char> {
    p + "\n"@ + "# ANLAGE KAP - German Tax Form Values (non-fund income)\n"@
        + "# Zeilen verified against the official Anlage KAP 2024 and 2025 (identical in both);\n"@
        + "# re-check them if you file a later year — see docs/germany-taxes.md.\n"@
}

#[verifier::spinoff_prover]
proof fn lemma_totals_block_has_figures(p: Seq<char>, st: GermanTaxStatement)
    ensures
        forall|k: int| 0 <= k < summary_figures(st).len() ==> has_line(totals_block_after(p, st), #[trigger] figure_line(summary_figures(st)[k])),
{
    reveal_strlit("summary_key,label,value_eur\n");
    let h = summary_head(p);
    assert(totals_block_after(p, st) == value_lines_after(h, summary_figures(st))) by {
        reveal_with_fuel(value_lines_after, 15);
    }
    lemma_value_lines(h, summary_figures(st));
}

#[verifier::spinoff_prover]
proof fn lemma_kap_block_has_figures(t: Seq<char>, st: GermanTaxStatement)
    ensures
        forall|k: int| 0 <= k < kap_figures(st).len() ==> has_line(kap_block_after(t, st), #[trigger] figure_line(kap_figures(st)[k])),
{
    reveal_strlit("# re-check them if you file a later year — see docs/germany-taxes.md.\n");
    let h = kap_head(t);
    assert(kap_block_after(t, st) == value_lines_after(h, kap_figures(st))) by {
        reveal_with_fuel(value_lines_after, 6);
    }
    lemma_value_lines(h, kap_figures(st));
}

proof fn lemma_after_kap_extends(p: Seq<char>, st: GermanTaxStatement)
    ensures
        extends(kap_block_after(totals_block_after(p, st), st), summary_after(p, st)),
{
    let k = kap_block_after(totals_block_after(p, st), st);
    let i = kap_inv_after(k, st);
    let v = vorabpauschale_after(i, st);
    let sh = shorts_after(v, st);
    let s23 = section23_after(sh, st);
    let nc = non_capital_after(s23, st);
    lemma_kap_inv_extends(k, st);
    lemma_vorabpauschale_extends(i, st);
    lemma_shorts_extend(v, st);
    lemma_section23_extends(sh, st);
    lemma_non_capital_extends(s23, st);
    lemma_non_taxable_extends(nc, st);
    lemma_extends_trans(k, i, v);
    lemma_extends_trans(k, v, sh);
    lemma_extends_trans(k, sh, s23);
    lemma_extends_trans(k, s23, nc);
    lemma_extends_trans(k, nc, non_taxable_after(nc, st));
}

/// The CSV reports every summary figure and every Anlage KAP figure of the statement on a line
/// of its own, under its key and label: the taxable income, each tax, the foreign tax and its
/// credit, the tax due, the allowance used, each pot's loss carried forward, and Zeilen 19 to 41.
pub proof fn csv_reports_every_figure_under_its_key(st: GermanTaxStatement)
    ensures
        forall|k: int| 0 <= k < summary_figures(st).len() ==> has_line(csv_text(st), #[trigger] figure_line(summary_figures(st)[k])),
        forall|k: int| 0 <= k < kap_figures(st).len() ==> has_line(csv_text(st), #[trigger] figure_line(kap_figures(st)[k])),
{
    let p = header_after(seq![]);
    let p = capital_gain_rows_after(p, st.capital_gains@);
    let p = dividend_rows_after(p, st.dividends@);
    let p = interest_rows_after(p, st.interest@);
    let p = fx_rows_after(p, st.fx_gains@);
    let p = fee_rows_after(p, st.fees@);
    let p = stock_grant_rows_after(p, st.stock_grants@);
    let p = cash_grant_rows_after(p, st.cash_grants@);
    let p = corporate_action_rows_after(p, st.corporate_actions@);
    assert(csv_text(st) == summary_after(p, st));
    let t = totals_block_after(p, st);
    let k = kap_block_after(t, st);
    lemma_totals_block_has_figures(p, st);
    lemma_kap_block_has_figures(t, st);
    lemma_summary_extends(p, st);
    lemma_after_kap_extends(p, st);
    assert forall|j: int| 0 <= j < summary_figures(st).len() implies has_line(csv_text(st), #[trigger] figure_line(summary_figures(st)[j])) by {
        lemma_has_line_kept(t, csv_text(st), figure_line(summary_figures(st)[j]));
    }
    assert forall|j: int| 0 <= j < kap_figures(st).len() implies has_line(csv_text(st), #[trigger] figure_line(kap_figures(st)[j])) by {
        lemma_has_line_kept(k, csv_text(st), figure_line(kap_figures(st)[j]));
    }
}

} // verus!
