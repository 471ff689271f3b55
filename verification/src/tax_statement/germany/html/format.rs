//! German dates and labels for the report. The numbers come from the shared formatter and are
//! re-exported here, so a German section imports one module for everything it prints.
use vstd::prelude::*;

use crate::date::{datetime_text, dotted_text, Date, DateTime};
use crate::tax_statement::germany::report_details::{
    category_of, AssetCategory, BookingKind, FxTreatment, LotSource, TradeSide,
};
use crate::taxes::germany::{spec_rate, TeilfreistellungRate};
use crate::text::text_eq;

pub use crate::tax_statement::html::format::{dec2, eur, pct, pct_observed, pct_text, qty, rate};

verus! {

pub fn date(value: Date) -> (r: String)
    ensures
        r@ == dotted_text(value),
{
    value.dotted_text()
}

pub fn datetime(value: DateTime) -> (r: String)
    ensures
        r@ == datetime_text(value),
{
    value.dotted_text()
}

/// The German name of a country for the common ISIN prefixes.
pub open spec fn known_country(code: Seq<char>) -> Option<Seq<char>> {
    if code == "AT"@ {
        Some("Österreich"@)
    } else if code == "AU"@ {
        Some("Australien"@)
    } else if code == "BE"@ {
        Some("Belgien"@)
    } else if code == "BM"@ {
        Some("Bermuda"@)
    } else if code == "CA"@ {
        Some("Kanada"@)
    } else if code == "CH"@ {
        Some("Schweiz"@)
    } else if code == "CN"@ {
        Some("China"@)
    } else if code == "DE"@ {
        Some("Deutschland"@)
    } else if code == "DK"@ {
        Some("Dänemark"@)
    } else if code == "ES"@ {
        Some("Spanien"@)
    } else if code == "FI"@ {
        Some("Finnland"@)
    } else if code == "FR"@ {
        Some("Frankreich"@)
    } else if code == "GB"@ {
        Some("Vereinigtes Königreich"@)
    } else if code == "HK"@ {
        Some("Hongkong"@)
    } else if code == "IE"@ {
        Some("Irland"@)
    } else if code == "IL"@ {
        Some("Israel"@)
    } else if code == "IT"@ {
        Some("Italien"@)
    } else if code == "JE"@ {
        Some("Jersey"@)
    } else if code == "JP"@ {
        Some("Japan"@)
    } else if code == "KR"@ {
        Some("Südkorea"@)
    } else if code == "KY"@ {
        Some("Kaimaninseln"@)
    } else if code == "LU"@ {
        Some("Luxemburg"@)
    } else if code == "NL"@ {
        Some("Niederlande"@)
    } else if code == "NO"@ {
        Some("Norwegen"@)
    } else if code == "PT"@ {
        Some("Portugal"@)
    } else if code == "SE"@ {
        Some("Schweden"@)
    } else if code == "SG"@ {
        Some("Singapur"@)
    } else if code == "TW"@ {
        Some("Taiwan"@)
    } else if code == "US"@ {
        Some("Vereinigte Staaten"@)
    } else if code == ""@ {
        Some("Unbekannt"@)
    } else {
        None
    }
}

fn known_country_name(code: &str) -> (r: Option<&'static str>)
    ensures
        r matches Some(n) ==> known_country(code@) == Some(n@),
        r is None ==> known_country(code@) is None,
{
    if text_eq(code, "AT") {
        Some("Österreich")
    } else if text_eq(code, "AU") {
        Some("Australien")
    } else if text_eq(code, "BE") {
        Some("Belgien")
    } else if text_eq(code, "BM") {
        Some("Bermuda")
    } else if text_eq(code, "CA") {
        Some("Kanada")
    } else if text_eq(code, "CH") {
        Some("Schweiz")
    } else if text_eq(code, "CN") {
        Some("China")
    } else if text_eq(code, "DE") {
        Some("Deutschland")
    } else if text_eq(code, "DK") {
        Some("Dänemark")
    } else if text_eq(code, "ES") {
        Some("Spanien")
    } else if text_eq(code, "FI") {
        Some("Finnland")
    } else if text_eq(code, "FR") {
        Some("Frankreich")
    } else if text_eq(code, "GB") {
        Some("Vereinigtes Königreich")
    } else if text_eq(code, "HK") {
        Some("Hongkong")
    } else if text_eq(code, "IE") {
        Some("Irland")
    } else if text_eq(code, "IL") {
        Some("Israel")
    } else if text_eq(code, "IT") {
        Some("Italien")
    } else if text_eq(code, "JE") {
        Some("Jersey")
    } else if text_eq(code, "JP") {
        Some("Japan")
    } else if text_eq(code, "KR") {
        Some("Südkorea")
    } else if text_eq(code, "KY") {
        Some("Kaimaninseln")
    } else if text_eq(code, "LU") {
        Some("Luxemburg")
    } else if text_eq(code, "NL") {
        Some("Niederlande")
    } else if text_eq(code, "NO") {
        Some("Norwegen")
    } else if text_eq(code, "PT") {
        Some("Portugal")
    } else if text_eq(code, "SE") {
        Some("Schweden")
    } else if text_eq(code, "SG") {
        Some("Singapur")
    } else if text_eq(code, "TW") {
        Some("Taiwan")
    } else if text_eq(code, "US") {
        Some("Vereinigte Staaten")
    } else if text_eq(code, "") {
        Some("Unbekannt")
    } else {
        None
    }
}

/// Country name for the common ISIN prefixes; the code itself otherwise.
pub open spec fn country_name_text(code: Seq<char>) -> Seq<char> {
    match known_country(code) {
        Some(name) => name,
        None => code,
    }
}

/// Country name for the common ISIN prefixes; the code itself otherwise.
pub fn country_name(code: &str) -> (r: String)
    ensures
        r@ == country_name_text(code@),
{
    match known_country_name(code) {
        Some(name) => <String as StringExecFns>::from_str(name),
        None => <String as StringExecFns>::from_str(code),
    }
}

pub open spec fn category_text(category: AssetCategory) -> Seq<char> {
    match category {
        AssetCategory::Stock => "Aktien"@,
        AssetCategory::EquityFund => "Aktienfonds"@,
        AssetCategory::MixedFund => "Mischfonds"@,
        AssetCategory::OtherFund => "Sonstige Fonds"@,
    }
}

pub fn category_label(category: AssetCategory) -> (r: &'static str)
    ensures
        r@ == category_text(category),
{
    match category {
        AssetCategory::Stock => "Aktien",
        AssetCategory::EquityFund => "Aktienfonds",
        AssetCategory::MixedFund => "Mischfonds",
        AssetCategory::OtherFund => "Sonstige Fonds",
    }
}

/// The Teilfreistellung of a fund class as the report names it.
pub open spec fn teilfreistellung_text(rate: TeilfreistellungRate) -> Seq<char> {
    match rate {
        TeilfreistellungRate::NotFund => "–"@,
        TeilfreistellungRate::Bond => "0 % (sonstiger Fonds)"@,
        _ => pct_text(spec_rate(rate), 2) + " ("@ + category_text(category_of(rate)) + ")"@,
    }
}

pub fn teilfreistellung_label(rate: TeilfreistellungRate) -> (r: String)
    ensures
        r@ == teilfreistellung_text(rate),
{
    match rate {
        TeilfreistellungRate::NotFund => <String as StringExecFns>::from_str("–"),
        TeilfreistellungRate::Bond => <String as StringExecFns>::from_str("0 % (sonstiger Fonds)"),
        _ => {
            let fraction = rate.rate();
            proof {
                reveal_with_fuel(crate::decimal::pow10, 29);
            }
            let mut r = pct(fraction);
            r.append(" (");
            r.append(category_label(AssetCategory::from(rate)));
            r.append(")");
            r
        },
    }
}

pub open spec fn side_text(side: TradeSide) -> Seq<char> {
    match side {
        TradeSide::Buy => "Kauf"@,
        TradeSide::Sell => "Verkauf"@,
    }
}

pub fn side_label(side: TradeSide) -> (r: &'static str)
    ensures
        r@ == side_text(side),
{
    match side {
        TradeSide::Buy => "Kauf",
        TradeSide::Sell => "Verkauf",
    }
}

pub open spec fn lot_source_text(source: LotSource) -> Seq<char> {
    match source {
        LotSource::Trade => "Kauf"@,
        LotSource::Grant => "Zuteilung"@,
        LotSource::CorporateAction => "Kapitalmaßnahme"@,
    }
}

pub fn lot_source_label(source: LotSource) -> (r: &'static str)
    ensures
        r@ == lot_source_text(source),
{
    match source {
        LotSource::Trade => "Kauf",
        LotSource::Grant => "Zuteilung",
        LotSource::CorporateAction => "Kapitalmaßnahme",
    }
}

pub open spec fn booking_kind_text(kind: BookingKind) -> Seq<char> {
    match kind {
        BookingKind::Dividend => "Dividenden und Ausschüttungen"@,
        BookingKind::WithholdingTax => "Quellensteuer"@,
        BookingKind::Interest => "Guthabenzinsen"@,
        BookingKind::Fee => "Gebühren"@,
        BookingKind::CashGrant => "Sonstige Zuflüsse (Bargeldzuwendungen)"@,
    }
}

pub fn booking_kind_label(kind: BookingKind) -> (r: &'static str)
    ensures
        r@ == booking_kind_text(kind),
{
    match kind {
        BookingKind::Dividend => "Dividenden und Ausschüttungen",
        BookingKind::WithholdingTax => "Quellensteuer",
        BookingKind::Interest => "Guthabenzinsen",
        BookingKind::Fee => "Gebühren",
        BookingKind::CashGrant => "Sonstige Zuflüsse (Bargeldzuwendungen)",
    }
}

pub open spec fn treatment_text(treatment: FxTreatment) -> Seq<char> {
    match treatment {
        FxTreatment::Section20Taxable => "§20 steuerpflichtig"@,
        FxTreatment::LoanRepaymentNonTaxable => "Nicht steuerbar (Kredittilgung)"@,
        FxTreatment::Section23ShortTerm => "§23 steuerpflichtig (≤ 1 Jahr)"@,
        FxTreatment::Section23LongTermTaxFree => "§23 steuerfrei (> 1 Jahr)"@,
        FxTreatment::Section23BorrowedReview => "§23 prüfen (Kredittilgung)"@,
    }
}

pub fn treatment_label(treatment: FxTreatment) -> (r: &'static str)
    ensures
        r@ == treatment_text(treatment),
{
    match treatment {
        FxTreatment::Section20Taxable => "§20 steuerpflichtig",
        FxTreatment::LoanRepaymentNonTaxable => "Nicht steuerbar (Kredittilgung)",
        FxTreatment::Section23ShortTerm => "§23 steuerpflichtig (≤ 1 Jahr)",
        FxTreatment::Section23LongTermTaxFree => "§23 steuerfrei (> 1 Jahr)",
        FxTreatment::Section23BorrowedReview => "§23 prüfen (Kredittilgung)",
    }
}

/// The German name of an IBKR statement-of-funds activity code.
pub open spec fn known_activity(code: Seq<char>) -> Option<Seq<char>> {
    if code == "BUY"@ {
        Some("Kauf"@)
    } else if code == "SELL"@ {
        Some("Verkauf"@)
    } else if code == "DIV"@ {
        Some("Dividende"@)
    } else if code == "PIL"@ {
        Some("Ersatzdividende"@)
    } else if code == "WHTAX"@ || code == "FRTAX"@ {
        Some("Quellensteuer"@)
    } else if code == "FOREX"@ {
        Some("Devisen"@)
    } else if code == "CINT"@ {
        Some("Habenzinsen"@)
    } else if code == "DINT"@ || code == "BINT"@ {
        Some("Sollzinsen"@)
    } else if code == "OFEE"@ || code == "FEE"@ {
        Some("Gebühr"@)
    } else if code == "DEP"@ {
        Some("Einzahlung"@)
    } else if code == "WITH"@ {
        Some("Auszahlung"@)
    } else if code == "ADJ"@ {
        Some("Korrektur"@)
    } else if code == "OPENING"@ {
        Some("Anfangsbestand"@)
    } else {
        None
    }
}

fn known_activity_name(code: &str) -> (r: Option<&'static str>)
    ensures
        r matches Some(n) ==> known_activity(code@) == Some(n@),
        r is None ==> known_activity(code@) is None,
{
    if text_eq(code, "BUY") {
        Some("Kauf")
    } else if text_eq(code, "SELL") {
        Some("Verkauf")
    } else if text_eq(code, "DIV") {
        Some("Dividende")
    } else if text_eq(code, "PIL") {
        Some("Ersatzdividende")
    } else if text_eq(code, "WHTAX") || text_eq(code, "FRTAX") {
        Some("Quellensteuer")
    } else if text_eq(code, "FOREX") {
        Some("Devisen")
    } else if text_eq(code, "CINT") {
        Some("Habenzinsen")
    } else if text_eq(code, "DINT") || text_eq(code, "BINT") {
        Some("Sollzinsen")
    } else if text_eq(code, "OFEE") || text_eq(code, "FEE") {
        Some("Gebühr")
    } else if text_eq(code, "DEP") {
        Some("Einzahlung")
    } else if text_eq(code, "WITH") {
        Some("Auszahlung")
    } else if text_eq(code, "ADJ") {
        Some("Korrektur")
    } else if text_eq(code, "OPENING") {
        Some("Anfangsbestand")
    } else {
        None
    }
}

/// Human label for an activity code, `Label (CODE)`; the code itself when unknown.
pub open spec fn activity_text(code: Seq<char>) -> Seq<char> {
    match known_activity(code) {
        Some(label) => label + " ("@ + code + ")"@,
        None => code,
    }
}

/// Human label for an IBKR statement-of-funds activity code; the code itself when unknown.
pub fn activity_label(code: &str) -> (r: String)
    ensures
        r@ == activity_text(code@),
{
    match known_activity_name(code) {
        Some(label) => {
            let mut r = <String as StringExecFns>::from_str(label);
            r.append(" (");
            r.append(code);
            r.append(")");
            r
        },
        None => <String as StringExecFns>::from_str(code),
    }
}

} // verus!
