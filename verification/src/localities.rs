//! Tax jurisdictions: their currency, tax precision and the central bank whose reference rates
//! their tax authority requires.
use vstd::prelude::*;

use crate::date::{days_earlier, valid_date, Date};
use crate::decimal::Decimal;

verus! {

#[derive(Clone, Copy, PartialEq, Eq, Structural, Debug)]
pub enum Jurisdiction {
    Russia,
    Usa,
    Germany,
    Spain,
}

pub struct JurisdictionTraits {
    pub name: &'static str,
    pub code: &'static str,
    pub currency: &'static str,
    pub tax_precision: u32,
    /// Official source of currency rates for this jurisdiction's tax authority: the authority
    /// dictates which rates a return must use, so it is derived from the jurisdiction.
    pub rate_source: RateSourceKind,
}

/// Which central bank publishes the reference rates a jurisdiction's tax authority requires.
#[derive(Clone, Copy, Debug, PartialEq, Eq, Structural)]
pub enum RateSourceKind {
    /// Central Bank of Russia. RUB base.
    Cbr,
    /// European Central Bank. EUR base.
    Ecb,
}

/// The traits of a jurisdiction: name, ISO code, currency, tax precision, rate source.
pub open spec fn traits_of(j: Jurisdiction) -> (Seq<char>, Seq<char>, Seq<char>, u32, RateSourceKind) {
    match j {
        Jurisdiction::Russia => ("Russia"@, "RU"@, "RUB"@, 0, RateSourceKind::Cbr),
        Jurisdiction::Usa => ("USA"@, "US"@, "USD"@, 2, RateSourceKind::Cbr),
        Jurisdiction::Germany => ("Germany"@, "DE"@, "EUR"@, 2, RateSourceKind::Ecb),
        Jurisdiction::Spain => ("Spain"@, "ES"@, "EUR"@, 2, RateSourceKind::Ecb),
    }
}

impl Jurisdiction {
    pub fn traits(self) -> (r: JurisdictionTraits)
        ensures
            (r.name@, r.code@, r.currency@, r.tax_precision, r.rate_source) == traits_of(self),
    {
        match self {
            Jurisdiction::Russia => JurisdictionTraits {
                rate_source: RateSourceKind::Cbr,
                name: "Russia",
                code: "RU",
                currency: "RUB",
                tax_precision: 0,
            },
            Jurisdiction::Usa => JurisdictionTraits {
                rate_source: RateSourceKind::Cbr,
                name: "USA",
                code: "US",
                currency: "USD",
                tax_precision: 2,
            },
            Jurisdiction::Germany => JurisdictionTraits {
                rate_source: RateSourceKind::Ecb,
                name: "Germany",
                code: "DE",
                currency: "EUR",
                tax_precision: 2,
            },
            Jurisdiction::Spain => JurisdictionTraits {
                // Both the state and the foral tax administrations accept ECB reference rates for
                // converting foreign-currency income, so Spain shares Germany's rate source.
                rate_source: RateSourceKind::Ecb,
                name: "Spain",
                code: "ES",
                currency: "EUR",
                tax_precision: 2,
            },
        }
    }
}

/// The US withholding rate on dividends: 30% from 16 August 2024, 10% before.
pub open spec fn spec_us_dividend_tax_rate(date: Date) -> Decimal {
    if date.key() >= 20240816 {
        Decimal::spec_new(3, 1)
    } else {
        Decimal::spec_new(1, 1)
    }
}

pub fn us_dividend_tax_rate(date: Date) -> (r: Decimal)
    ensures
        r == spec_us_dividend_tax_rate(date),
{
    let y = date.year();
    let m = date.month();
    let d = date.day();
    if y > 2024 || (y == 2024 && (m > 8 || (m == 8 && d >= 16))) {
        Decimal::new(3, 1)
    } else {
        Decimal::new(1, 1)
    }
}

/// The earliest last working day that the Central Bank of Russia may have published rates for,
/// as (year, month, day): eleven days back in the New Year holidays, but not before December 29;
/// March 28 in the first days of April 2020; otherwise five days back.
pub open spec fn spec_cbr_min_last_working_day(t: Date) -> (int, int, int) {
    if t.m() == 1 && t.d() <= 12 {
        let a = days_earlier((t.y(), t.m(), t.d()), 11);
        let b: (int, int, int) = (t.y() - 1, 12, 29);
        if a.0 * 10000 + a.1 * 100 + a.2 < b.0 * 10000 + b.1 * 100 + b.2 {
            b
        } else {
            a
        }
    } else if t.y() == 2020 && t.m() == 4 && t.d() <= 6 {
        (2020int, 3int, 28int)
    } else {
        days_earlier((t.y(), t.m(), t.d()), 5)
    }
}

/// The earliest day whose Central Bank of Russia rates are certain to be published by `today`.
pub fn get_russian_central_bank_min_last_working_day(today: Date) -> (r: Date)
    requires
        !(today.y() == -262143 && today.m() == 1 && today.d() <= 12),
    ensures
        (r.y(), r.m(), r.d()) == spec_cbr_min_last_working_day(today),
{
    let (y, m, d) = (today.year(), today.month(), today.day());
    proof {
        use_type_invariant(&today);
        today.lemma_valid();
    }
    if m == 1 && d <= 12 {
        proof {
            reveal_with_fuel(days_earlier, 12);
        }
        let a = match today.checked_sub_days(11) {
            Some(a) => a,
            None => {
                proof {
                    assert(false);
                }
                today
            },
        };
        let b = match Date::from_ymd_opt(y - 1, 12, 29) {
            Some(b) => b,
            None => {
                proof {
                    assert(false);
                }
                today
            },
        };
        if a.before(&b) {
            b
        } else {
            a
        }
    } else if y == 2020 && m == 4 && d <= 6 {
        match Date::from_ymd_opt(2020, 3, 28) {
            Some(x) => x,
            None => {
                proof {
                    assert(false);
                }
                today
            },
        }
    } else {
        proof {
            reveal_with_fuel(days_earlier, 6);
        }
        match today.checked_sub_days(5) {
            Some(x) => x,
            None => {
                proof {
                    assert(false);
                }
                today
            },
        }
    }
}

} // verus!
