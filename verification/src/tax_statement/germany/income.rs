//! Interest on idle cash and broker fees of a year, as statement entries. The EUR value of each
//! item is given: the currency conversion is the caller's.
use vstd::prelude::*;

use crate::broker_statement::interest::IdleCashInterest;
use crate::date::Date;
use crate::decimal::Decimal;
use crate::taxes::germany::{base_ok, church_rate_ok, spec_compute_taxes};

use super::statement::{FeeEntry, GermanTaxStatement, InterestEntry};

verus! {

/// An interest entry as plain values.
pub struct InterestEntryView {
    pub payment_date: Date,
    pub description: Seq<char>,
    pub gross_amount_eur: Decimal,
    pub foreign_withholding_tax: Decimal,
    pub taxable_amount: Decimal,
    pub abgeltungssteuer: Decimal,
    pub solidaritaetszuschlag: Decimal,
    pub kirchensteuer: Decimal,
    pub foreign_tax_credit: Decimal,
    pub total_tax: Decimal,
    pub net_tax: Decimal,
    pub has_notes: bool,
}

pub open spec fn interest_entry_view(e: InterestEntry) -> InterestEntryView {
    InterestEntryView {
        payment_date: e.payment_date,
        description: e.description@,
        gross_amount_eur: e.gross_amount_eur,
        foreign_withholding_tax: e.foreign_withholding_tax,
        taxable_amount: e.taxable_amount,
        abgeltungssteuer: e.abgeltungssteuer,
        solidaritaetszuschlag: e.solidaritaetszuschlag,
        kirchensteuer: e.kirchensteuer,
        foreign_tax_credit: e.foreign_tax_credit,
        total_tax: e.total_tax,
        net_tax: e.net_tax,
        has_notes: e.notes is Some,
    }
}

pub open spec fn interest_entries_view(v: Seq<InterestEntry>) -> Seq<InterestEntryView> {
    v.map_values(|e: InterestEntry| interest_entry_view(e))
}

/// The entry of interest paid on `date` in `currency`, worth `eur` in EUR: fully taxable (no
/// Teilfreistellung), with no foreign withholding.
pub open spec fn interest_entry(date: Date, currency: Seq<char>, eur: Decimal, church: Decimal) -> InterestEntryView {
    let z = Decimal::spec_zero();
    let taxes = spec_compute_taxes(church, eur, z);
    InterestEntryView {
        payment_date: date,
        description: "Idle cash interest - "@ + currency,
        gross_amount_eur: eur,
        foreign_withholding_tax: z,
        taxable_amount: eur,
        abgeltungssteuer: taxes.abgeltungssteuer,
        solidaritaetszuschlag: taxes.solidaritaetszuschlag,
        kirchensteuer: taxes.kirchensteuer,
        foreign_tax_credit: z,
        total_tax: taxes.total,
        net_tax: taxes.total,
        has_notes: false,
    }
}

/// The interest entries of the first `n` items of `year`, in order.
pub open spec fn interest_entries(
    items: Seq<IdleCashInterest>,
    eur: Seq<Decimal>,
    n: nat,
    year: int,
    church: Decimal,
) -> Seq<InterestEntryView>
    decreases n,
{
    if n == 0 {
        Seq::empty()
    } else {
        let prev = interest_entries(items, eur, (n - 1) as nat, year, church);
        let x = items[n - 1];
        if x.date.y() == year {
            prev.push(interest_entry(x.date, x.amount.currency@, eur[n - 1], church))
        } else {
            prev
        }
    }
}

pub open spec fn any_in_year(items: Seq<IdleCashInterest>, year: int) -> bool {
    exists|i: int| 0 <= i < items.len() && (#[trigger] items[i]).date.y() == year
}

/// Add an entry for every interest item of `year`, in order; `eur[i]` is the EUR value of
/// `items[i]`. Whether there was one is returned.
pub fn process_interest(
    statement: &mut GermanTaxStatement,
    items: &Vec<IdleCashInterest>,
    eur: &Vec<Decimal>,
    year: i32,
) -> (r: bool)
    requires
        eur@.len() == items@.len(),
        church_rate_ok(old(statement).tax_rates.church_tax_rate),
        forall|i: int| 0 <= i < eur@.len() ==> base_ok(#[trigger] eur@[i]),
    ensures
        r == any_in_year(items@, year as int),
        interest_entries_view(final(statement).interest@) == interest_entries_view(old(statement).interest@)
            + interest_entries(items@, eur@, items@.len(), year as int, old(statement).tax_rates.church_tax_rate),
        *final(statement) == (GermanTaxStatement { interest: final(statement).interest, ..*old(statement) }),
{
    let ghost start = interest_entries_view(statement.interest@);
    let ghost church = statement.tax_rates.church_tax_rate;
    let mut has_income = false;
    let mut i: usize = 0;
    proof {
        assert(start + Seq::<InterestEntryView>::empty() =~= start);
    }
    while i < items.len()
        invariant
            i <= items@.len(),
            eur@.len() == items@.len(),
            forall|j: int| 0 <= j < eur@.len() ==> base_ok(#[trigger] eur@[j]),
            church == statement.tax_rates.church_tax_rate,
            church_rate_ok(church),
            interest_entries_view(statement.interest@) == start + interest_entries(items@, eur@, i as nat, year as int, church),
            *statement == (GermanTaxStatement { interest: statement.interest, ..*old(statement) }),
            has_income == exists|j: int| 0 <= j < i && (#[trigger] items@[j]).date.y() == year,
        decreases items@.len() - i,
    {
        let x = &items[i];
        if x.date.year() == year {
            has_income = true;
            let amount = eur[i];
            let zero = Decimal::zero();
            proof {
                Decimal::lemma_spec_zero();
            }
            let taxes = statement.tax_rates.compute_taxes(amount, zero);
            let mut description = <String as StringExecFns>::from_str("Idle cash interest - ");
            description.append(x.amount.currency.as_str());
            let entry = InterestEntry {
                payment_date: x.date,
                description,
                gross_amount_eur: amount,
                foreign_withholding_tax: zero,
                taxable_amount: amount,
                abgeltungssteuer: taxes.abgeltungssteuer,
                solidaritaetszuschlag: taxes.solidaritaetszuschlag,
                kirchensteuer: taxes.kirchensteuer,
                foreign_tax_credit: zero,
                total_tax: taxes.total,
                net_tax: taxes.total,
                notes: None,
            };
            let ghost before = statement.interest@;
            statement.add_interest(entry);
            proof {
                assert(interest_entries_view(statement.interest@) =~= interest_entries_view(before).push(
                    interest_entry_view(entry),
                ));
                assert(start + interest_entries(items@, eur@, (i + 1) as nat, year as int, church) =~= (start
                    + interest_entries(items@, eur@, i as nat, year as int, church)).push(interest_entry_view(entry)));
            }
        }
        i = i + 1;
    }
    has_income
}

/// A broker fee of the broker statement: its date, its description where it has one, and its EUR
/// amount (positive for a fee, negative for a refund).
#[derive(Debug, Clone)]
pub struct BrokerFee {
    pub date: Date,
    pub description: Option<String>,
    pub amount_eur: Decimal,
}

/// A fee entry as plain values.
pub struct FeeEntryView {
    pub date: Date,
    pub description: Seq<char>,
    pub amount_eur: Decimal,
    pub notes: Option<Seq<char>>,
}

pub open spec fn fee_entry_view(e: FeeEntry) -> FeeEntryView {
    FeeEntryView {
        date: e.date,
        description: e.description@,
        amount_eur: e.amount_eur,
        notes: match e.notes {
            Some(n) => Some(n@),
            None => None,
        },
    }
}

pub open spec fn fee_entries_view(v: Seq<FeeEntry>) -> Seq<FeeEntryView> {
    v.map_values(|e: FeeEntry| fee_entry_view(e))
}

/// The entry of a fee: described as "Broker fee" where it has no description; a refund says that
/// it reduces the deductible expenses.
pub open spec fn fee_entry(f: BrokerFee) -> FeeEntryView {
    FeeEntryView {
        date: f.date,
        description: match f.description {
            Some(d) => d@,
            None => "Broker fee"@,
        },
        amount_eur: f.amount_eur,
        notes: if f.amount_eur.units() < 0 {
            Some("Fee refund - reduces deductible expenses"@)
        } else {
            None
        },
    }
}

pub open spec fn fee_entries(fees: Seq<BrokerFee>, n: nat, year: int) -> Seq<FeeEntryView>
    decreases n,
{
    if n == 0 {
        Seq::empty()
    } else {
        let prev = fee_entries(fees, (n - 1) as nat, year);
        if fees[n - 1].date.y() == year {
            prev.push(fee_entry(fees[n - 1]))
        } else {
            prev
        }
    }
}

/// Add an entry for every fee of `year`, in order. Whether there was one is returned.
pub fn process_fees(statement: &mut GermanTaxStatement, fees: &Vec<BrokerFee>, year: i32) -> (r: bool)
    ensures
        r == exists|i: int| 0 <= i < fees@.len() && (#[trigger] fees@[i]).date.y() == year,
        fee_entries_view(final(statement).fees@) == fee_entries_view(old(statement).fees@) + fee_entries(
            fees@,
            fees@.len(),
            year as int,
        ),
        *final(statement) == (GermanTaxStatement { fees: final(statement).fees, ..*old(statement) }),
{
    let ghost start = fee_entries_view(statement.fees@);
    let mut has_fees = false;
    let mut i: usize = 0;
    proof {
        assert(start + Seq::<FeeEntryView>::empty() =~= start);
    }
    while i < fees.len()
        invariant
            i <= fees@.len(),
            fee_entries_view(statement.fees@) == start + fee_entries(fees@, i as nat, year as int),
            *statement == (GermanTaxStatement { fees: statement.fees, ..*old(statement) }),
            has_fees == exists|j: int| 0 <= j < i && (#[trigger] fees@[j]).date.y() == year,
        decreases fees@.len() - i,
    {
        let f = &fees[i];
        if f.date.year() == year {
            has_fees = true;
            let description = match &f.description {
                Some(d) => d.clone(),
                None => <String as StringExecFns>::from_str("Broker fee"),
            };
            let zero = Decimal::zero();
            let notes = if f.amount_eur.lt(&zero) {
                Some(<String as StringExecFns>::from_str("Fee refund - reduces deductible expenses"))
            } else {
                None
            };
            let entry = FeeEntry { date: f.date, description, amount_eur: f.amount_eur, notes };
            let ghost before = statement.fees@;
            statement.add_fee(entry);
            proof {
                assert(fee_entries_view(statement.fees@) =~= fee_entries_view(before).push(fee_entry_view(entry)));
                assert(start + fee_entries(fees@, (i + 1) as nat, year as int) =~= (start + fee_entries(
                    fees@,
                    i as nat,
                    year as int,
                )).push(fee_entry_view(entry)));
            }
        }
        i = i + 1;
    }
    has_fees
}

} // verus!
