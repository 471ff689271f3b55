//! The dividend and withholding-tax accruals, the deposits and withdrawals, the fees and the cash
//! balances of a Flex Query statement. Dividends and withholding come from the Statement of Funds
//! (`DIV` and `FRTAX` lines at the base-currency level, for an income type that the Cash
//! Transactions do not carry) and then from the Cash Transactions.
use vstd::prelude::*;

use crate::currency::Cash;
use crate::date::Date;
use crate::decimal::Decimal;
use crate::text::text_eq;

use super::flex_query::{
    parse_flex_date, parse_flex_datetime, CashReportCurrency, CashTransaction, FlexStatement,
    StatementOfFundsLine,
};
use super::income::{is_dividend_type, statement_income, CashTxIncome};
use super::trades::{date_result, datetime_result};
use crate::taxes::remapping::{after_remap, remapped_date, RemapRuleView, TaxRemapping};

verus! {

/// A dividend or a withholding-tax accrual of a security, signed: a negative dividend reverses
/// one credited earlier; a positive tax is withheld, a negative one refunded.
#[derive(Debug, Clone)]
pub struct Accrual {
    pub date: Date,
    pub symbol: String,
    pub amount: Cash,
}

/// A deposit (positive) or a withdrawal (negative).
#[derive(Debug, Clone)]
pub struct CashMovement {
    pub date: Date,
    pub amount: Cash,
}

/// A broker fee (positive) or a refund of one (negative), with the transaction's description
/// where it has one.
#[derive(Debug, Clone)]
pub struct FlexFee {
    pub date: Date,
    pub amount: Cash,
    pub description: Option<String>,
}

/// What a statement records besides its trades, interest and ledger.
#[derive(Debug)]
pub struct IncomeRecords {
    pub dividends: Vec<Accrual>,
    pub taxes: Vec<Accrual>,
    pub deposits: Vec<CashMovement>,
    pub fees: Vec<FlexFee>,
}

pub struct AccrualView {
    pub date: (int, int, int),
    pub symbol: Seq<char>,
    pub currency: Seq<char>,
    pub amount: Decimal,
}

pub struct MovementView {
    pub date: (int, int, int),
    pub currency: Seq<char>,
    pub amount: Decimal,
}

pub struct FeeView {
    pub date: (int, int, int),
    pub currency: Seq<char>,
    pub amount: Decimal,
    pub description: Option<Seq<char>>,
}

#[verifier::ext_equal]
pub struct RecordsView {
    pub dividends: Seq<AccrualView>,
    pub taxes: Seq<AccrualView>,
    pub deposits: Seq<MovementView>,
    pub fees: Seq<FeeView>,
}

pub open spec fn accrual_view(a: Accrual) -> AccrualView {
    AccrualView {
        date: (a.date.y(), a.date.m(), a.date.d()),
        symbol: a.symbol@,
        currency: a.amount.currency@,
        amount: a.amount.amount,
    }
}

pub open spec fn movement_view(a: CashMovement) -> MovementView {
    MovementView { date: (a.date.y(), a.date.m(), a.date.d()), currency: a.amount.currency@, amount: a.amount.amount }
}

pub open spec fn fee_view(a: FlexFee) -> FeeView {
    FeeView {
        date: (a.date.y(), a.date.m(), a.date.d()),
        currency: a.amount.currency@,
        amount: a.amount.amount,
        description: match a.description {
            Some(d) => Some(d@),
            None => None,
        },
    }
}

pub open spec fn records_view(r: IncomeRecords) -> RecordsView {
    RecordsView {
        dividends: r.dividends@.map_values(|a: Accrual| accrual_view(a)),
        taxes: r.taxes@.map_values(|a: Accrual| accrual_view(a)),
        deposits: r.deposits@.map_values(|a: CashMovement| movement_view(a)),
        fees: r.fees@.map_values(|a: FlexFee| fee_view(a)),
    }
}

pub open spec fn no_records() -> RecordsView {
    RecordsView { dividends: Seq::empty(), taxes: Seq::empty(), deposits: Seq::empty(), fees: Seq::empty() }
}

/// A Statement of Funds line: at the base-currency level, with a date, a `DIV` line accrues a
/// dividend and an `FRTAX` line withholding (a debit is tax withheld), each only for a security
/// and only where the Cash Transactions do not carry that income type.
pub open spec fn fund_record_step(acc: RecordsView, l: StatementOfFundsLine, income: CashTxIncome) -> RecordsView {
    if l.level_of_detail@ != "BaseCurrency"@ || l.date@.len() == 0 || date_result(l.date@) is Err
        || l.symbol@.len() == 0 {
        acc
    } else {
        let d = date_result(l.date@)->Ok_0;
        if l.activity_code@ == "DIV"@ && !income.dividends {
            RecordsView {
                dividends: acc.dividends.push(AccrualView { date: d, symbol: l.symbol@, currency: l.currency@, amount: l.amount }),
                ..acc
            }
        } else if l.activity_code@ == "FRTAX"@ && !income.withholding {
            RecordsView {
                taxes: acc.taxes.push(
                    AccrualView { date: d, symbol: l.symbol@, currency: l.currency@, amount: l.amount.spec_neg() },
                ),
                ..acc
            }
        } else {
            acc
        }
    }
}

pub open spec fn is_deposit_type(t: Seq<char>) -> bool {
    t == "Deposits/Withdrawals"@ || t == "Deposits"@ || t == "Withdrawals"@
}

pub open spec fn is_fee_type(t: Seq<char>) -> bool {
    t == "Other Fees"@ || t == "Commission Adjustments"@
}

/// A cash transaction: a dividend of a security, withholding on one (a debit is tax withheld,
/// booked on the day a remapping rule for its day and description names), a deposit or
/// withdrawal, or a fee (a debit is a fee). The rules come back with the one applied marked.
pub open spec fn cash_record_step(
    acc: RecordsView,
    rules: Seq<RemapRuleView>,
    tx: CashTransaction,
) -> (RecordsView, Seq<RemapRuleView>) {
    if datetime_result(tx.date_time@) is Err {
        (acc, rules)
    } else if tx.transaction_type@ == "Withholding Tax"@ && tx.symbol@.len() != 0 {
        let d = datetime_result(tx.date_time@)->Ok_0;
        (
            RecordsView {
                taxes: acc.taxes.push(
                    AccrualView {
                        date: remapped_date(rules, d, tx.description@),
                        symbol: tx.symbol@,
                        currency: tx.currency@,
                        amount: tx.amount.spec_neg(),
                    },
                ),
                ..acc
            },
            after_remap(rules, d, tx.description@),
        )
    } else {
        (cash_record_other(acc, tx), rules)
    }
}

/// A cash transaction other than a withholding on a security.
pub open spec fn cash_record_other(acc: RecordsView, tx: CashTransaction) -> RecordsView {
    if datetime_result(tx.date_time@) is Err {
        acc
    } else {
        let d = datetime_result(tx.date_time@)->Ok_0;
        let t = tx.transaction_type@;
        if is_dividend_type(t) {
            if tx.symbol@.len() == 0 {
                acc
            } else {
                RecordsView {
                    dividends: acc.dividends.push(
                        AccrualView { date: d, symbol: tx.symbol@, currency: tx.currency@, amount: tx.amount },
                    ),
                    ..acc
                }
            }
        } else if t == "Withholding Tax"@ {
            if tx.symbol@.len() == 0 {
                acc
            } else {
                RecordsView {
                    taxes: acc.taxes.push(
                        AccrualView { date: d, symbol: tx.symbol@, currency: tx.currency@, amount: tx.amount.spec_neg() },
                    ),
                    ..acc
                }
            }
        } else if is_deposit_type(t) {
            RecordsView {
                deposits: acc.deposits.push(MovementView { date: d, currency: tx.currency@, amount: tx.amount }),
                ..acc
            }
        } else if is_fee_type(t) {
            RecordsView {
                fees: acc.fees.push(
                    FeeView {
                        date: d,
                        currency: tx.currency@,
                        amount: tx.amount.spec_neg(),
                        description: if tx.description@.len() == 0 {
                            None
                        } else {
                            Some(tx.description@)
                        },
                    },
                ),
                ..acc
            }
        } else {
            acc
        }
    }
}

pub open spec fn fund_records(lines: Seq<StatementOfFundsLine>, k: nat, income: CashTxIncome) -> RecordsView
    decreases k,
{
    if k == 0 {
        no_records()
    } else {
        fund_record_step(fund_records(lines, (k - 1) as nat, income), lines[k - 1], income)
    }
}

pub open spec fn cash_records(
    txs: Seq<CashTransaction>,
    k: nat,
    acc: RecordsView,
    rules: Seq<RemapRuleView>,
) -> (RecordsView, Seq<RemapRuleView>)
    decreases k,
{
    if k == 0 {
        (acc, rules)
    } else {
        let prev = cash_records(txs, (k - 1) as nat, acc, rules);
        cash_record_step(prev.0, prev.1, txs[k - 1])
    }
}

/// The records of a statement: those of its Statement of Funds, then those of its Cash
/// Transactions; and the remapping rules with those applied marked.
pub open spec fn records_of(st: FlexStatement, rules: Seq<RemapRuleView>) -> (RecordsView, Seq<RemapRuleView>) {
    let f = match st.statement_of_funds {
        Some(s) => fund_records(s.lines@, s.lines@.len(), statement_income(st)),
        None => no_records(),
    };
    match st.cash_transactions {
        Some(c) => cash_records(c.transactions@, c.transactions@.len(), f, rules),
        None => (f, rules),
    }
}

/// The Statement of Funds takes no dividend that is a debit where it is the source of dividends:
/// such a line cannot be accrued as a payment.
pub open spec fn fund_dividends_ok(st: FlexStatement) -> bool {
    match st.statement_of_funds {
        Some(s) => forall|i: int|
            0 <= i < s.lines@.len() && (#[trigger] s.lines@[i]).level_of_detail@ == "BaseCurrency"@
                && s.lines@[i].activity_code@ == "DIV"@ && s.lines@[i].symbol@.len() != 0
                && !statement_income(st).dividends ==> s.lines@[i].amount.units() >= 0,
        None => true,
    }
}

spec fn s_lines_witness(st: FlexStatement, i: int) -> bool {
    match st.statement_of_funds {
        Some(s) => 0 <= i < s.lines@.len() && s.lines@[i].level_of_detail@ == "BaseCurrency"@
            && s.lines@[i].activity_code@ == "DIV"@ && s.lines@[i].symbol@.len() != 0
            && !statement_income(st).dividends && s.lines@[i].amount.units() < 0,
        None => false,
    }
}

/// Whether the Statement of Funds takes no dividend that is a debit where it is the source of
/// dividends.
pub fn fund_dividends_are_credits(st: &FlexStatement) -> (r: bool)
    ensures
        r == fund_dividends_ok(*st),
{
    let income = match &st.cash_transactions {
        Some(c) => CashTxIncome::from_transactions(&c.transactions),
        None => CashTxIncome { dividends: false, withholding: false, interest: false },
    };
    match &st.statement_of_funds {
        Some(f) => {
            let lines = &f.lines;
            let mut i: usize = 0;
            while i < lines.len()
                invariant
                    i <= lines@.len(),
                    income == statement_income(*st),
                    st.statement_of_funds == Some(*f),
                    lines@ == f.lines@,
                    forall|j: int|
                        0 <= j < i && (#[trigger] lines@[j]).level_of_detail@ == "BaseCurrency"@
                            && lines@[j].activity_code@ == "DIV"@ && lines@[j].symbol@.len() != 0
                            && !income.dividends ==> lines@[j].amount.units() >= 0,
                decreases lines@.len() - i,
            {
                let l = &lines[i];
                if text_eq(l.level_of_detail.as_str(), "BaseCurrency") && text_eq(l.activity_code.as_str(), "DIV")
                    && l.symbol.unicode_len() != 0 && !income.dividends && !l.amount.is_sign_positive() {
                    proof {
                        assert(lines@[i as int] == *l);
                        assert(s_lines_witness(*st, i as int));
                    }
                    return false;
                }
                i = i + 1;
            }
            true
        },
        None => true,
    }
}

/// The cash balances of the Cash Report: the ending cash of each currency row, without the
/// `BASE_SUMMARY` aggregate and rows whose currency is not a three-byte code.
pub open spec fn cash_assets_of(rows: Seq<CashReportCurrency>) -> Seq<(Seq<char>, Decimal)>
    decreases rows.len(),
{
    if rows.len() == 0 {
        Seq::empty()
    } else {
        let prev = cash_assets_of(rows.drop_last());
        let r = rows.last();
        if r.currency@ == "BASE_SUMMARY"@ || vstd::utf8::encode_utf8(r.currency@).len() as usize != 3 {
            prev
        } else {
            prev.push((r.currency@, r.ending_cash))
        }
    }
}

pub open spec fn cash_view(v: Seq<(String, Decimal)>) -> Seq<(Seq<char>, Decimal)> {
    v.map_values(|p: (String, Decimal)| (p.0@, p.1))
}

/// The cash balances of a statement's Cash Report.
pub fn parse_cash_assets(st: &FlexStatement) -> (r: Vec<(String, Decimal)>)
    ensures
        cash_view(r@) == match st.cash_report {
            Some(c) => cash_assets_of(c.currencies@),
            None => Seq::empty(),
        },
{
    let mut out: Vec<(String, Decimal)> = Vec::new();
    proof {
        assert(cash_view(out@) =~= Seq::<(Seq<char>, Decimal)>::empty());
    }
    match &st.cash_report {
        Some(c) => {
            let rows = &c.currencies;
            let mut i: usize = 0;
            while i < rows.len()
                invariant
                    i <= rows@.len(),
                    cash_view(out@) == cash_assets_of(rows@.take(i as int)),
                decreases rows@.len() - i,
            {
                let r = &rows[i];
                proof {
                    assert(rows@.take(i + 1).drop_last() =~= rows@.take(i as int));
                    assert(rows@.take(i + 1).last() == *r);
                }
                if !text_eq(r.currency.as_str(), "BASE_SUMMARY") && r.currency.as_str().len() == 3 {
                    let ghost before = out@;
                    out.push((r.currency.clone(), r.ending_cash));
                    proof {
                        assert(cash_view(out@) =~= cash_view(before).push((r.currency@, r.ending_cash)));
                    }
                }
                i = i + 1;
            }
            proof {
                assert(rows@.take(i as int) =~= rows@);
            }
        },
        None => {},
    }
    out
}

fn copy(s: &String) -> (r: String)
    ensures
        r@ == s@,
{
    s.clone()
}

fn push_dividend(out: &mut IncomeRecords, a: Accrual)
    ensures
        records_view(*final(out)) == (RecordsView {
            dividends: records_view(*old(out)).dividends.push(accrual_view(a)),
            ..records_view(*old(out))
        }),
{
    let ghost v = accrual_view(a);
    out.dividends.push(a);
    assert(records_view(*out).dividends =~= records_view(*old(out)).dividends.push(v));
    assert(records_view(*out).taxes =~= records_view(*old(out)).taxes);
}

fn push_tax(out: &mut IncomeRecords, a: Accrual)
    ensures
        records_view(*final(out)) == (RecordsView { taxes: records_view(*old(out)).taxes.push(accrual_view(a)), ..records_view(*old(out)) }),
{
    let ghost v = accrual_view(a);
    out.taxes.push(a);
    assert(records_view(*out).taxes =~= records_view(*old(out)).taxes.push(v));
    assert(records_view(*out).dividends =~= records_view(*old(out)).dividends);
}

fn push_deposit(out: &mut IncomeRecords, a: CashMovement)
    ensures
        records_view(*final(out)) == (RecordsView {
            deposits: records_view(*old(out)).deposits.push(movement_view(a)),
            ..records_view(*old(out))
        }),
{
    let ghost v = movement_view(a);
    out.deposits.push(a);
    assert(records_view(*out).deposits =~= records_view(*old(out)).deposits.push(v));
    assert(records_view(*out).dividends =~= records_view(*old(out)).dividends);
    assert(records_view(*out).taxes =~= records_view(*old(out)).taxes);
}

fn push_fee(out: &mut IncomeRecords, a: FlexFee)
    ensures
        records_view(*final(out)) == (RecordsView { fees: records_view(*old(out)).fees.push(fee_view(a)), ..records_view(*old(out)) }),
{
    let ghost v = fee_view(a);
    out.fees.push(a);
    assert(records_view(*out).fees =~= records_view(*old(out)).fees.push(v));
    assert(records_view(*out).dividends =~= records_view(*old(out)).dividends);
    assert(records_view(*out).taxes =~= records_view(*old(out)).taxes);
    assert(records_view(*out).deposits =~= records_view(*old(out)).deposits);
}

/// Read a Statement of Funds line for dividends and withholding.
fn fund_record(out: &mut IncomeRecords, l: &StatementOfFundsLine, income: &CashTxIncome)
    ensures
        records_view(*final(out)) == fund_record_step(records_view(*old(out)), *l, *income),
{
    if !text_eq(l.level_of_detail.as_str(), "BaseCurrency") || l.date.unicode_len() == 0
        || l.symbol.unicode_len() == 0 {
        return;
    }
    let d = match parse_flex_date(l.date.as_str()) {
        Ok(d) => d,
        Err(_) => {
            return;
        },
    };
    if text_eq(l.activity_code.as_str(), "DIV") && !income.dividends {
        push_dividend(out, Accrual { date: d, symbol: copy(&l.symbol), amount: Cash::new(l.currency.as_str(), l.amount) });
    } else if text_eq(l.activity_code.as_str(), "FRTAX") && !income.withholding {
        push_tax(out, Accrual { date: d, symbol: copy(&l.symbol), amount: Cash::new(l.currency.as_str(), l.amount.neg()) });
    }
}

/// Read a cash transaction for dividends, withholding, deposits and fees.
fn cash_record(out: &mut IncomeRecords, tx: &CashTransaction, remapping: &mut TaxRemapping)
    ensures
        (records_view(*final(out)), final(remapping)@) == cash_record_step(
            records_view(*old(out)),
            old(remapping)@,
            *tx,
        ),
{
    let d = match parse_flex_datetime(tx.date_time.as_str()) {
        Ok(d) => d,
        Err(_) => {
            return;
        },
    };
    let t = tx.transaction_type.as_str();
    let cash = Cash::new(tx.currency.as_str(), tx.amount);
    proof {
        reveal_strlit("Dividends");
        reveal_strlit("Payment In Lieu Of Dividends");
        reveal_strlit("Withholding Tax");
        assert("Dividends"@[0] != "Withholding Tax"@[0]);
        assert("Payment In Lieu Of Dividends"@[0] != "Withholding Tax"@[0]);
    }
    if text_eq(t, "Dividends") || text_eq(t, "Payment In Lieu Of Dividends") {
        if tx.symbol.unicode_len() != 0 {
            push_dividend(out, Accrual { date: d, symbol: copy(&tx.symbol), amount: cash });
        }
    } else if text_eq(t, "Withholding Tax") {
        if tx.symbol.unicode_len() != 0 {
            let date = remapping.map(d, tx.description.as_str());
            push_tax(out, Accrual { date, symbol: copy(&tx.symbol), amount: Cash::new(tx.currency.as_str(), tx.amount.neg()) });
        }
    } else if text_eq(t, "Deposits/Withdrawals") || text_eq(t, "Deposits") || text_eq(t, "Withdrawals") {
        push_deposit(out, CashMovement { date: d, amount: cash });
    } else if text_eq(t, "Other Fees") || text_eq(t, "Commission Adjustments") {
        let description = if tx.description.unicode_len() == 0 {
            None
        } else {
            Some(copy(&tx.description))
        };
        push_fee(out, FlexFee { date: d, amount: Cash::new(tx.currency.as_str(), tx.amount.neg()), description });
    }
}

/// The records of a statement: its Statement of Funds, then its Cash Transactions.
pub fn parse_records(st: &FlexStatement, remapping: &mut TaxRemapping) -> (r: IncomeRecords)
    ensures
        (records_view(r), final(remapping)@) == records_of(*st, old(remapping)@),
{
    let mut out = IncomeRecords { dividends: Vec::new(), taxes: Vec::new(), deposits: Vec::new(), fees: Vec::new() };
    proof {
        assert(records_view(out) =~= no_records());
    }
    let income = match &st.cash_transactions {
        Some(c) => CashTxIncome::from_transactions(&c.transactions),
        None => CashTxIncome { dividends: false, withholding: false, interest: false },
    };
    match &st.statement_of_funds {
        Some(f) => {
            let lines = &f.lines;
            let mut k: usize = 0;
            while k < lines.len()
                invariant
                    k <= lines@.len(),
                    income == statement_income(*st),
                    records_view(out) == fund_records(lines@, k as nat, income),
                decreases lines@.len() - k,
            {
                fund_record(&mut out, &lines[k], &income);
                k = k + 1;
            }
        },
        None => {},
    }
    let ghost start = records_view(out);
    match &st.cash_transactions {
        Some(c) => {
            let txs = &c.transactions;
            let mut k: usize = 0;
            while k < txs.len()
                invariant
                    k <= txs@.len(),
                    (records_view(out), remapping@) == cash_records(txs@, k as nat, start, old(remapping)@),
                decreases txs@.len() - k,
            {
                cash_record(&mut out, &txs[k], remapping);
                k = k + 1;
            }
        },
        None => {},
    }
    out
}

} // verus!
