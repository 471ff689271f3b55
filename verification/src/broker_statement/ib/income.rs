//! Interest on idle cash in a Flex Query statement, from the Statement of Funds (`CINT` lines at the
//! base-currency level) and from the Cash Transactions section, without counting an income type
//! twice: the Statement of Funds yields a type only where the Cash Transactions carry none of it.
//! Reading the two sections also checks their dates and that every dividend names its security.
use vstd::prelude::*;

use crate::broker_statement::interest::{IdleCashInterest, InterestKind};
use crate::currency::Cash;
use crate::decimal::Decimal;
use crate::text::text_eq;

use super::flex_query::{parse_flex_date, parse_flex_datetime, CashTransaction, FlexStatement, StatementOfFundsLine};
use super::trades::{date_result, datetime_result};

verus! {

/// Which income types the Cash Transactions section carries.
pub struct CashTxIncome {
    pub dividends: bool,
    pub withholding: bool,
    pub interest: bool,
}

pub open spec fn is_dividend_type(t: Seq<char>) -> bool {
    t == "Dividends"@ || t == "Payment In Lieu Of Dividends"@
}

pub open spec fn is_interest_type(t: Seq<char>) -> bool {
    t == "Broker Interest Paid"@ || t == "Broker Interest Received"@
}

/// The income types that `txs` carry, read one transaction after another.
pub open spec fn income_of(txs: Seq<CashTransaction>) -> CashTxIncome
    decreases txs.len(),
{
    if txs.len() == 0 {
        no_income()
    } else {
        let p = income_of(txs.drop_last());
        let t = txs.last().transaction_type@;
        CashTxIncome {
            dividends: p.dividends || is_dividend_type(t),
            withholding: p.withholding || t == "Withholding Tax"@,
            interest: p.interest || is_interest_type(t),
        }
    }
}

impl CashTxIncome {
    /// The income types that `transactions` carry.
    pub fn from_transactions(transactions: &Vec<CashTransaction>) -> (r: CashTxIncome)
        ensures
            r == income_of(transactions@),
    {
        let mut income = CashTxIncome { dividends: false, withholding: false, interest: false };
        let mut i: usize = 0;
        while i < transactions.len()
            invariant
                i <= transactions@.len(),
                income == income_of(transactions@.take(i as int)),
            decreases transactions@.len() - i,
        {
            let t = transactions[i].transaction_type.as_str();
            proof {
                assert(transactions@.take(i + 1).drop_last() =~= transactions@.take(i as int));
            }
            if text_eq(t, "Dividends") || text_eq(t, "Payment In Lieu Of Dividends") {
                income.dividends = true;
            }
            if text_eq(t, "Withholding Tax") {
                income.withholding = true;
            }
            if text_eq(t, "Broker Interest Paid") || text_eq(t, "Broker Interest Received") {
                income.interest = true;
            }
            i = i + 1;
        }
        proof {
            assert(transactions@.take(i as int) =~= transactions@);
        }
        income
    }
}

/// Interest as plain values.
pub struct InterestView {
    pub date: (int, int, int),
    pub currency: Seq<char>,
    pub amount: Decimal,
    pub kind: Option<InterestKind>,
}

impl View for IdleCashInterest {
    type V = InterestView;

    open spec fn view(&self) -> InterestView {
        InterestView {
            date: (self.date.y(), self.date.m(), self.date.d()),
            currency: self.amount.currency@,
            amount: self.amount.amount,
            kind: self.kind,
        }
    }
}

pub open spec fn interest_view(v: Seq<IdleCashInterest>) -> Seq<InterestView> {
    v.map_values(|x: IdleCashInterest| x@)
}

/// A Statement of Funds line read for income: base-currency lines with a date must have a valid
/// one; a `CINT` line is interest received unless the Cash Transactions carry interest.
pub open spec fn fund_income_step(acc: Seq<InterestView>, l: StatementOfFundsLine, income: CashTxIncome) -> Result<
    Seq<InterestView>,
    Seq<char>,
> {
    if l.level_of_detail@ != "BaseCurrency"@ || l.date@.len() == 0 {
        Ok(acc)
    } else {
        match date_result(l.date@) {
            Err(e) => Err(e),
            Ok(d) => if l.activity_code@ == "CINT"@ && !income.interest {
                Ok(acc.push(InterestView { date: d, currency: l.currency@, amount: l.amount, kind: Some(InterestKind::Received) }))
            } else {
                Ok(acc)
            },
        }
    }
}

/// The description of a dividend without symbol, quoted (quotes and backslashes escaped).
pub open spec fn quoted(s: Seq<char>) -> Seq<char>
    decreases s.len(),
{
    if s.len() == 0 {
        Seq::empty()
    } else {
        quoted(s.drop_last()) + if s.last() == '"' || s.last() == '\\' {
            seq!['\\', s.last()]
        } else {
            seq![s.last()]
        }
    }
}

/// A cash transaction: its date must be valid and a dividend must name its security; interest is
/// taken with the kind its type gives.
pub open spec fn cash_tx_step(acc: Seq<InterestView>, tx: CashTransaction) -> Result<Seq<InterestView>, Seq<char>> {
    match datetime_result(tx.date_time@) {
        Err(e) => Err(e),
        Ok(d) => {
            let t = tx.transaction_type@;
            if is_dividend_type(t) && tx.symbol@.len() == 0 {
                Err("Dividend without symbol: \""@ + quoted(tx.description@) + "\""@)
            } else if t == "Broker Interest Paid"@ {
                Ok(acc.push(InterestView { date: d, currency: tx.currency@, amount: tx.amount, kind: Some(InterestKind::Paid) }))
            } else if t == "Broker Interest Received"@ {
                Ok(acc.push(InterestView { date: d, currency: tx.currency@, amount: tx.amount, kind: Some(InterestKind::Received) }))
            } else {
                Ok(acc)
            }
        },
    }
}

pub open spec fn fund_income(lines: Seq<StatementOfFundsLine>, k: nat, income: CashTxIncome, acc: Seq<InterestView>) -> Result<
    Seq<InterestView>,
    Seq<char>,
>
    decreases k,
{
    if k == 0 {
        Ok(acc)
    } else {
        match fund_income(lines, (k - 1) as nat, income, acc) {
            Err(e) => Err(e),
            Ok(a) => fund_income_step(a, lines[k - 1], income),
        }
    }
}

pub open spec fn cash_txs(txs: Seq<CashTransaction>, k: nat, acc: Seq<InterestView>) -> Result<Seq<InterestView>, Seq<char>>
    decreases k,
{
    if k == 0 {
        Ok(acc)
    } else {
        match cash_txs(txs, (k - 1) as nat, acc) {
            Err(e) => Err(e),
            Ok(a) => cash_tx_step(a, txs[k - 1]),
        }
    }
}

pub open spec fn no_income() -> CashTxIncome {
    CashTxIncome { dividends: false, withholding: false, interest: false }
}

/// The income flags of a statement's Cash Transactions, none where it has no such section.
pub open spec fn statement_income(st: FlexStatement) -> CashTxIncome {
    match st.cash_transactions {
        Some(c) => income_of(c.transactions@),
        None => no_income(),
    }
}

/// The interest read from the Statement of Funds.
pub open spec fn fund_interest_of(st: FlexStatement) -> Result<Seq<InterestView>, Seq<char>> {
    match st.statement_of_funds {
        Some(f) => fund_income(f.lines@, f.lines@.len(), statement_income(st), Seq::empty()),
        None => Ok(Seq::empty()),
    }
}

/// The interest read from the Cash Transactions, after that of the Statement of Funds.
pub open spec fn cash_interest_of(st: FlexStatement, acc: Seq<InterestView>) -> Result<Seq<InterestView>, Seq<char>> {
    match st.cash_transactions {
        Some(c) => cash_txs(c.transactions@, c.transactions@.len(), acc),
        None => Ok(acc),
    }
}

fn copy(s: &str) -> (r: String)
    ensures
        r@ == s@,
{
    <String as StringExecFns>::from_str(s)
}

fn interest(date: crate::date::Date, currency: &str, amount: Decimal, kind: InterestKind) -> (r: IdleCashInterest)
    ensures
        r@ == (InterestView { date: (date.y(), date.m(), date.d()), currency: currency@, amount, kind: Some(kind) }),
{
    IdleCashInterest::new_typed(date, Cash::new(currency, amount), kind)
}

fn push_interest(v: &mut Vec<IdleCashInterest>, x: IdleCashInterest)
    ensures
        interest_view(final(v)@) == interest_view(old(v)@).push(x@),
{
    let ghost xv = x@;
    v.push(x);
    assert(interest_view(v@) =~= interest_view(old(v)@).push(xv));
}

/// Read a Statement of Funds line for income.
pub fn parse_statement_of_funds_dividend(
    interest_out: &mut Vec<IdleCashInterest>,
    line: &StatementOfFundsLine,
    income: &CashTxIncome,
) -> (r: Result<(), String>)
    ensures
        match fund_income_step(interest_view(old(interest_out)@), *line, *income) {
            Ok(a) => r is Ok && interest_view(final(interest_out)@) == a,
            Err(e) => r matches Err(m) && m@ == e,
        },
{
    if !text_eq(line.level_of_detail.as_str(), "BaseCurrency") || line.date.unicode_len() == 0 {
        return Ok(());
    }
    let date = match parse_flex_date(line.date.as_str()) {
        Ok(d) => d,
        Err(e) => return Err(e),
    };
    if text_eq(line.activity_code.as_str(), "CINT") && !income.interest {
        push_interest(interest_out, interest(date, line.currency.as_str(), line.amount, InterestKind::Received));
    }
    Ok(())
}

fn push_quoted(out: &mut String, s: &str)
    ensures
        final(out)@ == old(out)@ + quoted(s@),
{
    let ghost start = out@;
    let n = s.unicode_len();
    let mut i: usize = 0;
    while i < n
        invariant
            n == s@.len(),
            i <= n,
            out@ == start + quoted(s@.take(i as int)),
        decreases n - i,
    {
        let c = s.get_char(i);
        proof {
            assert(s@.take(i + 1).drop_last() =~= s@.take(i as int));
            assert(s@.take(i + 1).last() == c);
        }
        if c == '"' || c == '\\' {
            crate::text::push_char(out, '\\');
        }
        crate::text::push_char(out, c);
        proof {
            assert(out@ =~= start + quoted(s@.take(i + 1)));
        }
        i = i + 1;
    }
    proof {
        assert(s@.take(i as int) =~= s@);
    }
}

/// Read a cash transaction for interest, checking its date and that a dividend names its security.
pub fn parse_cash_transaction(interest_out: &mut Vec<IdleCashInterest>, tx: &CashTransaction) -> (r: Result<(), String>)
    ensures
        match cash_tx_step(interest_view(old(interest_out)@), *tx) {
            Ok(a) => r is Ok && interest_view(final(interest_out)@) == a,
            Err(e) => r matches Err(m) && m@ == e,
        },
{
    let date = match parse_flex_datetime(tx.date_time.as_str()) {
        Ok(d) => d,
        Err(e) => return Err(e),
    };
    let t = tx.transaction_type.as_str();
    if (text_eq(t, "Dividends") || text_eq(t, "Payment In Lieu Of Dividends")) && tx.symbol.unicode_len() == 0 {
        let mut m = copy("Dividend without symbol: \"");
        push_quoted(&mut m, tx.description.as_str());
        m.append("\"");
        return Err(m);
    }
    if text_eq(t, "Broker Interest Paid") {
        push_interest(interest_out, interest(date, tx.currency.as_str(), tx.amount, InterestKind::Paid));
    } else if text_eq(t, "Broker Interest Received") {
        push_interest(interest_out, interest(date, tx.currency.as_str(), tx.amount, InterestKind::Received));
    }
    Ok(())
}

proof fn lemma_fund_income_error(lines: Seq<StatementOfFundsLine>, k: nat, income: CashTxIncome, acc: Seq<InterestView>)
    requires
        k <= lines.len(),
        fund_income(lines, k, income, acc) is Err,
    ensures
        fund_income(lines, lines.len(), income, acc) == fund_income(lines, k, income, acc),
    decreases lines.len() - k,
{
    if k < lines.len() {
        lemma_fund_income_error(lines, k + 1, income, acc);
    }
}

proof fn lemma_cash_txs_error(txs: Seq<CashTransaction>, k: nat, acc: Seq<InterestView>)
    requires
        k <= txs.len(),
        cash_txs(txs, k, acc) is Err,
    ensures
        cash_txs(txs, txs.len(), acc) == cash_txs(txs, k, acc),
    decreases txs.len() - k,
{
    if k < txs.len() {
        lemma_cash_txs_error(txs, k + 1, acc);
    }
}

/// The interest of the Statement of Funds, read line by line.
pub fn parse_fund_interest(st: &FlexStatement) -> (r: Result<Vec<IdleCashInterest>, String>)
    ensures
        match fund_interest_of(*st) {
            Ok(a) => r matches Ok(v) && interest_view(v@) == a,
            Err(e) => r matches Err(m) && m@ == e,
        },
{
    let income = match &st.cash_transactions {
        Some(c) => CashTxIncome::from_transactions(&c.transactions),
        None => CashTxIncome { dividends: false, withholding: false, interest: false },
    };
    let mut out: Vec<IdleCashInterest> = Vec::new();
    assert(interest_view(out@) =~= Seq::<InterestView>::empty());
    match &st.statement_of_funds {
        Some(f) => {
            let lines = &f.lines;
            let mut k: usize = 0;
            while k < lines.len()
                invariant
                    k <= lines@.len(),
                    income == statement_income(*st),
                    st.statement_of_funds == Some(*f),
                    lines@ == f.lines@,
                    fund_income(lines@, k as nat, income, Seq::empty()) == Ok::<Seq<InterestView>, Seq<char>>(
                        interest_view(out@),
                    ),
                decreases lines@.len() - k,
            {
                let ghost before = interest_view(out@);
                match parse_statement_of_funds_dividend(&mut out, &lines[k], &income) {
                    Ok(()) => {},
                    Err(e) => {
                        proof {
                            assert(fund_income_step(before, lines@[k as int], income) == Err::<Seq<InterestView>, Seq<char>>(e@));
                            assert(fund_income(lines@, k as nat + 1, income, Seq::empty()) == Err::<Seq<InterestView>, Seq<char>>(e@));
                            lemma_fund_income_error(lines@, k as nat + 1, income, Seq::empty());
                        }
                        return Err(e);
                    },
                }
                k = k + 1;
            }
        },
        None => {},
    }
    Ok(out)
}

/// The interest of the Cash Transactions, appended.
pub fn parse_cash_interest(st: &FlexStatement, out: &mut Vec<IdleCashInterest>) -> (r: Result<(), String>)
    ensures
        match cash_interest_of(*st, interest_view(old(out)@)) {
            Ok(a) => r is Ok && interest_view(final(out)@) == a,
            Err(e) => r matches Err(m) && m@ == e,
        },
{
    let ghost start = interest_view(out@);
    match &st.cash_transactions {
        Some(c) => {
            let txs = &c.transactions;
            let mut k: usize = 0;
            while k < txs.len()
                invariant
                    k <= txs@.len(),
                    start == interest_view(old(out)@),
                    st.cash_transactions == Some(*c),
                    txs@ == c.transactions@,
                    cash_txs(txs@, k as nat, start) == Ok::<Seq<InterestView>, Seq<char>>(interest_view(out@)),
                decreases txs@.len() - k,
            {
                let ghost before = interest_view(out@);
                match parse_cash_transaction(out, &txs[k]) {
                    Ok(()) => {},
                    Err(e) => {
                        proof {
                            assert(cash_tx_step(before, txs@[k as int]) == Err::<Seq<InterestView>, Seq<char>>(e@));
                            assert(cash_txs(txs@, k as nat + 1, start) == Err::<Seq<InterestView>, Seq<char>>(e@));
                            lemma_cash_txs_error(txs@, k as nat + 1, start);
                        }
                        return Err(e);
                    },
                }
                k = k + 1;
            }
        },
        None => {},
    }
    Ok(())
}

} // verus!
