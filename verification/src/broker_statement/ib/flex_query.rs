//! Interactive Brokers Flex Query statements: the records of the XML export, the dates it writes
//! (`YYYYMMDD`, `YYYYMMDD;HHMMSS`), and the per-currency cash-flow ledger of its Statement of
//! Funds that the FX FIFO replays.
use vstd::prelude::*;
use vstd::string::StringSliceAdditionalSpecFns;
use vstd::utf8::{decode_utf8, encode_utf8, is_char_boundary};

use crate::broker_statement::interest::{ForeignCashFlow, IdleCashInterest};
use crate::date::{valid_date, Date};
use crate::decimal::Decimal;
use crate::text::{first_index, holds, text_eq};
use crate::taxes::remapping::{RemapRuleView, TaxRemapping};

use super::records::{
    cash_assets_of, cash_view, fund_dividends_ok, parse_cash_assets, parse_records, records_of, records_view,
    Accrual, CashMovement, FlexFee, RecordsView,
};
use super::income::{cash_interest_of, fund_interest_of, interest_view, parse_cash_interest, parse_fund_interest, InterestView};
use super::trades::{isins_view, parse_stock_trades, stock_trades_of, trades_view, StockTrade, TradeView};

verus! {

/// Root element of Flex Query response
#[derive(Debug)]
pub struct FlexQueryResponse {
    pub flex_statements: FlexStatements,
}

#[derive(Debug)]
pub struct FlexStatements {
    pub statements: Vec<FlexStatement>,
}

#[derive(Debug)]
pub struct FlexStatement {
    pub account_id: String,
    pub from_date: String,
    pub to_date: String,
    pub cash_report: Option<CashReport>,
    pub statement_of_funds: Option<StatementOfFunds>,
    pub trades: Option<Trades>,
    pub cash_transactions: Option<CashTransactions>,
    pub corporate_actions: Option<CorporateActions>,
    pub open_positions: Option<OpenPositions>,
    pub securities_info: Option<SecuritiesInfo>,
    pub fx_transactions: Option<FxTransactions>,
    pub stock_grant_activities: Option<StockGrantActivities>,
}

#[derive(Debug)]
pub struct CashReport {
    pub currencies: Vec<CashReportCurrency>,
}

#[derive(Debug)]
pub struct CashReportCurrency {
    pub currency: String,
    pub starting_cash: Decimal,
    pub ending_cash: Decimal,
    pub dividends: Decimal,
    pub broker_interest: Decimal,
    pub withholding_tax: Decimal,
}

#[derive(Debug)]
pub struct StatementOfFunds {
    pub lines: Vec<StatementOfFundsLine>,
}

#[derive(Debug)]
pub struct StatementOfFundsLine {
    pub currency: String,
    pub fx_rate_to_base: String,
    pub date: String,
    pub settle_date: String,
    pub activity_code: String,
    pub activity_description: String,
    pub symbol: String,
    pub isin: String,
    pub asset_category: String,
    pub amount: Decimal,
    pub trade_quantity: Decimal,
    pub trade_price: Decimal,
    pub trade_gross: Decimal,
    pub trade_commission: Decimal,
    pub buy_sell: String,
    pub level_of_detail: String,
    pub balance: Decimal,
    pub transaction_id: String,
}

#[derive(Debug)]
pub struct Trades {
    pub trades: Vec<Trade>,
}

#[derive(Debug)]
pub struct Trade {
    pub currency: String,
    pub symbol: String,
    pub isin: String,
    pub description: String,
    pub asset_category: String,
    pub date_time: String,
    pub settle_date: String,
    pub quantity: Decimal,
    pub trade_price: Decimal,
    pub trade_money: Decimal,
    pub commission: Decimal,
    pub buy_sell: String,
    pub open_close_indicator: String,
    pub trade_id: String,
    pub orig_trade_id: String,
}

#[derive(Debug)]
pub struct CashTransactions {
    pub transactions: Vec<CashTransaction>,
}

#[derive(Debug)]
pub struct CashTransaction {
    pub currency: String,
    pub symbol: String,
    pub isin: String,
    pub description: String,
    pub date_time: String,
    pub settle_date: String,
    pub amount: Decimal,
    pub transaction_type: String,
}

#[derive(Debug)]
pub struct CorporateActions {
    pub actions: Vec<CorporateAction>,
}

#[derive(Debug)]
pub struct CorporateAction {
    pub currency: String,
    pub asset_category: String,
    pub report_date: String,
    pub proceeds: Decimal,
    pub symbol: String,
    pub description: String,
    pub date_time: String,
    pub quantity: Decimal,
}

#[derive(Debug)]
pub struct OpenPositions {
    pub positions: Vec<OpenPosition>,
}

#[derive(Debug)]
pub struct OpenPosition {
    pub currency: String,
    pub symbol: String,
    pub isin: String,
    pub description: String,
    pub position: Decimal,
    pub mark_price: Decimal,
}

#[derive(Debug)]
pub struct SecuritiesInfo {
    pub securities: Vec<SecurityInfo>,
}

#[derive(Debug)]
pub struct SecurityInfo {
    pub symbol: String,
    pub isin: String,
    pub description: String,
    pub asset_category: String,
}

/// FX Transactions section - contains detailed FX P&L with realizedPL field
/// This is the preferred source for FX gains/losses as it has accurate P&L values.
#[derive(Debug)]
pub struct FxTransactions {
    pub transactions: Vec<FxTransactionEntry>,
}

/// Individual FX transaction with realized P&L.
/// The `realizedPL` field contains the actual FX gain/loss for tax purposes.
#[derive(Debug)]
pub struct FxTransactionEntry {
    /// Functional currency (usually EUR for German tax residents)
    pub functional_currency: String,

    /// The FX currency being traded (e.g., USD)
    pub fx_currency: String,

    /// Report date in YYYYMMDD format
    pub report_date: String,

    /// Date and time of the transaction
    pub date_time: String,

    /// Description of the transaction (e.g., "CASH: -4353.72 EUR.USD" or "STK: 50 STRC")
    pub activity_description: String,

    /// Quantity of foreign currency involved
    pub quantity: Decimal,

    /// The realized FX P&L in functional currency (EUR)
    /// This is the key field for German tax calculations.
    pub realized_pl: Decimal,

    /// Transaction code:
    /// - "O" = Opening position (typically no realized P&L)
    /// - "C" = Closing position (has realized P&L)
    /// - "C;O" = Both closing and opening in same transaction
    pub code: String,
}

/// Stock Grant Activities section - RSUs, stock options, ESPPs
#[derive(Debug)]
pub struct StockGrantActivities {
    pub activities: Vec<StockGrantActivity>,
}

/// Individual stock grant activity (RSU vest, option exercise, etc.)
#[derive(Debug)]
pub struct StockGrantActivity {
    /// Stock symbol
    pub symbol: String,

    /// Report date (vest date) in YYYYMMDD format
    pub report_date: String,

    /// Number of shares granted/vested
    pub quantity: Decimal,

    /// Grant type (e.g., "RSU", "Stock Option", "ESPP")
    pub grant_type: String,

    /// Fair market value at vest
    pub fmv: Decimal,

    /// Description
    pub description: String,
}

pub open spec fn is_ascii_digit(c: char) -> bool {
    '0' <= c && c <= '9'
}

pub open spec fn digit_value(c: char) -> int {
    c as int - '0' as int
}

/// Eight ASCII digits: the shape of a Flex Query date.
pub open spec fn flex_date_shaped(s: Seq<char>) -> bool {
    s.len() == 8 && forall|i: int| 0 <= i < 8 ==> is_ascii_digit(#[trigger] s[i])
}

pub open spec fn flex_year(s: Seq<char>) -> int {
    1000 * digit_value(s[0]) + 100 * digit_value(s[1]) + 10 * digit_value(s[2]) + digit_value(s[3])
}

pub open spec fn flex_month(s: Seq<char>) -> int {
    10 * digit_value(s[4]) + digit_value(s[5])
}

pub open spec fn flex_day(s: Seq<char>) -> int {
    10 * digit_value(s[6]) + digit_value(s[7])
}

/// A `YYYYMMDD` text of a date that exists.
pub open spec fn flex_date_ok(s: Seq<char>) -> bool {
    flex_date_shaped(s) && valid_date(flex_year(s), flex_month(s), flex_day(s))
}

/// The message of a refused date.
pub open spec fn flex_date_error(s: Seq<char>) -> Seq<char> {
    if !flex_date_shaped(s) {
        "Invalid date format: "@ + s
    } else {
        "Invalid date: "@ + s
    }
}

/// What `parse_flex_date` makes of a text: the date, or the message of its refusal.
pub open spec fn flex_date_result_ok(s: Seq<char>, r: Result<Date, String>) -> bool {
    &&& r is Ok <==> flex_date_ok(s)
    &&& r matches Ok(d) ==> d.y() == flex_year(s) && d.m() == flex_month(s) && d.d() == flex_day(s)
    &&& r matches Err(e) ==> e@ == flex_date_error(s)
}

fn digit_at(s: &str, i: usize) -> (r: u32)
    requires
        i < s@.len(),
        is_ascii_digit(s@[i as int]),
    ensures
        r == digit_value(s@[i as int]),
{
    let c = s.get_char(i);
    (c as u32) - ('0' as u32)
}

fn message(prefix: &str, s: &str) -> (r: String)
    ensures
        r@ == prefix@ + s@,
{
    let mut r = <String as StringExecFns>::from_str(prefix);
    r.append(s);
    r
}

/// Parse a Flex Query date, `YYYYMMDD`: exactly eight ASCII digits of a date that exists.
pub fn parse_flex_date(date_str: &str) -> (r: Result<Date, String>)
    ensures
        flex_date_result_ok(date_str@, r),
{
    let n = date_str.unicode_len();
    if n != 8 {
        return Err(message("Invalid date format: ", date_str));
    }
    let mut i: usize = 0;
    while i < 8
        invariant
            n == 8,
            date_str@.len() == 8,
            i <= 8,
            forall|j: int| 0 <= j < i ==> is_ascii_digit(#[trigger] date_str@[j]),
        decreases 8 - i,
    {
        let c = date_str.get_char(i);
        if !('0' <= c && c <= '9') {
            return Err(message("Invalid date format: ", date_str));
        }
        i = i + 1;
    }
    let year = 1000 * digit_at(date_str, 0) + 100 * digit_at(date_str, 1) + 10 * digit_at(
        date_str,
        2,
    ) + digit_at(date_str, 3);
    let month = 10 * digit_at(date_str, 4) + digit_at(date_str, 5);
    let day = 10 * digit_at(date_str, 6) + digit_at(date_str, 7);
    match Date::from_ymd_opt(year as i32, month, day) {
        Some(d) => Ok(d),
        None => Err(message("Invalid date: ", date_str)),
    }
}

/// The date part of a Flex Query date-time: the text before its first `;`, or else its first
/// eight bytes where they end on a character boundary.
pub open spec fn datetime_part(s: Seq<char>) -> Option<Seq<char>> {
    if holds(s, ';') {
        Some(s.take(first_index(s, ';')))
    } else if is_char_boundary(encode_utf8(s), 8) {
        Some(decode_utf8(encode_utf8(s).subrange(0, 8)))
    } else {
        None
    }
}

/// Parse a Flex Query date-time, `YYYYMMDD;HHMMSS` or `YYYYMMDD`, to its date.
pub fn parse_flex_datetime(datetime_str: &str) -> (r: Result<Date, String>)
    ensures
        match datetime_part(datetime_str@) {
            Some(p) => flex_date_result_ok(p, r),
            None => r matches Err(e) && e@ == "Invalid datetime format: "@ + datetime_str@,
        },
{
    let n = datetime_str.unicode_len();
    let mut i: usize = 0;
    while i < n
        invariant
            n == datetime_str@.len(),
            i <= n,
            forall|j: int| 0 <= j < i ==> datetime_str@[j] != ';',
        decreases n - i,
    {
        if datetime_str.get_char(i) == ';' {
            proof {
                let s = datetime_str@;
                let k = first_index(s, ';');
                assert(0 <= k < s.len() && s[k] == ';' && forall|j: int| 0 <= j < k ==> s[j] != ';');
                if k < i {
                    assert(s[k] != ';');
                }
                if k > i {
                    assert(s[i as int] != ';');
                }
                assert(k == i);
            }
            let part = datetime_str.substring_char(0, i);
            proof {
                assert(part@ =~= datetime_str@.take(i as int));
            }
            return parse_flex_date(part);
        }
        i = i + 1;
    }
    proof {
        assert(!holds(datetime_str@, ';'));
    }
    if datetime_str.is_char_boundary(8) {
        let (head, _tail) = datetime_str.split_at(8);
        proof {
            vstd::utf8::encode_utf8_decode_utf8(head@);
            assert(head.spec_bytes() == encode_utf8(head@));
            assert(head@ == decode_utf8(encode_utf8(datetime_str@).subrange(0, 8)));
        }
        parse_flex_date(head)
    } else {
        Err(message("Invalid datetime format: ", datetime_str))
    }
}

/// Whether `pat` stands in `s` at position `i`.
pub open spec fn text_at(s: Seq<char>, i: int, pat: Seq<char>) -> bool {
    0 <= i && i + pat.len() <= s.len() && s.subrange(i, i + pat.len()) == pat
}

/// Whether `s` holds `pat` as a run of characters.
pub open spec fn holds_text(s: Seq<char>, pat: Seq<char>) -> bool {
    exists|i: int| #[trigger] text_at(s, i, pat)
}

/// Whether an IB trade row is a cancellation (`buySell` = "BUY (Ca.)" / "SELL (Ca.)").
pub fn is_cancelled_trade(buy_sell: &str) -> (r: bool)
    ensures
        r == holds_text(buy_sell@, "(Ca.)"@),
{
    let pat = "(Ca.)";
    proof {
        reveal_strlit("(Ca.)");
    }
    let n = buy_sell.unicode_len();
    let m = pat.unicode_len();
    assert(m == 5);
    if n < m {
        proof {
            assert forall|i: int| !#[trigger] text_at(buy_sell@, i, pat@) by {}
        }
        return false;
    }
    let mut i: usize = 0;
    while i <= n - m
        invariant
            n == buy_sell@.len(),
            m == pat@.len(),
            m == 5,
            pat@ == "(Ca.)"@,
            n >= m,
            i <= n - m + 1,
            forall|k: int| 0 <= k < i ==> !#[trigger] text_at(buy_sell@, k, pat@),
        decreases n - m + 1 - i,
    {
        let mut j: usize = 0;
        let mut same = true;
        while j < m
            invariant
                n == buy_sell@.len(),
                m == pat@.len(),
                i + m <= n,
                j <= m,
                same == forall|t: int| 0 <= t < j ==> buy_sell@[i + t] == pat@[t],
            decreases m - j,
        {
            if buy_sell.get_char(i + j) != pat.get_char(j) {
                same = false;
            }
            j = j + 1;
        }
        if same {
            proof {
                assert(buy_sell@.subrange(i as int, i + m) =~= pat@);
                assert(text_at(buy_sell@, i as int, pat@));
            }
            return true;
        }
        proof {
            let t = choose|t: int| 0 <= t < m && buy_sell@[i + t] != pat@[t];
            assert(buy_sell@.subrange(i as int, i + m)[t] != pat@[t]);
            assert(!text_at(buy_sell@, i as int, pat@));
        }
        i = i + 1;
    }
    proof {
        assert forall|k: int| !#[trigger] text_at(buy_sell@, k, pat@) by {
            if 0 <= k && k + m <= n {
                assert(k < i);
            }
        }
    }
    false
}

/// A EUR leg of a currency exchange: the `Currency`-level FOREX line in EUR with a transaction id.
pub open spec fn eur_leg(l: StatementOfFundsLine) -> bool {
    &&& l.level_of_detail@ == "Currency"@
    &&& l.currency@ == "EUR"@
    &&& l.activity_code@ == "FOREX"@
    &&& l.transaction_id@.len() > 0
}

/// The EUR legs of `s` in order, as (transaction id, amount).
pub open spec fn eur_legs(s: Seq<StatementOfFundsLine>) -> Seq<(Seq<char>, Decimal)>
    decreases s.len(),
{
    if s.len() == 0 {
        seq![]
    } else if eur_leg(s.last()) {
        eur_legs(s.drop_last()).push((s.last().transaction_id@, s.last().amount))
    } else {
        eur_legs(s.drop_last())
    }
}

/// The amount of the last leg with the given id.
pub open spec fn lookup(legs: Seq<(Seq<char>, Decimal)>, id: Seq<char>) -> Option<Decimal>
    decreases legs.len(),
{
    if legs.len() == 0 {
        None
    } else if legs.last().0 == id {
        Some(legs.last().1)
    } else {
        lookup(legs.drop_last(), id)
    }
}

pub open spec fn duplicate_message(id: Seq<char>) -> Seq<char> {
    "Duplicate FOREX transactionID "@ + id
        + " on the EUR leg of the Statement of Funds: the execution rate cannot be paired unambiguously (multi-account or merged statements are not supported)."@
}

/// The pairing check: the first EUR leg whose id an earlier EUR leg already has is refused.
pub open spec fn legs_check(s: Seq<StatementOfFundsLine>) -> Option<Seq<char>>
    decreases s.len(),
{
    if s.len() == 0 {
        None
    } else {
        match legs_check(s.drop_last()) {
            Some(e) => Some(e),
            None => if eur_leg(s.last()) && lookup(eur_legs(s.drop_last()), s.last().transaction_id@) is Some {
                Some(duplicate_message(s.last().transaction_id@))
            } else {
                None
            },
        }
    }
}

/// A line that moves a real currency balance: `Currency` level, a three-byte currency, a date.
pub open spec fn ledger_line(l: StatementOfFundsLine) -> bool {
    &&& l.level_of_detail@ == "Currency"@
    &&& encode_utf8(l.currency@).len() as usize == 3
    &&& l.date@.len() != 0
}

/// A cash flow as plain values.
pub struct FlowView {
    pub currency: Seq<char>,
    pub date: (int, int, int),
    pub transaction_id: Seq<char>,
    pub activity_code: Seq<char>,
    pub amount: Decimal,
    pub balance: Decimal,
    pub eur_execution: Option<Decimal>,
}

pub open spec fn flow_view(f: ForeignCashFlow) -> FlowView {
    FlowView {
        currency: f.currency@,
        date: (f.date.y(), f.date.m(), f.date.d()),
        transaction_id: f.transaction_id@,
        activity_code: f.activity_code@,
        amount: f.amount,
        balance: f.balance,
        eur_execution: f.eur_execution,
    }
}

pub open spec fn flows_view(v: Seq<ForeignCashFlow>) -> Seq<FlowView> {
    v.map_values(|f: ForeignCashFlow| flow_view(f))
}

/// The flows of the ledger lines of `s`, in order; a FOREX flow carries the amount of the EUR leg
/// with its transaction id. A ledger line whose date is refused refuses the whole ledger.
pub open spec fn flows_from(s: Seq<StatementOfFundsLine>, legs: Seq<(Seq<char>, Decimal)>) -> Result<
    Seq<FlowView>,
    Seq<char>,
>
    decreases s.len(),
{
    if s.len() == 0 {
        Ok(seq![])
    } else {
        match flows_from(s.drop_last(), legs) {
            Err(e) => Err(e),
            Ok(v) => {
                let l = s.last();
                if !ledger_line(l) {
                    Ok(v)
                } else if !flex_date_ok(l.date@) {
                    Err(flex_date_error(l.date@))
                } else {
                    Ok(
                        v.push(
                            FlowView {
                                currency: l.currency@,
                                date: (flex_year(l.date@), flex_month(l.date@), flex_day(l.date@)),
                                transaction_id: l.transaction_id@,
                                activity_code: l.activity_code@,
                                amount: l.amount,
                                balance: l.balance,
                                eur_execution: if l.activity_code@ == "FOREX"@ {
                                    lookup(legs, l.transaction_id@)
                                } else {
                                    None
                                },
                            },
                        ),
                    )
                }
            },
        }
    }
}

/// The per-currency cash-flow ledger of a Statement of Funds.
pub open spec fn cash_flows_of(s: Seq<StatementOfFundsLine>) -> Result<Seq<FlowView>, Seq<char>> {
    match legs_check(s) {
        Some(e) => Err(e),
        None => flows_from(s, eur_legs(s)),
    }
}

pub open spec fn legs_view(v: Seq<(String, Decimal)>) -> Seq<(Seq<char>, Decimal)> {
    v.map_values(|p: (String, Decimal)| (p.0@, p.1))
}

fn find_leg(legs: &Vec<(String, Decimal)>, id: &str) -> (r: Option<Decimal>)
    ensures
        r == lookup(legs_view(legs@), id@),
{
    let mut i = legs.len();
    proof {
        assert(legs@.take(i as int) =~= legs@);
    }
    while i > 0
        invariant
            i <= legs@.len(),
            lookup(legs_view(legs@), id@) == lookup(legs_view(legs@.take(i as int)), id@),
        decreases i,
    {
        proof {
            assert(legs_view(legs@.take(i as int)).drop_last() =~= legs_view(legs@.take(i - 1)));
        }
        if text_eq(legs[i - 1].0.as_str(), id) {
            return Some(legs[i - 1].1);
        }
        i = i - 1;
    }
    None
}

fn is_eur_leg(l: &StatementOfFundsLine) -> (r: bool)
    ensures
        r == eur_leg(*l),
{
    text_eq(l.level_of_detail.as_str(), "Currency") && text_eq(l.currency.as_str(), "EUR")
        && text_eq(l.activity_code.as_str(), "FOREX") && l.transaction_id.as_str().unicode_len() > 0
}

/// Build the per-currency cash-flow ledger from the Statement of Funds, in document order. Only
/// `Currency`-level lines move a real balance; each FOREX leg is paired with its EUR counter-leg
/// (same transaction id), and two EUR legs with one id are refused.
pub fn build_foreign_cash_flows(stmtfunds: &StatementOfFunds) -> (r: Result<Vec<ForeignCashFlow>, String>)
    ensures
        match cash_flows_of(stmtfunds.lines@) {
            Ok(v) => r matches Ok(flows) && flows_view(flows@) == v,
            Err(e) => r matches Err(m) && m@ == e,
        },
{
    let lines = &stmtfunds.lines;
    let mut legs: Vec<(String, Decimal)> = Vec::new();
    let mut i: usize = 0;
    while i < lines.len()
        invariant
            lines@ == stmtfunds.lines@,
            i <= lines@.len(),
            legs_view(legs@) == eur_legs(lines@.take(i as int)),
            legs_check(lines@.take(i as int)) is None,
        decreases lines@.len() - i,
    {
        proof {
            assert(lines@.take(i + 1).drop_last() =~= lines@.take(i as int));
        }
        let line = &lines[i];
        if is_eur_leg(line) {
            match find_leg(&legs, line.transaction_id.as_str()) {
                Some(_) => {
                    let mut m = <String as StringExecFns>::from_str("Duplicate FOREX transactionID ");
                    m.append(line.transaction_id.as_str());
                    m.append(" on the EUR leg of the Statement of Funds: the execution rate cannot be paired unambiguously (multi-account or merged statements are not supported).");
                    proof {
                        let t = lines@.take(i + 1);
                        assert(t.last() == *line);
                        assert(legs_check(t.drop_last()) is None);
                        assert(lookup(eur_legs(t.drop_last()), line.transaction_id@) is Some);
                        assert(m@ == duplicate_message(line.transaction_id@));
                        assert(legs_check(lines@.take(i + 1)) == Some(m@));
                        lemma_check_persists(lines@, i as int + 1);
                    }
                    proof {
                    }
                    return Err(m);
                },
                None => {
                    legs.push((line.transaction_id.clone(), line.amount));
                    proof {
                        assert(legs_view(legs@) =~= eur_legs(lines@.take(i as int)).push(
                            (line.transaction_id@, line.amount),
                        ));
                    }
                },
            }
        }
        i = i + 1;
    }
    proof {
        assert(lines@.take(i as int) =~= lines@);
    }
    let mut flows: Vec<ForeignCashFlow> = Vec::new();
    let mut k: usize = 0;
    proof {
        assert(flows_view(flows@) =~= seq![]);
        assert(lines@.take(0) =~= seq![]);
    }
    while k < lines.len()
        invariant
            lines@ == stmtfunds.lines@,
            k <= lines@.len(),
            legs_view(legs@) == eur_legs(lines@),
            legs_check(lines@) is None,
            flows_from(lines@.take(k as int), eur_legs(lines@)) == Ok::<Seq<FlowView>, Seq<char>>(
                flows_view(flows@),
            ),
        decreases lines@.len() - k,
    {
        proof {
            assert(lines@.take(k + 1).drop_last() =~= lines@.take(k as int));
        }
        let line = &lines[k];
        if text_eq(line.level_of_detail.as_str(), "Currency") && line.currency.as_str().len() == 3
            && line.date.as_str().unicode_len() != 0 {
            let date = match parse_flex_date(line.date.as_str()) {
                Ok(d) => d,
                Err(e) => {
                    proof {
                        let t = lines@.take(k + 1);
                        assert(t.last() == *line);
                        assert(ledger_line(*line));
                        assert(!flex_date_ok(line.date@));
                        assert(flows_from(t.drop_last(), eur_legs(lines@)) is Ok);
                        assert(flows_from(t, eur_legs(lines@)) == Err::<Seq<FlowView>, Seq<char>>(
                            flex_date_error(line.date@),
                        ));
                        lemma_flows_error_persists(lines@, eur_legs(lines@), k as int + 1);
                    }
                    return Err(e);
                },
            };
            let eur_execution = if text_eq(line.activity_code.as_str(), "FOREX") {
                find_leg(&legs, line.transaction_id.as_str())
            } else {
                None
            };
            let ghost before = flows@;
            let flow = ForeignCashFlow {
                currency: line.currency.clone(),
                date,
                transaction_id: line.transaction_id.clone(),
                activity_code: line.activity_code.clone(),
                amount: line.amount,
                balance: line.balance,
                eur_execution,
            };
            proof {
                let t = lines@.take(k + 1);
                assert(t.last() == *line);
                assert(ledger_line(*line));
                assert(flex_date_ok(line.date@));
                assert(flow_view(flow) == FlowView {
                    currency: line.currency@,
                    date: (flex_year(line.date@), flex_month(line.date@), flex_day(line.date@)),
                    transaction_id: line.transaction_id@,
                    activity_code: line.activity_code@,
                    amount: line.amount,
                    balance: line.balance,
                    eur_execution: if line.activity_code@ == "FOREX"@ {
                        lookup(eur_legs(lines@), line.transaction_id@)
                    } else {
                        None
                    },
                });
            }
            flows.push(flow);
            proof {
                assert(flows_view(flows@) =~= flows_view(before).push(flow_view(flow)));
            }
        } else {
            proof {
                assert(!ledger_line(*line));
                assert(lines@.take(k + 1).last() == *line);
            }
        }
        k = k + 1;
    }
    proof {
        assert(lines@.take(k as int) =~= lines@);
    }
    Ok(flows)
}

proof fn lemma_check_persists(s: Seq<StatementOfFundsLine>, i: int)
    requires
        0 <= i <= s.len(),
        legs_check(s.take(i)) is Some,
    ensures
        legs_check(s) == legs_check(s.take(i)),
    decreases s.len() - i,
{
    if i < s.len() {
        assert(s.take(i + 1).drop_last() =~= s.take(i));
        lemma_check_persists(s, i + 1);
    } else {
        assert(s.take(i) =~= s);
    }
}

proof fn lemma_flows_error_persists(
    s: Seq<StatementOfFundsLine>,
    legs: Seq<(Seq<char>, Decimal)>,
    i: int,
)
    requires
        0 <= i <= s.len(),
        flows_from(s.take(i), legs) is Err,
    ensures
        flows_from(s, legs) == flows_from(s.take(i), legs),
    decreases s.len() - i,
{
    if i < s.len() {
        assert(s.take(i + 1).drop_last() =~= s.take(i));
        lemma_flows_error_persists(s, legs, i + 1);
    } else {
        assert(s.take(i) =~= s);
    }
}

/// What a Flex Query statement yields here: its period, its stock trades with the ISINs learned of
/// their symbols, the interest on idle cash, the foreign-currency cash-flow ledger, and the open
/// long and short positions.
#[derive(Debug)]
pub struct PartialBrokerStatement {
    pub period: (Date, Date),
    pub stock_buys: Vec<StockTrade>,
    pub stock_sells: Vec<StockTrade>,
    /// `(symbol, ISIN)`, each pair once.
    pub instrument_isins: Vec<(String, String)>,
    /// Interest from the Statement of Funds (where the Cash Transactions carry none), then from the
    /// Cash Transactions.
    pub idle_cash_interest: Vec<IdleCashInterest>,
    /// Dividend accruals, a reversal negative.
    pub dividend_accruals: Vec<Accrual>,
    /// Withholding-tax accruals, a refund negative.
    pub tax_accruals: Vec<Accrual>,
    pub deposits_and_withdrawals: Vec<CashMovement>,
    pub fees: Vec<FlexFee>,
    /// Ending cash per currency of the Cash Report.
    pub cash_assets: Vec<(String, Decimal)>,
    pub foreign_cash_flows: Vec<ForeignCashFlow>,
    /// Positions held long at the statement's end, `(symbol, quantity)`.
    pub open_positions: Vec<(String, Decimal)>,
    /// Short positions, `(symbol, negative quantity)`, reported for manual review.
    pub short_positions: Vec<(String, Decimal)>,
}

/// The long and the short positions of a list, in order; rows without a symbol or with a zero
/// position are left out.
pub open spec fn position_split(s: Seq<OpenPosition>) -> (Seq<(Seq<char>, Decimal)>, Seq<(Seq<char>, Decimal)>)
    decreases s.len(),
{
    if s.len() == 0 {
        (seq![], seq![])
    } else {
        let (long, short) = position_split(s.drop_last());
        let p = s.last();
        if p.symbol@.len() == 0 || p.position.units() == 0 {
            (long, short)
        } else if p.position.units() < 0 {
            (long, short.push((p.symbol@, p.position)))
        } else {
            (long.push((p.symbol@, p.position)), short)
        }
    }
}

pub struct StatementView {
    pub period: ((int, int, int), (int, int, int)),
    pub buys: Seq<TradeView>,
    pub sells: Seq<TradeView>,
    pub isins: Seq<(Seq<char>, Seq<char>)>,
    pub interest: Seq<InterestView>,
    pub records: RecordsView,
    pub cash: Seq<(Seq<char>, Decimal)>,
    pub flows: Seq<FlowView>,
    pub open_positions: Seq<(Seq<char>, Decimal)>,
    pub short_positions: Seq<(Seq<char>, Decimal)>,
}

pub open spec fn date_fields(s: Seq<char>) -> (int, int, int) {
    (flex_year(s), flex_month(s), flex_day(s))
}

/// A statement: its period dates, then its stock trades, then the interest of its Statement of
/// Funds, then its Statement of Funds ledger, then its Cash Transactions, then its positions.
pub open spec fn statement_parse(st: FlexStatement, rules: Seq<RemapRuleView>) -> Result<StatementView, Seq<char>> {
    if !flex_date_ok(st.from_date@) {
        Err(flex_date_error(st.from_date@))
    } else if !flex_date_ok(st.to_date@) {
        Err(flex_date_error(st.to_date@))
    } else {
        let flows = match st.statement_of_funds {
            Some(sof) => cash_flows_of(sof.lines@),
            None => Ok(seq![]),
        };
        let positions = match st.open_positions {
            Some(p) => position_split(p.positions@),
            None => (seq![], seq![]),
        };
        match stock_trades_of(st) {
            Err(e) => Err(e),
            Ok(t) => match fund_interest_of(st) {
                Err(e) => Err(e),
                Ok(fi) => match flows {
                    Err(e) => Err(e),
                    Ok(f) => match cash_interest_of(st, fi) {
                        Err(e) => Err(e),
                        Ok(i) => Ok(
                            StatementView {
                                period: (date_fields(st.from_date@), date_fields(st.to_date@)),
                                buys: t.buys,
                                sells: t.sells,
                                isins: t.isins,
                                interest: i,
                                records: records_of(st, rules).0,
                                cash: match st.cash_report {
                                    Some(c) => cash_assets_of(c.currencies@),
                                    None => Seq::empty(),
                                },
                                flows: f,
                                open_positions: positions.0,
                                short_positions: positions.1,
                            },
                        ),
                    },
                },
            },
        }
    }
}

pub open spec fn pairs_view(v: Seq<(String, Decimal)>) -> Seq<(Seq<char>, Decimal)> {
    v.map_values(|p: (String, Decimal)| (p.0@, p.1))
}

pub open spec fn statement_view(st: PartialBrokerStatement) -> StatementView {
    StatementView {
        period: (
            (st.period.0.y(), st.period.0.m(), st.period.0.d()),
            (st.period.1.y(), st.period.1.m(), st.period.1.d()),
        ),
        buys: trades_view(st.stock_buys@),
        sells: trades_view(st.stock_sells@),
        isins: isins_view(st.instrument_isins@),
        interest: interest_view(st.idle_cash_interest@),
        records: records_view(
            crate::broker_statement::ib::records::IncomeRecords {
                dividends: st.dividend_accruals,
                taxes: st.tax_accruals,
                deposits: st.deposits_and_withdrawals,
                fees: st.fees,
            },
        ),
        cash: cash_view(st.cash_assets@),
        flows: flows_view(st.foreign_cash_flows@),
        open_positions: pairs_view(st.open_positions@),
        short_positions: pairs_view(st.short_positions@),
    }
}

fn split_positions(positions: &Vec<OpenPosition>) -> (r: (Vec<(String, Decimal)>, Vec<(String, Decimal)>))
    ensures
        (pairs_view(r.0@), pairs_view(r.1@)) == position_split(positions@),
{
    let mut long: Vec<(String, Decimal)> = Vec::new();
    let mut short: Vec<(String, Decimal)> = Vec::new();
    let mut i: usize = 0;
    proof {
        assert(positions@.take(0) =~= seq![]);
        assert(pairs_view(long@) =~= seq![]);
        assert(pairs_view(short@) =~= seq![]);
    }
    while i < positions.len()
        invariant
            i <= positions@.len(),
            (pairs_view(long@), pairs_view(short@)) == position_split(positions@.take(i as int)),
        decreases positions@.len() - i,
    {
        proof {
            assert(positions@.take(i + 1).drop_last() =~= positions@.take(i as int));
        }
        let p = &positions[i];
        let ghost long_before = long@;
        let ghost short_before = short@;
        if p.symbol.as_str().unicode_len() != 0 && !p.position.is_zero() {
            if !p.position.is_sign_positive() {
                short.push((p.symbol.clone(), p.position));
                proof {
                    assert(pairs_view(short@) =~= pairs_view(short_before).push((p.symbol@, p.position)));
                }
            } else {
                long.push((p.symbol.clone(), p.position));
                proof {
                    assert(pairs_view(long@) =~= pairs_view(long_before).push((p.symbol@, p.position)));
                }
            }
        }
        i = i + 1;
    }
    proof {
        assert(positions@.take(i as int) =~= positions@);
    }
    (long, short)
}

impl FlexStatement {
    /// The period, the trades, the interest, the foreign-currency ledger and the positions of one
    /// statement.
    ///
    /// A withholding is booked on the day a `tax_remapping` rule for its day and description
    /// names; the rules applied are marked. A refused statement leaves the rules as they were.
    pub fn parse(&self, tax_remapping: &mut TaxRemapping) -> (r: Result<PartialBrokerStatement, String>)
        requires
            fund_dividends_ok(*self),
        ensures
            match statement_parse(*self, old(tax_remapping)@) {
                Ok(v) => r matches Ok(st) && statement_view(st) == v,
                Err(e) => r matches Err(m) && m@ == e,
            },
            r is Ok ==> final(tax_remapping)@ == records_of(*self, old(tax_remapping)@).1,
            r is Err ==> final(tax_remapping)@ == old(tax_remapping)@,
    {
        let from_date = match parse_flex_date(self.from_date.as_str()) {
            Ok(d) => d,
            Err(e) => {
                return Err(e);
            },
        };
        let to_date = match parse_flex_date(self.to_date.as_str()) {
            Ok(d) => d,
            Err(e) => {
                return Err(e);
            },
        };
        let trades = match parse_stock_trades(self) {
            Ok(t) => t,
            Err(e) => {
                return Err(e);
            },
        };
        let mut idle_cash_interest = match parse_fund_interest(self) {
            Ok(v) => v,
            Err(e) => {
                return Err(e);
            },
        };
        let foreign_cash_flows = match &self.statement_of_funds {
            Some(sof) => match build_foreign_cash_flows(sof) {
                Ok(flows) => flows,
                Err(e) => {
                    return Err(e);
                },
            },
            None => Vec::new(),
        };
        match parse_cash_interest(self, &mut idle_cash_interest) {
            Ok(()) => {},
            Err(e) => {
                return Err(e);
            },
        }
        let records = parse_records(self, tax_remapping);
        let cash_assets = parse_cash_assets(self);
        let (open_positions, short_positions) = match &self.open_positions {
            Some(p) => split_positions(&p.positions),
            None => (Vec::new(), Vec::new()),
        };
        let st = PartialBrokerStatement {
            period: (from_date, to_date),
            stock_buys: trades.stock_buys,
            stock_sells: trades.stock_sells,
            instrument_isins: trades.instrument_isins,
            idle_cash_interest,
            dividend_accruals: records.dividends,
            tax_accruals: records.taxes,
            deposits_and_withdrawals: records.deposits,
            fees: records.fees,
            cash_assets,
            foreign_cash_flows,
            open_positions,
            short_positions,
        };
        proof {
            assert(flows_view(Seq::<ForeignCashFlow>::empty()) =~= seq![]);
            assert(pairs_view(Seq::<(String, Decimal)>::empty()) =~= seq![]);
        }
        Ok(st)
    }
}

pub open spec fn multi_account_message(n: nat) -> Seq<char> {
    "Multi-account Flex Query responses are not supported: found "@ + crate::text::digits(n)
        + " statements. Export one account per Flex Query."@
}

impl FlexQueryResponse {
    /// The single statement of a Flex Query response, parsed. A response without statements, or
    /// with more than one account, is refused: silently dropping an account would drop income.
    pub fn parse(&self, tax_remapping: &mut TaxRemapping) -> (r: Result<PartialBrokerStatement, String>)
        requires
            self.flex_statements.statements@.len() == 1 ==> fund_dividends_ok(self.flex_statements.statements@[0]),
        ensures
            self.flex_statements.statements@.len() == 0 ==> (r matches Err(m) && m@
                == "No statements found in Flex Query response"@),
            self.flex_statements.statements@.len() > 1 ==> (r matches Err(m) && m@
                == multi_account_message(self.flex_statements.statements@.len())),
            self.flex_statements.statements@.len() == 1 ==> match statement_parse(
                self.flex_statements.statements@[0],
                old(tax_remapping)@,
            ) {
                Ok(v) => r matches Ok(st) && statement_view(st) == v,
                Err(e) => r matches Err(m) && m@ == e,
            },
            r is Ok ==> final(tax_remapping)@ == records_of(self.flex_statements.statements@[0], old(tax_remapping)@).1,
            r is Err ==> final(tax_remapping)@ == old(tax_remapping)@,
    {
        let n = self.flex_statements.statements.len();
        if n == 0 {
            return Err(<String as StringExecFns>::from_str("No statements found in Flex Query response"));
        }
        if n > 1 {
            let mut m = <String as StringExecFns>::from_str(
                "Multi-account Flex Query responses are not supported: found ",
            );
            crate::text::push_padded(&mut m, n as u64, 0);
            m.append(" statements. Export one account per Flex Query.");
            proof {
                assert(crate::text::padded(n as nat, 0) == crate::text::digits(n as nat));
            }
            return Err(m);
        }
        self.flex_statements.statements[0].parse(tax_remapping)
    }
}

} // verus!
