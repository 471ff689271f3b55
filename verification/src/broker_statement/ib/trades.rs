//! The stock trades of a Flex Query statement: the rows of its Trades section, cancellations and
//! the trades they void left out, or, where that section yields none, the trade lines of the
//! Statement of Funds. Only stocks are taken; every other instrument is skipped.
use vstd::prelude::*;

use crate::date::Date;
use crate::decimal::Decimal;
use crate::text::text_eq;

use super::flex_query::{
    date_fields, datetime_part, flex_date_error, flex_date_ok, holds_text, is_cancelled_trade,
    parse_flex_date, parse_flex_datetime, FlexStatement, StatementOfFundsLine, Trade,
};

verus! {

/// The canonical text of an ISIN as `isin` reads it (ASCII upper case, surrounding blanks
/// trimmed), or nothing when the text is not a valid ISIN (format and check digit).
pub uninterp spec fn isin_canonical(text: Seq<char>) -> Option<Seq<char>>;

/// `isin::ISIN::from_str` (the crate's `parse_loose`): the ISIN's text when valid.
#[verifier::external_body]
pub(crate) fn parse_isin(text: &str) -> (r: Option<String>)
    ensures
        match isin_canonical(text@) {
            Some(c) => r matches Some(s) && s@ == c,
            None => r is None,
        },
{
    match text.parse::<isin::ISIN>() {
        Ok(isin) => Some(isin.to_string()),
        Err(_) => None,
    }
}

/// A stock purchase or sale: unsigned quantity, price, volume and commission in the trade's
/// currency, the conclusion day and the settlement day.
#[derive(Debug)]
pub struct StockTrade {
    pub symbol: String,
    pub currency: String,
    pub quantity: Decimal,
    pub price: Decimal,
    pub volume: Decimal,
    pub commission: Decimal,
    pub date: Date,
    pub settle_date: Date,
}

pub struct TradeView {
    pub symbol: Seq<char>,
    pub currency: Seq<char>,
    pub quantity: Decimal,
    pub price: Decimal,
    pub volume: Decimal,
    pub commission: Decimal,
    pub date: (int, int, int),
    pub settle_date: (int, int, int),
}

impl View for StockTrade {
    type V = TradeView;

    open spec fn view(&self) -> TradeView {
        TradeView {
            symbol: self.symbol@,
            currency: self.currency@,
            quantity: self.quantity,
            price: self.price,
            volume: self.volume,
            commission: self.commission,
            date: (self.date.y(), self.date.m(), self.date.d()),
            settle_date: (self.settle_date.y(), self.settle_date.m(), self.settle_date.d()),
        }
    }
}

pub open spec fn trades_view(v: Seq<StockTrade>) -> Seq<TradeView> {
    v.map_values(|t: StockTrade| t@)
}

pub open spec fn isins_view(v: Seq<(String, String)>) -> Seq<(Seq<char>, Seq<char>)> {
    v.map_values(|p: (String, String)| (p.0@, p.1@))
}

/// The trades taken so far and the ISINs learned of their symbols.
pub struct StockTrades {
    pub stock_buys: Vec<StockTrade>,
    pub stock_sells: Vec<StockTrade>,
    /// `(symbol, ISIN)`, each pair once.
    pub instrument_isins: Vec<(String, String)>,
}

pub struct TradesState {
    pub buys: Seq<TradeView>,
    pub sells: Seq<TradeView>,
    pub isins: Seq<(Seq<char>, Seq<char>)>,
}

impl View for StockTrades {
    type V = TradesState;

    open spec fn view(&self) -> TradesState {
        TradesState {
            buys: trades_view(self.stock_buys@),
            sells: trades_view(self.stock_sells@),
            isins: isins_view(self.instrument_isins@),
        }
    }
}

/// A `YYYYMMDD` date as (year, month, day), or the message of its refusal.
pub open spec fn date_result(s: Seq<char>) -> Result<(int, int, int), Seq<char>> {
    if flex_date_ok(s) {
        Ok(date_fields(s))
    } else {
        Err(flex_date_error(s))
    }
}

/// The date of a `YYYYMMDD;HHMMSS` date-time, or the message of its refusal.
pub open spec fn datetime_result(s: Seq<char>) -> Result<(int, int, int), Seq<char>> {
    match datetime_part(s) {
        Some(p) => date_result(p),
        None => Err("Invalid datetime format: "@ + s),
    }
}

/// The conclusion and settlement days of a trade: the settlement day is the conclusion day where
/// none is given.
pub open spec fn trade_days(date: Result<(int, int, int), Seq<char>>, settle: Seq<char>) -> Result<
    ((int, int, int), (int, int, int)),
    Seq<char>,
> {
    match date {
        Err(e) => Err(e),
        Ok(d) => if settle.len() == 0 {
            Ok((d, d))
        } else {
            match date_result(settle) {
                Err(e) => Err(e),
                Ok(s) => Ok((d, s)),
            }
        },
    }
}

/// The ISINs after learning that `symbol` has `isin`: an empty or invalid ISIN teaches nothing.
pub open spec fn registered(isins: Seq<(Seq<char>, Seq<char>)>, symbol: Seq<char>, isin: Seq<char>) -> Seq<
    (Seq<char>, Seq<char>),
> {
    if isin.len() == 0 {
        isins
    } else {
        match isin_canonical(isin) {
            Some(c) => if isins.contains((symbol, c)) {
                isins
            } else {
                isins.push((symbol, c))
            },
            None => isins,
        }
    }
}

pub open spec fn record_trade(s: TradesState, symbol: Seq<char>, isin: Seq<char>, side: Seq<char>, v: TradeView) -> TradesState {
    let isins = registered(s.isins, symbol, isin);
    if side == "BUY"@ {
        TradesState { buys: s.buys.push(v), isins, ..s }
    } else if side == "SELL"@ {
        TradesState { sells: s.sells.push(v), isins, ..s }
    } else {
        TradesState { isins, ..s }
    }
}

/// A row of the Trades section: whether a stock trade was taken, and the trades after it; or the
/// message of its refusal.
pub open spec fn trade_step(s: TradesState, t: Trade) -> Result<(bool, TradesState), Seq<char>> {
    if t.asset_category@ != "STK"@ {
        Ok((false, s))
    } else {
        match trade_days(datetime_result(t.date_time@), t.settle_date@) {
            Err(e) => Err(e),
            Ok(ds) => {
                let v = TradeView {
                    symbol: t.symbol@,
                    currency: t.currency@,
                    quantity: t.quantity.spec_abs(),
                    price: t.trade_price,
                    volume: t.trade_money.spec_abs(),
                    commission: t.commission.spec_abs(),
                    date: ds.0,
                    settle_date: ds.1,
                };
                if t.buy_sell@ == "BUY"@ || t.buy_sell@ == "SELL"@ {
                    Ok((true, record_trade(s, t.symbol@, t.isin@, t.buy_sell@, v)))
                } else {
                    Err("Unknown trade direction: "@ + t.buy_sell@)
                }
            },
        }
    }
}

/// A trade line of the Statement of Funds: the trades after it, or the message of its refusal.
/// Only `Currency`-level BUY and SELL lines of stocks with a symbol and a date count.
pub open spec fn fund_trade_step(s: TradesState, l: StatementOfFundsLine) -> Result<TradesState, Seq<char>> {
    if l.level_of_detail@ == "BaseCurrency"@ || !(l.activity_code@ == "BUY"@ || l.activity_code@ == "SELL"@)
        || l.asset_category@ != "STK"@ || l.symbol@.len() == 0 || l.date@.len() == 0 {
        Ok(s)
    } else {
        match trade_days(date_result(l.date@), l.settle_date@) {
            Err(e) => Err(e),
            Ok(ds) => {
                let v = TradeView {
                    symbol: l.symbol@,
                    currency: l.currency@,
                    quantity: l.trade_quantity.spec_abs(),
                    price: l.trade_price,
                    volume: l.trade_gross.spec_abs(),
                    commission: l.trade_commission.spec_abs(),
                    date: ds.0,
                    settle_date: ds.1,
                };
                Ok(record_trade(s, l.symbol@, l.isin@, l.buy_sell@, v))
            },
        }
    }
}

fn days_of(date: Result<Date, String>, settle: &str) -> (r: Result<(Date, Date), String>)
    ensures
        match date {
            Err(e) => r matches Err(m) && m@ == e@,
            Ok(d) => if settle@.len() == 0 {
                r matches Ok(p) && p.0 == d && p.1 == d
            } else {
                match date_result(settle@) {
                    Err(e) => r matches Err(m) && m@ == e,
                    Ok(s) => r matches Ok(p) && p.0 == d && (p.1.y(), p.1.m(), p.1.d()) == s,
                }
            },
        },
{
    match date {
        Err(e) => Err(e),
        Ok(d) => {
            if settle.unicode_len() == 0 {
                Ok((d, d))
            } else {
                match parse_flex_date(settle) {
                    Ok(s) => Ok((d, s)),
                    Err(e) => Err(e),
                }
            }
        },
    }
}

fn copy(s: &str) -> (r: String)
    ensures
        r@ == s@,
{
    <String as StringExecFns>::from_str(s)
}

/// Learn that `symbol` has `isin`.
fn register_instrument_isin(isins: &mut Vec<(String, String)>, symbol: &str, isin: &str)
    ensures
        isins_view(final(isins)@) == registered(isins_view(old(isins)@), symbol@, isin@),
{
    if isin.unicode_len() == 0 {
        return;
    }
    let canonical = match parse_isin(isin) {
        Some(c) => c,
        None => return,
    };
    let ghost before = isins_view(isins@);
    assert(isin@.len() != 0 && isin_canonical(isin@) == Some(canonical@));
    let mut k: usize = 0;
    while k < isins.len()
        invariant
            before == isins_view(isins@),
            before == isins_view(old(isins)@),
            isin@.len() != 0 && isin_canonical(isin@) == Some(canonical@),
            k <= isins@.len(),
            forall|j: int| 0 <= j < k ==> before[j] != (symbol@, canonical@),
        decreases isins@.len() - k,
    {
        if text_eq(isins[k].0.as_str(), symbol) && text_eq(isins[k].1.as_str(), canonical.as_str()) {
            proof {
                assert(isins@[k as int].0@ == symbol@);
                assert(isins@[k as int].1@ == canonical@);
                assert(before[k as int] == (symbol@, canonical@));
                assert(before.contains((symbol@, canonical@)));
            }
            return;
        }
        k = k + 1;
    }
    let ghost c = canonical@;
    isins.push((copy(symbol), canonical));
    proof {
        assert(!before.contains((symbol@, c)));
        assert(isins_view(isins@) =~= before.push((symbol@, c)));
    }
}

fn record(trades: &mut StockTrades, symbol: &str, isin: &str, side: &str, t: StockTrade)
    ensures
        final(trades)@ == record_trade(old(trades)@, symbol@, isin@, side@, t@),
{
    register_instrument_isin(&mut trades.instrument_isins, symbol, isin);
    if text_eq(side, "BUY") {
        let ghost before = trades_view(trades.stock_buys@);
        let ghost v = t@;
        trades.stock_buys.push(t);
        assert(trades_view(trades.stock_buys@) =~= before.push(v));
    } else if text_eq(side, "SELL") {
        let ghost before = trades_view(trades.stock_sells@);
        let ghost v = t@;
        trades.stock_sells.push(t);
        assert(trades_view(trades.stock_sells@) =~= before.push(v));
    }
}

/// Ingest a row of the Trades section. Non-stock instruments are skipped (`false`); a stock trade
/// is recorded (`true`) with its ISIN learned; a date that cannot be read or a side other than BUY
/// and SELL is refused. Cancellations are for the caller to leave out.
pub fn parse_trade(trades: &mut StockTrades, trade: &Trade) -> (r: Result<bool, String>)
    ensures
        match trade_step(old(trades)@, *trade) {
            Ok((taken, s)) => r == Ok::<bool, String>(taken) && final(trades)@ == s,
            Err(e) => r matches Err(m) && m@ == e,
        },
{
    if !text_eq(trade.asset_category.as_str(), "STK") {
        return Ok(false);
    }
    let days = days_of(parse_flex_datetime(trade.date_time.as_str()), trade.settle_date.as_str());
    let (date, settle_date) = match days {
        Ok(p) => p,
        Err(e) => return Err(e),
    };
    let t = StockTrade {
        symbol: copy(trade.symbol.as_str()),
        currency: copy(trade.currency.as_str()),
        quantity: trade.quantity.abs(),
        price: trade.trade_price,
        volume: trade.trade_money.abs(),
        commission: trade.commission.abs(),
        date,
        settle_date,
    };
    if text_eq(trade.buy_sell.as_str(), "BUY") || text_eq(trade.buy_sell.as_str(), "SELL") {
        record(trades, trade.symbol.as_str(), trade.isin.as_str(), trade.buy_sell.as_str(), t);
        Ok(true)
    } else {
        let mut m = copy("Unknown trade direction: ");
        m.append(trade.buy_sell.as_str());
        Err(m)
    }
}

/// Ingest a trade line of the Statement of Funds.
pub fn parse_statement_of_funds_trade(trades: &mut StockTrades, line: &StatementOfFundsLine) -> (r: Result<(), String>)
    ensures
        match fund_trade_step(old(trades)@, *line) {
            Ok(s) => r is Ok && final(trades)@ == s,
            Err(e) => r matches Err(m) && m@ == e,
        },
{
    if text_eq(line.level_of_detail.as_str(), "BaseCurrency") || !(text_eq(line.activity_code.as_str(), "BUY")
        || text_eq(line.activity_code.as_str(), "SELL")) || !text_eq(line.asset_category.as_str(), "STK")
        || line.symbol.unicode_len() == 0 || line.date.unicode_len() == 0 {
        return Ok(());
    }
    let days = days_of(parse_flex_date(line.date.as_str()), line.settle_date.as_str());
    let (date, settle_date) = match days {
        Ok(p) => p,
        Err(e) => return Err(e),
    };
    let t = StockTrade {
        symbol: copy(line.symbol.as_str()),
        currency: copy(line.currency.as_str()),
        quantity: line.trade_quantity.abs(),
        price: line.trade_price,
        volume: line.trade_gross.abs(),
        commission: line.trade_commission.abs(),
        date,
        settle_date,
    };
    record(trades, line.symbol.as_str(), line.isin.as_str(), line.buy_sell.as_str(), t);
    Ok(())
}


/// A cancellation row (`BUY (Ca.)`, `SELL (Ca.)`).
pub open spec fn is_cancellation(t: Trade) -> bool {
    holds_text(t.buy_sell@, "(Ca.)"@)
}

/// A trade id that a cancellation of the section voids: the cancellation names it as its original
/// and a trade of the section carries it. A cancellation whose original is elsewhere voids nothing.
pub open spec fn voids(all: Seq<Trade>, id: Seq<char>) -> bool {
    &&& id.len() > 0
    &&& exists|i: int| 0 <= i < all.len() && is_cancellation(#[trigger] all[i]) && all[i].orig_trade_id@ == id
    &&& exists|j: int| 0 <= j < all.len() && (#[trigger] all[j]).trade_id@ == id
}

/// A row that stands: neither a cancellation nor a trade one voids.
pub open spec fn kept(all: Seq<Trade>, t: Trade) -> bool {
    !is_cancellation(t) && !voids(all, t.trade_id@)
}

/// The Trades section after its first `k` rows: whether a stock trade was taken, and the trades.
pub open spec fn trades_section(all: Seq<Trade>, k: nat, s0: TradesState) -> Result<(bool, TradesState), Seq<char>>
    decreases k,
{
    if k == 0 {
        Ok((false, s0))
    } else {
        match trades_section(all, (k - 1) as nat, s0) {
            Err(e) => Err(e),
            Ok((found, s)) => {
                let t = all[k - 1];
                if !kept(all, t) {
                    Ok((found, s))
                } else {
                    match trade_step(s, t) {
                        Err(e) => Err(e),
                        Ok((taken, s2)) => Ok((found || taken, s2)),
                    }
                }
            },
        }
    }
}

/// The Statement of Funds trade lines after the first `k`.
pub open spec fn fund_trades(lines: Seq<StatementOfFundsLine>, k: nat, s0: TradesState) -> Result<TradesState, Seq<char>>
    decreases k,
{
    if k == 0 {
        Ok(s0)
    } else {
        match fund_trades(lines, (k - 1) as nat, s0) {
            Err(e) => Err(e),
            Ok(s) => fund_trade_step(s, lines[k - 1]),
        }
    }
}

pub open spec fn no_trades() -> TradesState {
    TradesState { buys: Seq::empty(), sells: Seq::empty(), isins: Seq::empty() }
}

/// The stock trades of a statement: its Trades section, or, where that takes none, the trade lines
/// of its Statement of Funds.
pub open spec fn stock_trades_of(st: FlexStatement) -> Result<TradesState, Seq<char>> {
    let t = match st.trades {
        Some(t) => trades_section(t.trades@, t.trades@.len(), no_trades()),
        None => Ok((false, no_trades())),
    };
    match t {
        Err(e) => Err(e),
        Ok((found, s)) => if found {
            Ok(s)
        } else {
            match st.statement_of_funds {
                Some(f) => fund_trades(f.lines@, f.lines@.len(), s),
                None => Ok(s),
            }
        },
    }
}

pub open spec fn ids_view(v: Seq<String>) -> Seq<Seq<char>> {
    v.map_values(|s: String| s@)
}

fn any_trade_has_id(all: &Vec<Trade>, id: &str) -> (r: bool)
    ensures
        r == exists|j: int| 0 <= j < all@.len() && (#[trigger] all@[j]).trade_id@ == id@,
{
    let mut j: usize = 0;
    while j < all.len()
        invariant
            j <= all@.len(),
            forall|q: int| 0 <= q < j ==> (#[trigger] all@[q]).trade_id@ != id@,
        decreases all@.len() - j,
    {
        if text_eq(all[j].trade_id.as_str(), id) {
            return true;
        }
        j = j + 1;
    }
    false
}

/// The ids the section's cancellations void.
fn voided_ids(all: &Vec<Trade>) -> (r: Vec<String>)
    ensures
        forall|id: Seq<char>| #[trigger] ids_view(r@).contains(id) <==> voids(all@, id),
{
    let mut ids: Vec<String> = Vec::new();
    let mut i: usize = 0;
    while i < all.len()
        invariant
            i <= all@.len(),
            forall|id: Seq<char>| #[trigger] ids_view(ids@).contains(id) <==> (id.len() > 0 && (exists|q: int|
                0 <= q < i && is_cancellation(#[trigger] all@[q]) && all@[q].orig_trade_id@ == id) && exists|j: int|
                0 <= j < all@.len() && (#[trigger] all@[j]).trade_id@ == id),
        decreases all@.len() - i,
    {
        let t = &all[i];
        let ghost before = ids_view(ids@);
        if is_cancelled_trade(t.buy_sell.as_str()) && t.orig_trade_id.unicode_len() > 0 && any_trade_has_id(
            all,
            t.orig_trade_id.as_str(),
        ) {
            ids.push(copy(t.orig_trade_id.as_str()));
            proof {
                assert(ids_view(ids@) =~= before.push(t.orig_trade_id@));
                assert forall|id: Seq<char>| #[trigger] ids_view(ids@).contains(id) <==> (id.len() > 0 && (exists|q: int|
                    0 <= q < i + 1 && is_cancellation(#[trigger] all@[q]) && all@[q].orig_trade_id@ == id) && exists|j: int|
                    0 <= j < all@.len() && (#[trigger] all@[j]).trade_id@ == id) by {
                    if ids_view(ids@).contains(id) && id != t.orig_trade_id@ {
                        let k = choose|k: int| 0 <= k < ids_view(ids@).len() && ids_view(ids@)[k] == id;
                        assert(before[k] == id);
                        assert(before.contains(id));
                    }
                    if id == t.orig_trade_id@ {
                        assert(ids_view(ids@)[before.len() as int] == id);
                        assert(is_cancellation(all@[i as int]));
                    }
                    if !ids_view(ids@).contains(id) && before.contains(id) {
                        let k = choose|k: int| 0 <= k < before.len() && before[k] == id;
                        assert(ids_view(ids@)[k] == id);
                    }
                }
            }
        } else {
            proof {
                assert forall|id: Seq<char>| #[trigger] ids_view(ids@).contains(id) <==> (id.len() > 0 && (exists|q: int|
                    0 <= q < i + 1 && is_cancellation(#[trigger] all@[q]) && all@[q].orig_trade_id@ == id) && exists|j: int|
                    0 <= j < all@.len() && (#[trigger] all@[j]).trade_id@ == id) by {
                    if id.len() > 0 && (exists|j: int| 0 <= j < all@.len() && (#[trigger] all@[j]).trade_id@ == id) && is_cancellation(all@[i as int]) && all@[i as int].orig_trade_id@ == id {
                        assert(t.orig_trade_id@ == id);
                    }
                }
            }
        }
        i = i + 1;
    }
    ids
}

fn is_listed(ids: &Vec<String>, id: &str) -> (r: bool)
    ensures
        r == ids_view(ids@).contains(id@),
{
    let mut k: usize = 0;
    while k < ids.len()
        invariant
            k <= ids@.len(),
            forall|q: int| 0 <= q < k ==> ids@[q]@ != id@,
        decreases ids@.len() - k,
    {
        if text_eq(ids[k].as_str(), id) {
            proof {
                assert(ids_view(ids@)[k as int] == id@);
            }
            return true;
        }
        k = k + 1;
    }
    proof {
        if ids_view(ids@).contains(id@) {
            let q = choose|q: int| 0 <= q < ids_view(ids@).len() && ids_view(ids@)[q] == id@;
            assert(ids@[q]@ == id@);
        }
    }
    false
}

impl StockTrades {
    /// No trades yet.
    pub fn new() -> (r: StockTrades)
        ensures
            r@ == no_trades(),
    {
        let r = StockTrades { stock_buys: Vec::new(), stock_sells: Vec::new(), instrument_isins: Vec::new() };
        assert(r@.buys =~= Seq::<TradeView>::empty());
        assert(r@.sells =~= Seq::<TradeView>::empty());
        assert(r@.isins =~= Seq::<(Seq<char>, Seq<char>)>::empty());
        r
    }
}

/// The rows of the Trades section that stand, in order.
fn parse_trades_section(trades: &mut StockTrades, all: &Vec<Trade>) -> (r: Result<bool, String>)
    ensures
        match trades_section(all@, all@.len(), old(trades)@) {
            Ok((found, s)) => r == Ok::<bool, String>(found) && final(trades)@ == s,
            Err(e) => r matches Err(m) && m@ == e,
        },
{
    let ghost s0 = trades@;
    let voided = voided_ids(all);
    let mut found = false;
    let mut k: usize = 0;
    while k < all.len()
        invariant
            k <= all@.len(),
            forall|id: Seq<char>| #[trigger] ids_view(voided@).contains(id) <==> voids(all@, id),
            s0 == old(trades)@,
            trades_section(all@, k as nat, s0) == Ok::<(bool, TradesState), Seq<char>>((found, trades@)),
        decreases all@.len() - k,
    {
        let t = &all[k];
        if is_cancelled_trade(t.buy_sell.as_str()) || is_listed(&voided, t.trade_id.as_str()) {
            k = k + 1;
            continue;
        }
        let ghost before = trades@;
        proof {
            assert(kept(all@, all@[k as int]));
        }
        match parse_trade(trades, t) {
            Ok(taken) => {
                if taken {
                    found = true;
                }
            },
            Err(e) => {
                proof {
                    assert(trade_step(before, all@[k as int]) == Err::<(bool, TradesState), Seq<char>>(e@));
                    assert(trades_section(all@, k as nat + 1, s0) == Err::<(bool, TradesState), Seq<char>>(e@));
                    lemma_section_error(all@, k as nat + 1, s0);
                }
                return Err(e);
            },
        }
        k = k + 1;
    }
    Ok(found)
}

proof fn lemma_section_error(all: Seq<Trade>, k: nat, s0: TradesState)
    requires
        k <= all.len(),
        trades_section(all, k, s0) is Err,
    ensures
        trades_section(all, all.len(), s0) == trades_section(all, k, s0),
    decreases all.len() - k,
{
    if k < all.len() {
        lemma_section_error(all, k + 1, s0);
    }
}

proof fn lemma_fund_error(lines: Seq<StatementOfFundsLine>, k: nat, s0: TradesState)
    requires
        k <= lines.len(),
        fund_trades(lines, k, s0) is Err,
    ensures
        fund_trades(lines, lines.len(), s0) == fund_trades(lines, k, s0),
    decreases lines.len() - k,
{
    if k < lines.len() {
        lemma_fund_error(lines, k + 1, s0);
    }
}

fn parse_fund_trades(trades: &mut StockTrades, lines: &Vec<StatementOfFundsLine>) -> (r: Result<(), String>)
    ensures
        match fund_trades(lines@, lines@.len(), old(trades)@) {
            Ok(s) => r is Ok && final(trades)@ == s,
            Err(e) => r matches Err(m) && m@ == e,
        },
{
    let ghost s0 = trades@;
    let mut k: usize = 0;
    while k < lines.len()
        invariant
            k <= lines@.len(),
            s0 == old(trades)@,
            fund_trades(lines@, k as nat, s0) == Ok::<TradesState, Seq<char>>(trades@),
        decreases lines@.len() - k,
    {
        let ghost before = trades@;
        match parse_statement_of_funds_trade(trades, &lines[k]) {
            Ok(()) => {},
            Err(e) => {
                proof {
                    assert(fund_trade_step(before, lines@[k as int]) == Err::<TradesState, Seq<char>>(e@));
                    assert(fund_trades(lines@, k as nat + 1, s0) == Err::<TradesState, Seq<char>>(e@));
                    lemma_fund_error(lines@, k as nat + 1, s0);
                }
                return Err(e);
            },
        }
        k = k + 1;
    }
    Ok(())
}

/// The stock trades of a statement: its Trades section with cancellations and the trades they void
/// left out, or, where that section takes no stock trade, the trade lines of its Statement of
/// Funds.
pub fn parse_stock_trades(st: &FlexStatement) -> (r: Result<StockTrades, String>)
    ensures
        match stock_trades_of(*st) {
            Ok(s) => r matches Ok(t) && t@ == s,
            Err(e) => r matches Err(m) && m@ == e,
        },
{
    let mut trades = StockTrades::new();
    let found = match &st.trades {
        Some(section) => match parse_trades_section(&mut trades, &section.trades) {
            Ok(f) => f,
            Err(e) => return Err(e),
        },
        None => false,
    };
    if !found {
        match &st.statement_of_funds {
            Some(f) => match parse_fund_trades(&mut trades, &f.lines) {
                Ok(()) => {},
                Err(e) => return Err(e),
            },
            None => {},
        }
    }
    Ok(trades)
}

} // verus!
