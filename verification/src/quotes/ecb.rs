//! The European Central Bank's reference rates, as its data portal publishes them in SDMX CSV
//! (`format=csvdata`): one observation per currency and day, in units of the currency per euro.
//! Fetching is the caller's part; this module reads the published text and derives the rates.
use vstd::prelude::*;

use crate::currency::Cash;
use crate::date::{ymd_parse, Date};
use crate::decimal::{decimal_parse, in_range, unit, Decimal};
use crate::tax_statement::html::grouping::{keys_view, sort_order, sorted_order, KeyView, SortKey};
use crate::text::text_eq;

verus! {

/// The currency every ECB rate is quoted against.
pub const BASE_CURRENCY: &'static str = "EUR";

/// What `csv` reads from a text whose first row is the header: that header and every record, as
/// text fields; nothing when the text is not well-formed CSV.
pub uninterp spec fn csv_table(text: Seq<char>) -> Option<(Seq<Seq<char>>, Seq<Seq<Seq<char>>>)>;

/// The message of the error that `csv` reports for a text that is not well-formed CSV.
pub uninterp spec fn csv_error_text(text: Seq<char>) -> Seq<char>;

pub open spec fn fields_view(v: Seq<String>) -> Seq<Seq<char>> {
    v.map_values(|s: String| s@)
}

pub open spec fn records_view(v: Seq<Vec<String>>) -> Seq<Seq<Seq<char>>> {
    v.map_values(|r: Vec<String>| fields_view(r@))
}

/// `csv::ReaderBuilder::new().has_headers(true).from_reader(..)`: the header and the records, or
/// the error's text. As the reader is not flexible, every record it hands out has as many fields as
/// the header (a record of another length is an error). The error's text is named, not spelled
/// out.
#[verifier::external_body]
fn read_csv(text: &str) -> (r: Result<(Vec<String>, Vec<Vec<String>>), String>)
    ensures
        r is Ok <==> csv_table(text@) is Some,
        r matches Ok(t) ==> csv_table(text@) == Some((fields_view(t.0@), records_view(t.1@))),
        r matches Err(m) ==> m@ == csv_error_text(text@),
        r matches Ok(t) ==> forall|i: int| 0 <= i < t.1@.len() ==> (#[trigger] t.1@[i])@.len() == t.0@.len(),
{
    let mut reader = csv::ReaderBuilder::new().has_headers(true).from_reader(text.as_bytes());
    let headers = match reader.headers() {
        Ok(h) => h.iter().map(str::to_owned).collect(),
        Err(e) => return Err(e.to_string()),
    };
    let records: Result<Vec<Vec<String>>, csv::Error> =
        reader.records().map(|r| r.map(|r| r.iter().map(str::to_owned).collect())).collect();
    match records {
        Ok(records) => Ok((headers, records)),
        Err(e) => Err(e.to_string()),
    }
}

/// One published rate: `value` units of `currency` per euro on `date`.
#[derive(Debug)]
pub struct EcbObservation {
    pub currency: String,
    pub date: Date,
    pub value: Decimal,
}

/// An observation as plain values: the day as (year, month, day), the value as (mantissa, scale).
pub struct ObservationView {
    pub currency: Seq<char>,
    pub date: (int, int, int),
    pub value: (int, nat),
}

impl View for EcbObservation {
    type V = ObservationView;

    open spec fn view(&self) -> ObservationView {
        ObservationView {
            currency: self.currency@,
            date: (self.date.y(), self.date.m(), self.date.d()),
            value: (self.value.mant(), self.value.exp()),
        }
    }
}

pub open spec fn observations_view(v: Seq<EcbObservation>) -> Seq<ObservationView> {
    v.map_values(|o: EcbObservation| o@)
}

/// Why a published text could not be read.
#[derive(Debug)]
pub enum EcbError {
    /// Not well-formed CSV; the reader's message.
    Csv(String),
    /// The header lacks one of `CURRENCY`, `TIME_PERIOD`, `OBS_VALUE`.
    UnexpectedHeader(Vec<String>),
    /// A record without a currency, a `%Y-%m-%d` day or a positive decimal value.
    UnexpectedRecord(Vec<String>),
}

/// The fields of a record in brackets, each quoted, separated by commas.
pub open spec fn quoted_fields(f: Seq<Seq<char>>) -> Seq<char>
    decreases f.len(),
{
    if f.len() == 0 {
        Seq::empty()
    } else if f.len() == 1 {
        "\""@ + f[0] + "\""@
    } else {
        quoted_fields(f.drop_last()) + ", \""@ + f.last() + "\""@
    }
}

pub open spec fn record_text(f: Seq<Seq<char>>) -> Seq<char> {
    "["@ + quoted_fields(f) + "]"@
}

pub enum EcbErrorView {
    Csv(Seq<char>),
    UnexpectedHeader(Seq<Seq<char>>),
    UnexpectedRecord(Seq<Seq<char>>),
}

impl View for EcbError {
    type V = EcbErrorView;

    open spec fn view(&self) -> EcbErrorView {
        match self {
            EcbError::Csv(m) => EcbErrorView::Csv(m@),
            EcbError::UnexpectedHeader(h) => EcbErrorView::UnexpectedHeader(fields_view(h@)),
            EcbError::UnexpectedRecord(r) => EcbErrorView::UnexpectedRecord(fields_view(r@)),
        }
    }
}

fn push_record(out: &mut String, fields: &Vec<String>)
    ensures
        final(out)@ == old(out)@ + record_text(fields_view(fields@)),
{
    let ghost fv = fields_view(fields@);
    out.append("[");
    let ghost start = out@;
    let mut i: usize = 0;
    while i < fields.len()
        invariant
            fv == fields_view(fields@),
            i <= fields@.len(),
            out@ == start + quoted_fields(fv.take(i as int)),
        decreases fields@.len() - i,
    {
        proof {
            assert(fv.take(i + 1).drop_last() =~= fv.take(i as int));
            assert(fv.take(i + 1).last() == fields@[i as int]@);
        }
        if i == 0 {
            out.append("\"");
        } else {
            out.append(", \"");
        }
        out.append(fields[i].as_str());
        out.append("\"");
        proof {
            if i == 0 {
                assert(fv.take(1)[0] == fields@[0]@);
                assert(out@ =~= start + quoted_fields(fv.take(1)));
            } else {
                assert(out@ =~= start + quoted_fields(fv.take(i + 1)));
            }
        }
        i = i + 1;
    }
    out.append("]");
    proof {
        assert(fv.take(i as int) =~= fv);
        assert(out@ =~= old(out)@ + record_text(fv));
    }
}

/// What an error says.
pub open spec fn error_message(e: EcbError) -> Seq<char> {
    match e {
        EcbError::Csv(m) => m@,
        EcbError::UnexpectedHeader(h) => "Got an unexpected ECB CSV header: "@ + record_text(fields_view(h@)),
        EcbError::UnexpectedRecord(r) => "Got an unexpected ECB CSV record: "@ + record_text(fields_view(r@)),
    }
}

impl EcbError {
    /// The error as a sentence.
    pub fn message(&self) -> (r: String)
        ensures
            r@ == error_message(*self),
    {
        match self {
            EcbError::Csv(m) => <String as StringExecFns>::from_str(m.as_str()),
            EcbError::UnexpectedHeader(h) => {
                let mut out = <String as StringExecFns>::from_str("Got an unexpected ECB CSV header: ");
                push_record(&mut out, h);
                out
            },
            EcbError::UnexpectedRecord(r) => {
                let mut out = <String as StringExecFns>::from_str("Got an unexpected ECB CSV record: ");
                push_record(&mut out, r);
                out
            },
        }
    }
}

/// The first position of `name` among the header fields.
pub open spec fn position(h: Seq<Seq<char>>, name: Seq<char>) -> Option<int>
    decreases h.len(),
{
    if h.len() == 0 {
        None
    } else {
        match position(h.drop_last(), name) {
            Some(i) => Some(i),
            None => if h.last() == name {
                Some(h.len() - 1)
            } else {
                None
            },
        }
    }
}

/// The observation a record holds, given the columns of currency, day and value.
pub open spec fn observation_of(rec: Seq<Seq<char>>, c: int, d: int, v: int) -> Option<ObservationView> {
    if 0 <= c < rec.len() && 0 <= d < rec.len() && 0 <= v < rec.len() {
        match (ymd_parse(rec[d]), decimal_parse(rec[v])) {
            (Some(day), Some(value)) => if value.0 > 0 {
                Some(ObservationView { currency: rec[c], date: day, value })
            } else {
                None
            },
            _ => None,
        }
    } else {
        None
    }
}

/// The observations of the records in order, or the first record that holds none.
pub open spec fn observations_of(recs: Seq<Seq<Seq<char>>>, c: int, d: int, v: int) -> Result<Seq<ObservationView>, Seq<Seq<char>>>
    decreases recs.len(),
{
    if recs.len() == 0 {
        Ok(Seq::empty())
    } else {
        match observations_of(recs.drop_last(), c, d, v) {
            Err(r) => Err(r),
            Ok(obs) => match observation_of(recs.last(), c, d, v) {
                Some(o) => Ok(obs.push(o)),
                None => Err(recs.last()),
            },
        }
    }
}

/// What a published text holds.
pub open spec fn ecb_parse(text: Seq<char>) -> Result<Seq<ObservationView>, EcbErrorView> {
    match csv_table(text) {
        None => Err(EcbErrorView::Csv(csv_error_text(text))),
        Some((h, recs)) => match (position(h, "CURRENCY"@), position(h, "TIME_PERIOD"@), position(h, "OBS_VALUE"@)) {
            (Some(c), Some(d), Some(v)) => match observations_of(recs, c, d, v) {
                Ok(o) => Ok(o),
                Err(r) => Err(EcbErrorView::UnexpectedRecord(r)),
            },
            _ => Err(EcbErrorView::UnexpectedHeader(h)),
        },
    }
}

pub open spec fn result_view(r: Result<Vec<EcbObservation>, EcbError>) -> Result<Seq<ObservationView>, EcbErrorView> {
    match r {
        Ok(o) => Ok(observations_view(o@)),
        Err(e) => Err(e@),
    }
}

fn find_column(h: &Vec<String>, name: &str) -> (r: Option<usize>)
    ensures
        match position(fields_view(h@), name@) {
            Some(i) => r matches Some(j) && j as int == i,
            None => r is None,
        },
{
    let ghost hv = fields_view(h@);
    let mut i: usize = 0;
    while i < h.len()
        invariant
            hv == fields_view(h@),
            i <= h@.len(),
            position(hv.take(i as int), name@) is None,
        decreases h@.len() - i,
    {
        proof {
            assert(hv.take(i + 1).drop_last() =~= hv.take(i as int));
        }
        if text_eq(h[i].as_str(), name) {
            proof {
                assert(hv.take(i + 1).last() == h@[i as int]@);
                lemma_position_prefix(hv, name@, i + 1);
            }
            return Some(i);
        }
        i = i + 1;
    }
    proof {
        assert(hv.take(i as int) =~= hv);
    }
    None
}

/// A position found in a prefix is the position in the whole header.
proof fn lemma_position_prefix(h: Seq<Seq<char>>, name: Seq<char>, k: int)
    requires
        0 <= k <= h.len(),
        position(h.take(k), name) is Some,
    ensures
        position(h, name) == position(h.take(k), name),
    decreases h.len() - k,
{
    if k < h.len() {
        assert(h.take(k + 1).drop_last() =~= h.take(k));
        lemma_position_prefix(h, name, k + 1);
    } else {
        assert(h.take(k) =~= h);
    }
}

fn copy_fields(v: &Vec<String>) -> (r: Vec<String>)
    ensures
        fields_view(r@) == fields_view(v@),
{
    let mut r: Vec<String> = Vec::new();
    let mut i: usize = 0;
    while i < v.len()
        invariant
            i <= v@.len(),
            fields_view(r@) == fields_view(v@.take(i as int)),
        decreases v@.len() - i,
    {
        let ghost before = fields_view(r@);
        r.push(<String as StringExecFns>::from_str(v[i].as_str()));
        proof {
            assert(fields_view(r@) =~= before.push(v@[i as int]@));
            assert(fields_view(v@.take(i + 1)) =~= before.push(v@[i as int]@));
        }
        i = i + 1;
    }
    proof {
        assert(v@.take(i as int) =~= v@);
    }
    r
}

fn read_observation(rec: &Vec<String>, c: usize, d: usize, v: usize) -> (r: Option<EcbObservation>)
    ensures
        match observation_of(fields_view(rec@), c as int, d as int, v as int) {
            Some(o) => r matches Some(x) && x@ == o && x.value.units() > 0,
            None => r is None,
        },
{
    if c < rec.len() && d < rec.len() && v < rec.len() {
        let date = Date::parse_ymd(rec[d].as_str());
        let value = Decimal::parse(rec[v].as_str());
        match (date, value) {
            (Some(date), Some(value)) => {
                if value.is_positive() {
                    Some(EcbObservation { currency: <String as StringExecFns>::from_str(rec[c].as_str()), date, value })
                } else {
                    None
                }
            },
            _ => None,
        }
    } else {
        None
    }
}

/// Read the observations of a published text: the header must name the columns `CURRENCY`,
/// `TIME_PERIOD` and `OBS_VALUE`; every record must hold a currency, a `%Y-%m-%d` day and a
/// positive decimal value.
pub fn parse_observations(text: &str) -> (r: Result<Vec<EcbObservation>, EcbError>)
    ensures
        result_view(r) == ecb_parse(text@),
        r matches Ok(o) ==> forall|i: int| 0 <= i < o@.len() ==> (#[trigger] o@[i]).value.units() > 0,
{
    let (headers, records) = match read_csv(text) {
        Ok(t) => t,
        Err(e) => return Err(EcbError::Csv(e)),
    };
    let ghost hv = fields_view(headers@);
    let ghost rv = records_view(records@);
    assert(csv_table(text@) == Some((hv, rv)));
    let oc = find_column(&headers, "CURRENCY");
    let od = find_column(&headers, "TIME_PERIOD");
    let ov = find_column(&headers, "OBS_VALUE");
    let (c, d, v) = match (oc, od, ov) {
        (Some(c), Some(d), Some(v)) => (c, d, v),
        _ => return Err(EcbError::UnexpectedHeader(headers)),
    };
    let mut observations: Vec<EcbObservation> = Vec::new();
    let mut i: usize = 0;
    proof {
        assert(rv.take(0) =~= Seq::<Seq<Seq<char>>>::empty());
        assert(observations_view(observations@) =~= Seq::<ObservationView>::empty());
    }
    while i < records.len()
        invariant
            rv == records_view(records@),
            csv_table(text@) == Some((hv, rv)),
            position(hv, "CURRENCY"@) == Some(c as int),
            position(hv, "TIME_PERIOD"@) == Some(d as int),
            position(hv, "OBS_VALUE"@) == Some(v as int),
            i <= records@.len(),
            observations_of(rv.take(i as int), c as int, d as int, v as int) == Ok::<Seq<ObservationView>, Seq<Seq<char>>>(
                observations_view(observations@),
            ),
            forall|j: int| 0 <= j < observations@.len() ==> (#[trigger] observations@[j]).value.units() > 0,
        decreases records@.len() - i,
    {
        let rec = &records[i];
        proof {
            assert(rv.take(i + 1).drop_last() =~= rv.take(i as int));
            assert(rv.take(i + 1).last() == fields_view(rec@));
        }
        match read_observation(rec, c, d, v) {
            Some(o) => {
                let ghost before = observations_view(observations@);
                observations.push(o);
                proof {
                    assert(observations_view(observations@) =~= before.push(o@));
                }
            },
            None => {
                let fields = copy_fields(rec);
                proof {
                    assert(observations_of(rv.take(i + 1), c as int, d as int, v as int) == Err::<
                        Seq<ObservationView>,
                        Seq<Seq<char>>,
                    >(fields_view(rec@)));
                    lemma_observations_error(rv, c as int, d as int, v as int, i as int + 1);
                    assert(csv_table(text@) == Some((hv, rv)));
                }
                return Err(EcbError::UnexpectedRecord(fields));
            },
        }
        i = i + 1;
    }
    proof {
        assert(rv.take(i as int) =~= rv);
        assert(csv_table(text@) == Some((hv, rv)));
    }
    Ok(observations)
}

/// An error in the first records is the error of all of them.
proof fn lemma_observations_error(recs: Seq<Seq<Seq<char>>>, c: int, d: int, v: int, k: int)
    requires
        0 <= k <= recs.len(),
        observations_of(recs.take(k), c, d, v) is Err,
    ensures
        observations_of(recs, c, d, v) == observations_of(recs.take(k), c, d, v),
    decreases recs.len() - k,
{
    if k < recs.len() {
        assert(recs.take(k + 1).drop_last() =~= recs.take(k));
        lemma_observations_error(recs, c, d, v, k + 1);
    } else {
        assert(recs.take(k) =~= recs);
    }
}


/// A currency's rate as the map of the day holds it: the value of its last observation.
pub open spec fn last_value(obs: Seq<EcbObservation>, c: Seq<char>) -> Option<Decimal>
    decreases obs.len(),
{
    if obs.len() == 0 {
        None
    } else if obs.last().currency@ == c {
        Some(obs.last().value)
    } else {
        last_value(obs.drop_last(), c)
    }
}

/// No currency occurs twice.
pub open spec fn unique_keys(rates: Seq<(String, Decimal)>) -> bool {
    forall|i: int, j: int| 0 <= i < j < rates.len() ==> (#[trigger] rates[i]).0@ != (#[trigger] rates[j]).0@
}

/// The rate a currency has in the map.
pub open spec fn rate_in(rates: Seq<(String, Decimal)>, c: Seq<char>) -> Option<Decimal> {
    if exists|i: int| 0 <= i < rates.len() && (#[trigger] rates[i]).0@ == c {
        Some(rates[choose|i: int| 0 <= i < rates.len() && (#[trigger] rates[i]).0@ == c].1)
    } else {
        None
    }
}

/// Where a currency stands in the map.
fn find_currency(rates: &Vec<(String, Decimal)>, c: &str) -> (r: Option<usize>)
    requires
        unique_keys(rates@),
    ensures
        match r {
            Some(k) => k < rates@.len() && rates@[k as int].0@ == c@ && rate_in(rates@, c@) == Some(rates@[k as int].1),
            None => rate_in(rates@, c@) is None,
        },
{
    let mut k: usize = 0;
    while k < rates.len()
        invariant
            k <= rates@.len(),
            unique_keys(rates@),
            forall|i: int| 0 <= i < k ==> (#[trigger] rates@[i]).0@ != c@,
        decreases rates@.len() - k,
    {
        if text_eq(rates[k].0.as_str(), c) {
            proof {
                let j = choose|i: int| 0 <= i < rates@.len() && (#[trigger] rates@[i]).0@ == c@;
                assert(rates@[k as int].0@ == c@);
                if j != k as int {
                    if j < k {
                        assert(rates@[j].0@ != rates@[k as int].0@);
                    } else {
                        assert(rates@[k as int].0@ != rates@[j].0@);
                    }
                }
            }
            return Some(k);
        }
        k = k + 1;
    }
    None
}

/// Replacing the value of a currency the map holds.
proof fn lemma_rate_in_update(rates: Seq<(String, Decimal)>, k: int, pair: (String, Decimal))
    requires
        unique_keys(rates),
        0 <= k < rates.len(),
        rates[k].0@ == pair.0@,
    ensures
        unique_keys(rates.update(k, pair)),
        forall|c: Seq<char>| #[trigger] rate_in(rates.update(k, pair), c) == if c == pair.0@ {
            Some(pair.1)
        } else {
            rate_in(rates, c)
        },
{
    let u = rates.update(k, pair);
    assert forall|a: int, b: int| 0 <= a < b < u.len() implies (#[trigger] u[a]).0@ != (#[trigger] u[b]).0@ by {
        assert(rates[a].0@ != rates[b].0@);
    }
    assert forall|c: Seq<char>| #[trigger] rate_in(u, c) == if c == pair.0@ {
        Some(pair.1)
    } else {
        rate_in(rates, c)
    } by {
        if c == pair.0@ {
            assert(u[k].0@ == c);
            let j = choose|i: int| 0 <= i < u.len() && (#[trigger] u[i]).0@ == c;
            if j != k {
                assert(rates[j].0@ == rates[k].0@);
                if j < k {
                    assert(rates[j].0@ != rates[k].0@);
                } else {
                    assert(rates[k].0@ != rates[j].0@);
                }
            }
        } else {
            assert forall|i: int| 0 <= i < u.len() implies ((#[trigger] u[i]).0@ == c) == (rates[i].0@ == c) by {}
            if exists|i: int| 0 <= i < rates.len() && (#[trigger] rates[i]).0@ == c {
                let j = choose|i: int| 0 <= i < rates.len() && (#[trigger] rates[i]).0@ == c;
                assert(u[j].0@ == c);
                let j2 = choose|i: int| 0 <= i < u.len() && (#[trigger] u[i]).0@ == c;
                assert(rates[j2].0@ == c);
                if j != j2 {
                    if j < j2 {
                        assert(rates[j].0@ != rates[j2].0@);
                    } else {
                        assert(rates[j2].0@ != rates[j].0@);
                    }
                }
            } else {
                if exists|i: int| 0 <= i < u.len() && (#[trigger] u[i]).0@ == c {
                    let j2 = choose|i: int| 0 <= i < u.len() && (#[trigger] u[i]).0@ == c;
                    assert(rates[j2].0@ == c);
                }
            }
        }
    }
}

/// Adding a currency the map does not hold.
proof fn lemma_rate_in_push(rates: Seq<(String, Decimal)>, pair: (String, Decimal))
    requires
        unique_keys(rates),
        rate_in(rates, pair.0@) is None,
    ensures
        unique_keys(rates.push(pair)),
        forall|c: Seq<char>| #[trigger] rate_in(rates.push(pair), c) == if c == pair.0@ {
            Some(pair.1)
        } else {
            rate_in(rates, c)
        },
{
    let u = rates.push(pair);
    let n = rates.len() as int;
    assert forall|a: int, b: int| 0 <= a < b < u.len() implies (#[trigger] u[a]).0@ != (#[trigger] u[b]).0@ by {
        if b == n {
            assert(rates[a] == u[a]);
            if rates[a].0@ == pair.0@ {
                assert(exists|i: int| 0 <= i < rates.len() && (#[trigger] rates[i]).0@ == pair.0@);
            }
        } else {
            assert(rates[a].0@ != rates[b].0@);
        }
    }
    assert forall|c: Seq<char>| #[trigger] rate_in(u, c) == if c == pair.0@ {
        Some(pair.1)
    } else {
        rate_in(rates, c)
    } by {
        if c == pair.0@ {
            assert(u[n].0@ == c);
            let j = choose|i: int| 0 <= i < u.len() && (#[trigger] u[i]).0@ == c;
            if j < n {
                assert(rates[j].0@ == c);
                assert(exists|i: int| 0 <= i < rates.len() && (#[trigger] rates[i]).0@ == c);
            }
        } else {
            if exists|i: int| 0 <= i < rates.len() && (#[trigger] rates[i]).0@ == c {
                let j = choose|i: int| 0 <= i < rates.len() && (#[trigger] rates[i]).0@ == c;
                assert(u[j].0@ == c);
                let j2 = choose|i: int| 0 <= i < u.len() && (#[trigger] u[i]).0@ == c;
                assert(j2 < n);
                assert(rates[j2].0@ == c);
                if j != j2 {
                    if j < j2 {
                        assert(rates[j].0@ != rates[j2].0@);
                    } else {
                        assert(rates[j2].0@ != rates[j].0@);
                    }
                }
            } else {
                if exists|i: int| 0 <= i < u.len() && (#[trigger] u[i]).0@ == c {
                    let j2 = choose|i: int| 0 <= i < u.len() && (#[trigger] u[i]).0@ == c;
                    assert(j2 < n);
                    assert(rates[j2].0@ == c);
                }
            }
        }
    }
}

/// The rates of the day as the data portal gives them (no inversion): for every currency, the
/// value of its last observation; every currency once.
pub fn currency_rates(observations: &Vec<EcbObservation>) -> (r: Vec<(String, Decimal)>)
    ensures
        unique_keys(r@),
        forall|c: Seq<char>| #[trigger] rate_in(r@, c) == last_value(observations@, c),
{
    let mut rates: Vec<(String, Decimal)> = Vec::new();
    let mut i: usize = 0;
    while i < observations.len()
        invariant
            i <= observations@.len(),
            unique_keys(rates@),
            forall|c: Seq<char>| #[trigger] rate_in(rates@, c) == last_value(observations@.take(i as int), c),
        decreases observations@.len() - i,
    {
        let o = &observations[i];
        let ghost before = rates@;
        proof {
            assert(observations@.take(i + 1).drop_last() =~= observations@.take(i as int));
            assert(observations@.take(i + 1).last() == *o);
        }
        let name = <String as StringExecFns>::from_str(o.currency.as_str());
        let pair = (name, o.value);
        match find_currency(&rates, o.currency.as_str()) {
            Some(k) => {
                proof {
                    lemma_rate_in_update(before, k as int, pair);
                }
                rates.set(k, pair);
                assert(rates@ == before.update(k as int, pair));
            },
            None => {
                proof {
                    lemma_rate_in_push(before, pair);
                }
                rates.push(pair);
                assert(rates@ == before.push(pair));
            },
        }
        proof {
            assert forall|c: Seq<char>| #[trigger] rate_in(rates@, c) == last_value(observations@.take(i + 1), c) by {
                assert(rate_in(before, c) == last_value(observations@.take(i as int), c));
            }
        }
        i = i + 1;
    }
    proof {
        assert(observations@.take(i as int) =~= observations@);
    }
    rates
}


/// One euro.
pub open spec fn one() -> Decimal {
    Decimal::spec_new(1, 0)
}

/// The rate of a currency against the euro: one for the euro itself, else its rate of the day.
pub open spec fn rate_for(rates: Seq<(String, Decimal)>, c: Seq<char>) -> Option<Decimal> {
    if c == BASE_CURRENCY@ {
        Some(one())
    } else {
        rate_in(rates, c)
    }
}

/// Every rate of the map is positive.
pub open spec fn rates_positive(rates: Seq<(String, Decimal)>) -> bool {
    forall|i: int| 0 <= i < rates.len() ==> (#[trigger] rates[i]).1.units() > 0
}

/// The quotient of two rates fits the representation.
pub open spec fn quotient_fits(q: Decimal, b: Decimal) -> bool {
    in_range(q.units() * unit() / b.units()) && in_range(-q.units() * unit() / b.units())
}

fn base_rate(rates: &Vec<(String, Decimal)>, c: &str) -> (r: Option<Decimal>)
    requires
        unique_keys(rates@),
        rates_positive(rates@),
    ensures
        r == rate_for(rates@, c@),
        r matches Some(x) ==> x.units() > 0,
{
    if text_eq(c, BASE_CURRENCY) {
        proof {
            crate::decimal::lemma_pow10_28();
        }
        let unit_one = Decimal::new(1, 0);
        assert(unit_one.units() == unit());
        Some(unit_one)
    } else {
        match find_currency(rates, c) {
            Some(k) => Some(rates[k].1),
            None => None,
        }
    }
}

/// The price of one unit of `base` in `quote`, from the rates of the day (units per euro):
/// `quote`'s rate over `base`'s, the euro's rate being one. None when either currency has no rate.
pub fn get_quote(base: &str, quote: &str, rates: &Vec<(String, Decimal)>) -> (r: Option<Cash>)
    requires
        unique_keys(rates@),
        rates_positive(rates@),
        match (rate_for(rates@, base@), rate_for(rates@, quote@)) {
            (Some(b), Some(q)) => quotient_fits(q, b),
            _ => true,
        },
    ensures
        match (rate_for(rates@, base@), rate_for(rates@, quote@)) {
            (Some(b), Some(q)) => r matches Some(x) && x.currency@ == quote@ && x.amount == q.spec_div(b),
            _ => r is None,
        },
{
    let b = match base_rate(rates, base) {
        Some(b) => b,
        None => return None,
    };
    let q = match base_rate(rates, quote) {
        Some(q) => q,
        None => return None,
    };
    Some(Cash::new(quote, q.div(&b)))
}

/// One day's price of a currency in euros.
#[derive(Debug)]
pub struct CurrencyRate {
    pub date: Date,
    pub price: Decimal,
}

/// Observations ordered by day, those of one day in the order given.
pub open spec fn day_key(o: EcbObservation) -> KeyView {
    KeyView { rank: 0, texts: Seq::empty(), day: o.date.key() }
}

pub open spec fn by_day(obs: Seq<EcbObservation>) -> Seq<int> {
    sorted_order(obs.map_values(|o: EcbObservation| day_key(o)), obs.len())
}

/// The historical rates of a series: the published values inverted to euros per unit of the
/// currency, ordered by day (a stable order).
pub fn historical_currency_rates(observations: &Vec<EcbObservation>) -> (r: Vec<CurrencyRate>)
    requires
        forall|i: int| 0 <= i < observations@.len() ==> (#[trigger] observations@[i]).value.units() > 0,
    ensures
        r@.len() == observations@.len(),
        forall|k: int| 0 <= k < r@.len() ==> {
            let o = observations@[by_day(observations@)[k]];
            &&& (#[trigger] r@[k]).date == o.date
            &&& r@[k].price == one().spec_div(o.value)
        },
{
    let mut keys: Vec<SortKey> = Vec::new();
    let mut i: usize = 0;
    while i < observations.len()
        invariant
            i <= observations@.len(),
            keys_view(keys@) == observations@.take(i as int).map_values(|o: EcbObservation| day_key(o)),
        decreases observations@.len() - i,
    {
        let o = &observations[i];
        let day = (o.date.year() as i64) * 10000 + (o.date.month() as i64) * 100 + (o.date.day() as i64);
        let k = SortKey { rank: 0, texts: Vec::new(), day };
        let ghost before = keys_view(keys@);
        proof {
            assert(k@.texts =~= Seq::<Seq<char>>::empty());
        }
        keys.push(k);
        proof {
            assert(keys_view(keys@) =~= before.push(day_key(*o)));
            assert(observations@.take(i + 1).map_values(|o: EcbObservation| day_key(o)) =~= before.push(
                day_key(observations@[i as int]),
            ));
        }
        i = i + 1;
    }
    proof {
        assert(observations@.take(i as int) =~= observations@);
    }
    let order = sort_order(&keys);
    proof {
        crate::decimal::lemma_pow10_28();
    }
    let unit_one = Decimal::new(1, 0);
    assert(unit_one.units() == unit());
    let mut rates: Vec<CurrencyRate> = Vec::new();
    let mut k: usize = 0;
    while k < order.len()
        invariant
            forall|i: int| 0 <= i < observations@.len() ==> (#[trigger] observations@[i]).value.units() > 0,
            order@.map_values(|i: usize| i as int) == by_day(observations@),
            forall|p: int| 0 <= p < order@.len() ==> order@[p] < observations@.len(),
            order@.len() == observations@.len(),
            unit_one == one(),
            unit_one.units() == unit(),
            k <= order@.len(),
            rates@.len() == k,
            forall|q: int| 0 <= q < k ==> {
                let o = observations@[by_day(observations@)[q]];
                &&& (#[trigger] rates@[q]).date == o.date
                &&& rates@[q].price == one().spec_div(o.value)
            },
        decreases order@.len() - k,
    {
        let o = &observations[order[k]];
        proof {
            assert(by_day(observations@)[k as int] == order@[k as int] as int);
            let u = o.value.units();
            assert(u > 0);
            assert(unit() * unit() / u <= unit() * unit()) by (nonlinear_arith)
                requires
                    u > 0,
            ;
            assert(unit() * unit() / u >= 0) by (nonlinear_arith)
                requires
                    u > 0,
            ;
            assert(-unit() * unit() / u <= 0) by (nonlinear_arith)
                requires
                    u > 0,
            ;
            assert(-unit() * unit() / u >= -unit() * unit()) by (nonlinear_arith)
                requires
                    u > 0,
            ;
        }
        let price = unit_one.div(&o.value);
        rates.push(CurrencyRate { date: o.date, price });
        k = k + 1;
    }
    rates
}

} // verus!
