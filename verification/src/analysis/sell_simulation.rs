//! Year-level German tax for the disposals of a sale simulation.
//!
//! A German disposal has no tax price of its own. The charge falls out of the whole tax year: the
//! §20(6) EStG loss pots (share losses live in their own pot and offset only share gains), the
//! prior-year Verlustvortrag, and whatever is left of the Sparer-Pauschbetrag. So the year is
//! recomputed after each simulated sale and each disposal is priced at the difference it makes; a
//! loss-making trim then shows as negative tax, because it shelters a gain booked elsewhere in the
//! same year.
//!
//! Each row is rounded to cents on its own while the total is taken end-to-end, so summing the rows
//! can miss the total by a cent.
use vstd::prelude::*;

use crate::decimal::{limit, Decimal};
use crate::tax_statement::eur::round_eur;
use crate::tax_statement::germany::statement::GermanTaxStatement;
use crate::taxes::germany::{base_ok, church_rate_ok, spec_compute_taxes};
use crate::text::push_int;

verus! {

/// A tax figure small enough that the difference of two of them cannot overflow.
pub open spec fn tax_ok(d: Decimal) -> bool {
    -limit() < 2 * d.units() < limit()
}

/// Why a recomputed year cannot be paired with the simulated sales.
#[derive(Debug, Clone, PartialEq, Eq, Structural)]
pub enum SimulationError {
    /// The processor produced a different number of capital-gain entries than there are trades
    /// that produce one.
    EntryCountMismatch { year: i32, entries: i64, trades: i64 },
    /// Fewer qualifying trades than sales simulated so far.
    TooFewTrades { year: i32, trades: i64, simulated: i64 },
    /// The simulated sales are not the trailing qualifying trades.
    NotTrailing { year: i32 },
}

impl SimulationError {
    /// The error message.
    pub fn message(&self) -> (r: String)
        ensures
            r@ == simulation_error_text(*self),
    {
        let mut s = <String as StringExecFns>::from_str("German tax simulation: ");
        match self {
            SimulationError::EntryCountMismatch { year, entries, trades } => {
                push_int(&mut s, *year as i64);
                s.append(" yielded ");
                push_int(&mut s, *entries);
                s.append(" capital gain entries for ");
                push_int(&mut s, *trades);
                s.append(" trades");
            },
            SimulationError::TooFewTrades { year, trades, simulated } => {
                push_int(&mut s, *year as i64);
                s.append(" has only ");
                push_int(&mut s, *trades);
                s.append(" trades for ");
                push_int(&mut s, *simulated);
                s.append(" simulated sales");
            },
            SimulationError::NotTrailing { year } => {
                s.append("the simulated sales aren't the trailing ");
                push_int(&mut s, *year as i64);
                s.append(" trades");
            },
        }
        s
    }
}

pub open spec fn simulation_error_text(e: SimulationError) -> Seq<char> {
    "German tax simulation: "@ + match e {
        SimulationError::EntryCountMismatch { year, entries, trades } => crate::text::int_text(year as int)
            + " yielded "@ + crate::text::int_text(entries as int) + " capital gain entries for "@
            + crate::text::int_text(trades as int) + " trades"@,
        SimulationError::TooFewTrades { year, trades, simulated } => crate::text::int_text(year as int)
            + " has only "@ + crate::text::int_text(trades as int) + " trades for "@
            + crate::text::int_text(simulated as int) + " simulated sales"@,
        SimulationError::NotTrailing { year } => "the simulated sales aren't the trailing "@
            + crate::text::int_text(year as int) + " trades"@,
    }
}

/// Whether the qualifying trades of a recomputed year end in exactly `simulated` simulated ones:
/// `emulated[i]` tells whether the `i`-th qualifying trade is a simulated sale.
pub open spec fn trailing(emulated: Seq<bool>, simulated: int) -> bool {
    let settled = emulated.len() - simulated;
    &&& forall|i: int| settled <= i < emulated.len() ==> #[trigger] emulated[i]
    &&& forall|i: int| 0 <= i < settled ==> !#[trigger] emulated[i]
}

/// Whether the flags end in exactly `simulated` set ones.
fn is_trailing(emulated: &Vec<bool>, simulated: usize) -> (r: bool)
    requires
        simulated <= emulated@.len(),
    ensures
        r == trailing(emulated@, simulated as int),
{
    let n = emulated.len();
    let settled = n - simulated;
    let mut i: usize = 0;
    while i < n
        invariant
            n == emulated@.len(),
            settled == n - simulated,
            i <= n,
            forall|j: int| settled <= j < i ==> #[trigger] emulated@[j],
            forall|j: int| 0 <= j < i && j < settled ==> !#[trigger] emulated@[j],
        decreases n - i,
    {
        if emulated[i] != (i >= settled) {
            assert(emulated@[i as int] != (i >= settled));
            return false;
        }
        i = i + 1;
    }
    true
}

/// The year's net German tax before the simulated sales, and after each of them in turn.
pub struct GermanTaxSimulation {
    year: i32,
    /// `taxes[k]` is the year's net tax when the first `k` simulated disposals happen.
    taxes: Vec<Decimal>,
    /// What each disposal would cost taxed on its own at the §32d(1) rates of the year.
    standalone: Vec<Decimal>,
    before: GermanTaxStatement,
    after: Option<GermanTaxStatement>,
}

impl GermanTaxSimulation {
    /// Well-formed: one more year figure than observed sales, each small enough to subtract.
    pub closed spec fn wf(self) -> bool {
        &&& self.taxes@.len() == self.standalone@.len() + 1
        &&& self.standalone@.len() < i64::MAX
        &&& self.standalone@.len() < usize::MAX
        &&& forall|k: int| 0 <= k < self.taxes@.len() ==> tax_ok(#[trigger] self.taxes@[k])
        &&& self.after is None <==> self.standalone@.len() == 0
    }

    /// The tax year.
    pub closed spec fn tax_year(self) -> i32 {
        self.year
    }

    /// The net tax of the year before any simulated sale, then after each observed one.
    pub closed spec fn taxes(self) -> Seq<Decimal> {
        self.taxes@
    }

    /// The stand-alone tax of each observed sale.
    pub closed spec fn standalones(self) -> Seq<Decimal> {
        self.standalone@
    }

    /// The untouched year.
    pub closed spec fn year_before(self) -> GermanTaxStatement {
        self.before
    }

    /// The year as of the last observed sale; the untouched year while none was observed.
    pub closed spec fn year_after(self) -> GermanTaxStatement {
        match self.after {
            Some(st) => st,
            None => self.before,
        }
    }

    /// Start from the year as it stands before any sale is simulated.
    pub fn new(year: i32, before: GermanTaxStatement) -> (r: GermanTaxSimulation)
        requires
            tax_ok(before.net_tax_due),
        ensures
            r.wf(),
            r.tax_year() == year,
            r.taxes() == seq![before.net_tax_due],
            r.standalones() == Seq::<Decimal>::empty(),
            r.year_before() == before,
            r.year_after() == before,
    {
        let mut taxes = Vec::new();
        taxes.push(before.net_tax_due);
        GermanTaxSimulation { year, taxes, standalone: Vec::new(), before, after: None }
    }

    /// Record the year as it stands after one more simulated sale. `emulated` tells, for each
    /// trade of the recomputed year that produces a capital-gain entry (in trade order), whether it
    /// is a simulated sale; the last entry must belong to the sale just simulated.
    pub fn observe(&mut self, year: GermanTaxStatement, emulated: &Vec<bool>) -> (r: Result<(), SimulationError>)
        requires
            old(self).wf(),
            tax_ok(year.net_tax_due),
            church_rate_ok(year.tax_rates.church_tax_rate),
            year.capital_gains@.len() > 0 ==> base_ok(year.capital_gains@.last().taxable_amount),
            emulated@.len() < i64::MAX,
            emulated@.len() < usize::MAX,
            year.capital_gains@.len() < i64::MAX,
        ensures
            final(self).wf(),
            final(self).tax_year() == old(self).tax_year(),
            final(self).year_before() == old(self).year_before(),
            ({
                let n = emulated@.len();
                let simulated = old(self).standalones().len() + 1;
                match r {
                    Err(SimulationError::EntryCountMismatch { year: y, entries, trades }) => {
                        &&& n != year.capital_gains@.len()
                        &&& y == old(self).tax_year() && entries == year.capital_gains@.len()
                            && trades == n
                    },
                    Err(SimulationError::TooFewTrades { year: y, trades, simulated: s }) => {
                        &&& n == year.capital_gains@.len() && n < simulated
                        &&& y == old(self).tax_year() && trades == n && s == simulated
                    },
                    Err(SimulationError::NotTrailing { year: y }) => {
                        &&& n == year.capital_gains@.len() && n >= simulated
                        &&& !trailing(emulated@, simulated as int)
                        &&& y == old(self).tax_year()
                    },
                    Ok(()) => {
                        &&& n == year.capital_gains@.len() && n >= simulated
                        &&& trailing(emulated@, simulated as int)
                    },
                }
            }),
            r is Ok ==> {
                &&& final(self).taxes() == old(self).taxes().push(year.net_tax_due)
                &&& final(self).standalones() == old(self).standalones().push(
                    spec_compute_taxes(
                        year.tax_rates.church_tax_rate,
                        year.capital_gains@.last().taxable_amount,
                        Decimal::spec_zero(),
                    ).total,
                )
                &&& final(self).year_after() == year
            },
            r is Err ==> *final(self) == *old(self),
    {
        let n = emulated.len();
        if n != year.capital_gains.len() {
            return Err(SimulationError::EntryCountMismatch {
                year: self.year,
                entries: year.capital_gains.len() as i64,
                trades: n as i64,
            });
        }
        let simulated = self.standalone.len() + 1;
        if n < simulated {
            return Err(SimulationError::TooFewTrades {
                year: self.year,
                trades: n as i64,
                simulated: simulated as i64,
            });
        }
        if !is_trailing(emulated, simulated) {
            return Err(SimulationError::NotTrailing { year: self.year });
        }
        let taxable = year.capital_gains[year.capital_gains.len() - 1].taxable_amount;
        proof {
            crate::decimal::Decimal::lemma_spec_zero();
        }
        let cost = year.tax_rates.compute_taxes(taxable, Decimal::zero()).total;
        self.standalone.push(cost);
        self.taxes.push(year.net_tax_due);
        self.after = Some(year);
        Ok(())
    }

    /// Tax the `index`-th simulated disposal adds to the year, given the ones before it.
    pub fn marginal(&self, index: usize) -> (r: Decimal)
        requires
            self.wf(),
            index < self.standalones().len(),
        ensures
            r == self.taxes()[index + 1].spec_sub(self.taxes()[index as int]).spec_round_dp(2),
    {
        proof {
            assert(tax_ok(self.taxes@[index + 1]));
            assert(tax_ok(self.taxes@[index as int]));
        }
        round_eur(self.taxes[index + 1].sub(&self.taxes[index]))
    }

    /// What the `index`-th disposal would cost taxed on its own, before the year's pots and
    /// allowance are brought to bear.
    pub fn standalone(&self, index: usize) -> (r: Decimal)
        requires
            self.wf(),
            index < self.standalones().len(),
        ensures
            r == self.standalones()[index as int].spec_round_dp(2),
    {
        round_eur(self.standalone[index])
    }

    /// The year as of the last observed sale, falling back to the untouched year if none was
    /// observed.
    pub fn after(&self) -> (r: &GermanTaxStatement)
        ensures
            *r == self.year_after(),
    {
        match &self.after {
            Some(st) => st,
            None => &self.before,
        }
    }

    /// Tax the simulated disposals add to the year as a whole, taken end-to-end.
    pub fn total(&self) -> (r: Decimal)
        requires
            self.wf(),
        ensures
            r == self.taxes().last().spec_sub(self.taxes()[0]).spec_round_dp(2),
    {
        proof {
            assert(tax_ok(self.taxes@[self.taxes@.len() - 1]));
            assert(tax_ok(self.taxes@[0]));
        }
        let last = self.taxes.len() - 1;
        round_eur(self.taxes[last].sub(&self.taxes[0]))
    }
}

/// Observing a sale adds exactly one row, and the rows observed before keep their figures: the
/// marginal tax of an earlier disposal is not revised by a later one.
pub proof fn earlier_rows_stay(before: GermanTaxSimulation, after: GermanTaxSimulation, index: int)
    requires
        after.taxes() == before.taxes().push(after.taxes().last()),
        0 <= index < before.taxes().len() - 1,
    ensures
        after.taxes()[index + 1].spec_sub(after.taxes()[index])
            == before.taxes()[index + 1].spec_sub(before.taxes()[index]),
        after.taxes().len() == before.taxes().len() + 1,
{
}

/// With no sale observed the year is untouched and the simulation adds nothing.
pub proof fn nothing_simulated_adds_nothing(s: GermanTaxSimulation)
    requires
        s.taxes().len() == 1,
    ensures
        s.taxes().last().spec_sub(s.taxes()[0]) == s.taxes()[0].spec_sub(s.taxes()[0]),
{
}

} // verus!
