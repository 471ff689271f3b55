# investments

A verified library for German capital-income tax statements of an Interactive Brokers account:
it reads Flex Query statements, replays the foreign-currency cash ledger through a FIFO, turns
sales, interest, fees and FX results into statement entries, computes the year's totals and taxes,
and writes the statement as CSV or as an HTML report. Every function in `src/` is verified with
Verus against its `requires`/`ensures` contract.

## Layout

- `src/decimal.rs`, `src/date.rs`, `src/text.rs`, `src/currency.rs`: exact decimals (arithmetic by
  `rust_decimal`), calendar dates (by `chrono`), and text helpers.
- `src/broker_statement/ib/`: the Flex Query statement: dates, trades and their cancellations,
  interest, dividend and withholding accruals, fees, deposits, cash balances, the
  foreign-currency ledger and open positions.
- `src/broker_statement/other/`: hand-written operations and the checks each one must pass.
- `src/tax_statement/fx_fifo.rs`, `src/tax_statement/germany/fx_fifo.rs`: the foreign-currency
  FIFO and its German reading (§20 or §23 EStG).
- `src/tax_statement/germany/`: the statement and its totals (`statement.rs`), the year
  computation (`trades.rs`, `income.rs`, `processor.rs`), and the CSV and HTML output.
- `src/taxes/`: the German tax formula and the rules that move a withholding to another day.
- `src/quotes/ecb.rs`: ECB reference rates read from the ECB's CSV.
- `tests/`: tests run against the compiled library.
- `app/`: the command-line program around the library.

## Bounds

Amounts are `rust_decimal` values: a 96-bit mantissa and at most 28 fractional digits. Where a
contract bounds an amount by 10^18 (`base_ok`, `eur_ok`), it is because a number with at most ten
fractional digits and a magnitude of at most 10^18 has a mantissa below 10^28 < 2^96, so that
`rust_decimal` adds, subtracts and rescales it to cents exactly.
