use investments::currency::Cash;
use investments::date::Date;
use investments::decimal::Decimal;
use investments::quotes::ecb::{
    currency_rates, get_quote, historical_currency_rates, parse_observations, EcbError,
};

fn d(text: &str) -> Decimal {
    Decimal::parse(text).unwrap()
}

fn day(text: &str) -> Date {
    Date::parse_ymd(text).unwrap()
}

const CURRENT: &str = "KEY,FREQ,CURRENCY,CURRENCY_DENOM,EXR_TYPE,EXR_SUFFIX,TIME_PERIOD,OBS_VALUE
EXR.D.USD.EUR.SP00.A,D,USD,EUR,SP00,A,2024-06-27,1.0700
EXR.D.GBP.EUR.SP00.A,D,GBP,EUR,SP00,A,2024-06-27,0.84550
EXR.D.CHF.EUR.SP00.A,D,CHF,EUR,SP00,A,2024-06-27,0.9577
";

fn quote(base: &str, quote_currency: &str, rates: &Vec<(String, Decimal)>) -> Option<Cash> {
    get_quote(base, quote_currency, rates).map(|cash| Cash::new(&cash.currency, cash.amount.round_dp(4)))
}

fn assert_quote(rates: &Vec<(String, Decimal)>, base: &str, quote_currency: &str, currency: &str, amount: &str) {
    let cash = quote(base, quote_currency, rates).unwrap();
    assert_eq!(cash.currency, currency);
    assert_eq!(cash.amount, d(amount), "{base}/{quote_currency}");
}

#[test]
fn current_rates() {
    let observations = parse_observations(CURRENT).unwrap();
    let rates = currency_rates(&observations);

    // Use 4 decimal places to avoid rounding differences in cross-rate calculations
    assert_quote(&rates, "EUR", "EUR", "EUR", "1");

    assert_quote(&rates, "EUR", "USD", "USD", "1.07");
    assert_quote(&rates, "USD", "EUR", "EUR", "0.9346");

    assert_quote(&rates, "EUR", "GBP", "GBP", "0.8455");
    assert_quote(&rates, "GBP", "EUR", "EUR", "1.1827");

    // Cross rates: USD/GBP = GBP_rate / USD_rate = 0.8455 / 1.07
    assert_quote(&rates, "USD", "GBP", "GBP", "0.7902");
    assert_quote(&rates, "GBP", "USD", "USD", "1.2655");

    assert!(quote("XXX", "YYY", &rates).is_none());
}

#[test]
fn historical_rates() {
    let text = "KEY,FREQ,CURRENCY,CURRENCY_DENOM,EXR_TYPE,EXR_SUFFIX,TIME_PERIOD,OBS_VALUE
EXR.D.USD.EUR.SP00.A,D,USD,EUR,SP00,A,2024-01-02,1.0956
EXR.D.USD.EUR.SP00.A,D,USD,EUR,SP00,A,2024-01-03,1.0912
EXR.D.USD.EUR.SP00.A,D,USD,EUR,SP00,A,2024-01-04,1.0932
EXR.D.USD.EUR.SP00.A,D,USD,EUR,SP00,A,2024-01-05,1.0942
";
    let rates = historical_currency_rates(&parse_observations(text).unwrap());

    // The published series is USD-per-EUR; the cache stores EUR-per-USD, so the returned
    // prices are the inverse of the raw observations (1.0956 -> 1/1.0956).
    assert_eq!(rates.len(), 4);
    assert!(rates[0].date == day("2024-01-02"));
    assert_eq!(rates[0].price, d("1").div(&d("1.0956")));
    assert!(rates[3].date == day("2024-01-05"));
    assert_eq!(rates[3].price, d("1").div(&d("1.0942")));
}

#[test]
fn historical_rates_real_response() {
    let text = "KEY,FREQ,CURRENCY,CURRENCY_DENOM,EXR_TYPE,EXR_SUFFIX,TIME_PERIOD,OBS_VALUE
EXR.D.USD.EUR.SP00.A,D,USD,EUR,SP00,A,2025-11-17,1.1593
EXR.D.USD.EUR.SP00.A,D,USD,EUR,SP00,A,2025-11-18,1.159
EXR.D.USD.EUR.SP00.A,D,USD,EUR,SP00,A,2025-11-19,1.1583
";
    let rates = historical_currency_rates(&parse_observations(text).unwrap());

    assert_eq!(rates.len(), 3);
    assert!(rates[2].date == day("2025-11-19"));
    assert_eq!(rates[2].price, d("1").div(&d("1.1583")));
}

#[test]
fn historical_rates_are_ordered_by_day() {
    let text = "CURRENCY,TIME_PERIOD,OBS_VALUE
USD,2024-01-05,1.25
USD,2024-01-02,2
USD,2024-01-03,4
";
    let rates = historical_currency_rates(&parse_observations(text).unwrap());
    assert_eq!(rates.len(), 3);
    assert!(rates[0].date == day("2024-01-02"));
    assert_eq!(rates[0].price, d("0.5"));
    assert!(rates[1].date == day("2024-01-03"));
    assert_eq!(rates[1].price, d("0.25"));
    assert!(rates[2].date == day("2024-01-05"));
    assert_eq!(rates[2].price, d("0.8"));
}

#[test]
fn the_last_observation_of_a_currency_wins() {
    let text = "CURRENCY,TIME_PERIOD,OBS_VALUE
USD,2024-06-26,1.05
GBP,2024-06-27,0.8
USD,2024-06-27,1.07
";
    let rates = currency_rates(&parse_observations(text).unwrap());
    assert_eq!(rates.len(), 2);
    assert_quote(&rates, "EUR", "USD", "USD", "1.07");
}

#[test]
fn a_header_without_the_value_column_is_refused() {
    let text = "CURRENCY,TIME_PERIOD,VALUE\nUSD,2024-06-27,1.07\n";
    match parse_observations(text) {
        Err(EcbError::UnexpectedHeader(header)) => {
            assert_eq!(header, vec!["CURRENCY", "TIME_PERIOD", "VALUE"]);
        },
        other => panic!("unexpected result: {other:?}"),
    }
}

#[test]
fn a_record_without_a_positive_value_is_refused() {
    for bad in ["USD,2024-06-27,0", "USD,2024-06-27,-1.07", "USD,2024-06-27,abc", "USD,27.06.2024,1.07"] {
        let text = format!("CURRENCY,TIME_PERIOD,OBS_VALUE\nGBP,2024-06-27,0.85\n{bad}\n");
        match parse_observations(&text) {
            Err(EcbError::UnexpectedRecord(record)) => {
                let expected: Vec<String> = bad.split(',').map(str::to_owned).collect();
                assert_eq!(record, expected);
            },
            other => panic!("unexpected result for {bad}: {other:?}"),
        }
    }
}

#[test]
fn a_record_of_another_length_is_a_csv_error() {
    let text = "CURRENCY,TIME_PERIOD,OBS_VALUE\nUSD,2024-06-27\n";
    assert!(matches!(parse_observations(text), Err(EcbError::Csv(_))));
}

#[test]
fn errors_name_the_offending_record() {
    let text = "CURRENCY,TIME_PERIOD,OBS_VALUE\nUSD,2024-06-27,x\n";
    let error = parse_observations(text).unwrap_err();
    assert_eq!(
        error.message(),
        "Got an unexpected ECB CSV record: [\"USD\", \"2024-06-27\", \"x\"]"
    );
    let error = parse_observations("A,B\n1,2\n").unwrap_err();
    assert_eq!(error.message(), "Got an unexpected ECB CSV header: [\"A\", \"B\"]");
}

#[test]
fn a_csv_error_carries_the_readers_message() {
    let text = "CURRENCY,TIME_PERIOD,OBS_VALUE\nUSD,2024-06-27\n";
    match parse_observations(text) {
        Err(EcbError::Csv(m)) => {
            assert!(m.contains("fields"), "{m}");
            assert_ne!(m, text);
        },
        other => panic!("expected a CSV error, got {other:?}"),
    }
}
