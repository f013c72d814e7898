use orderbook::exchanges::{Binance, Coinbase, Exchange, Lbank, Tick, MEXC};

fn tick(bid: &str, ask: &str) -> Tick {
    Tick { bid: bid.to_string(), ask: ask.to_string() }
}

const PAIR_BOOK: &str =
    r#"{"lastUpdateId":1027024,"bids":[["64000.01","0.5"]],"asks":[["64000.02","1.25"]]}"#;

#[test]
fn binance_reads_top_of_book() {
    assert_eq!(Binance.parse(PAIR_BOOK), Ok(tick("64000.01", "64000.02")));
}

#[test]
fn mexc_reads_top_of_book() {
    assert_eq!(MEXC.parse(PAIR_BOOK), Ok(tick("64000.01", "64000.02")));
}

#[test]
fn lbank_reads_top_of_book_under_data() {
    let body = r#"{"result":"true","data":{"asks":[["64100.10","0.3"]],"bids":[["64099.90","0.7"]],"timestamp":1},"error_code":0}"#;
    assert_eq!(Lbank.parse(body), Ok(tick("64099.90", "64100.10")));
}

#[test]
fn coinbase_reads_top_of_book() {
    let body = r#"{"bids":[["63990.50","0.1",3]],"asks":[["63991.00","0.2",1]],"sequence":5}"#;
    assert_eq!(Coinbase.parse(body), Ok(tick("63990.50", "63991.00")));
}

#[test]
fn prices_keep_their_text() {
    let body = r#"{"bids":[["0.000100","1"]],"asks":[["1.0e3","1"]]}"#;
    assert_eq!(Binance.parse(body), Ok(tick("0.000100", "1.0e3")));
}

#[test]
fn first_level_is_taken() {
    let body = r#"{"bids":[["10","1"],["9","1"]],"asks":[["11","1"],["12","1"]]}"#;
    assert_eq!(MEXC.parse(body), Ok(tick("10", "11")));
}

#[test]
fn empty_bids_fail_everywhere() {
    let pair = r#"{"bids":[],"asks":[["1","1"]]}"#;
    assert!(Binance.parse(pair).is_err());
    assert!(MEXC.parse(pair).is_err());
    assert!(Lbank.parse(r#"{"data":{"bids":[],"asks":[["1","1"]]}}"#).is_err());
    assert!(Coinbase.parse(r#"{"bids":[],"asks":[["1","1",1]]}"#).is_err());
}

#[test]
fn empty_asks_fail_everywhere() {
    let pair = r#"{"bids":[["1","1"]],"asks":[]}"#;
    assert!(Binance.parse(pair).is_err());
    assert!(MEXC.parse(pair).is_err());
    assert!(Lbank.parse(r#"{"data":{"bids":[["1","1"]],"asks":[]}}"#).is_err());
    assert!(Coinbase.parse(r#"{"bids":[["1","1",1]],"asks":[]}"#).is_err());
}

#[test]
fn invalid_json_fails_everywhere_and_alike() {
    for body in ["", "{", "not json", r#"{"bids":[["1","1"]],"asks":[["2","1"]]"#] {
        let first = (Binance.parse(body), MEXC.parse(body), Lbank.parse(body), Coinbase.parse(body));
        assert!(first.0.is_err() && first.1.is_err() && first.2.is_err() && first.3.is_err());
        let second = (Binance.parse(body), MEXC.parse(body), Lbank.parse(body), Coinbase.parse(body));
        assert_eq!(first, second);
    }
}

#[test]
fn coinbase_number_price_becomes_text() {
    let body = r#"{"bids":[[50000.5,"0.1",2]],"asks":[[50001,"0.2",1]]}"#;
    assert_eq!(Coinbase.parse(body), Ok(tick("50000.5", "50001")));
}

#[test]
fn coinbase_other_price_reads_empty() {
    let body = r#"{"bids":[[null,"0.1",2]],"asks":[[true,"0.2",1]]}"#;
    assert_eq!(Coinbase.parse(body), Ok(tick("", "")));
}

#[test]
fn coinbase_level_needs_three_elements() {
    let body = r#"{"bids":[["1","0.1"]],"asks":[["2","0.2",1]]}"#;
    assert!(Coinbase.parse(body).is_err());
}

#[test]
fn strict_adapters_refuse_number_prices() {
    let body = r#"{"bids":[[50000.5,"0.1"]],"asks":[["50001","0.2"]]}"#;
    assert!(Binance.parse(body).is_err());
    assert!(MEXC.parse(body).is_err());
}

#[test]
fn strict_adapters_check_every_level() {
    let body = r#"{"bids":[["1","1"],["0.5"]],"asks":[["2","1"]]}"#;
    assert!(Binance.parse(body).is_err());
    let body = r#"{"bids":[["1","1"]],"asks":[["2","1","3"]]}"#;
    assert!(MEXC.parse(body).is_err());
}

#[test]
fn missing_fields_fail() {
    assert!(Binance.parse(r#"{"bids":[["1","1"]]}"#).is_err());
    assert!(MEXC.parse(r#"{"asks":[["1","1"]]}"#).is_err());
    assert!(Lbank.parse(r#"{"bids":[["1","1"]],"asks":[["2","1"]]}"#).is_err());
    assert!(Coinbase.parse(r#"[["1","1",1]]"#).is_err());
}

#[test]
fn decode_reads_a_parsed_document() {
    let doc: serde_json::Value =
        serde_json::from_str(r#"{"data":{"bids":[["5","1"]],"asks":[["6","1"]]}}"#).unwrap();
    assert_eq!(Lbank.decode(&doc), Ok(tick("5", "6")));
    assert!(Binance.decode(&doc).is_err());
}

#[test]
fn names_are_distinct_and_lowercase() {
    let names = [Binance.name(), MEXC.name(), Lbank.name(), Coinbase.name()];
    assert_eq!(names, ["binance", "mexc", "lbank", "coinbase"]);
    for n in names {
        assert!(!n.is_empty());
        assert_eq!(n, n.to_lowercase());
    }
}

#[test]
fn urls_ask_for_one_level() {
    assert_eq!(Binance.url(), "https://api.binance.us/api/v3/depth?symbol=BTCUSDT&limit=1");
    assert_eq!(MEXC.url(), "https://api.mexc.com/api/v3/depth?symbol=BTCUSDT&limit=1");
    assert_eq!(Lbank.url(), "https://api.lbank.info/v2/depth.do?symbol=btc_usdt&size=1");
    assert_eq!(Coinbase.url(), "https://api.exchange.coinbase.com/products/BTC-USD/book?level=1");
}

#[test]
fn default_tick_is_empty() {
    assert_eq!(Tick::default(), tick("", ""));
}
