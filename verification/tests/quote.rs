use price_poller::{Bitcoin, Ethereum, FetchError, Price, Pricing, SourceId, SP500};

fn document(text: &str) -> serde_json::Value {
    serde_json::from_str(text).unwrap()
}

fn price(value: f64) -> Price {
    Price { bits: value.to_bits() }
}

fn parse_error(message: &str) -> Result<Price, FetchError> {
    Err(FetchError::Parse(message.to_string()))
}

fn chart(close: &str) -> String {
    let quote = format!("{{\"open\":[1.0],\"close\":{}}}", close);
    let result = format!("{{\"meta\":{{\"symbol\":\"^GSPC\"}},\"indicators\":{{\"quote\":[{}]}}}}", quote);
    format!("{{\"chart\":{{\"result\":[{}],\"error\":null}}}}", result)
}

#[test]
fn crypto_price_is_the_number_at_its_place() {
    let bitcoin = document(r#"{"bitcoin":{"usd":65000.5}}"#);
    assert_eq!(SourceId::CryptoA.price_in(&bitcoin), Ok(price(65000.5)));
    let ethereum = document(r#"{"ethereum":{"usd":3120.07,"eur":2900.0},"bitcoin":{"usd":1.0}}"#);
    assert_eq!(SourceId::CryptoB.price_in(&ethereum), Ok(price(3120.07)));
    assert_eq!(SourceId::CryptoA.price_in(&ethereum), Ok(price(1.0)));
}

#[test]
fn a_whole_number_is_read_as_a_double() {
    let whole = document(r#"{"bitcoin":{"usd":65000}}"#);
    assert_eq!(SourceId::CryptoA.price_in(&whole), Ok(price(65000.0)));
    let negative = document(r#"{"bitcoin":{"usd":-3}}"#);
    assert_eq!(SourceId::CryptoA.price_in(&negative), Ok(price(-3.0)));
    let exponent = document(r#"{"ethereum":{"usd":1.5e3}}"#);
    assert_eq!(SourceId::CryptoB.price_in(&exponent), Ok(price(1500.0)));
}

#[test]
fn a_missing_crypto_price_is_a_parse_error() {
    let failure = parse_error("Failed to parse Bitcoin price");
    assert_eq!(SourceId::CryptoA.price_in(&document("{}")), failure);
    assert_eq!(SourceId::CryptoA.price_in(&document(r#"{"bitcoin":{}}"#)), failure);
    assert_eq!(SourceId::CryptoA.price_in(&document(r#"{"bitcoin":{"eur":1.0}}"#)), failure);
    assert_eq!(SourceId::CryptoA.price_in(&document(r#"{"ethereum":{"usd":1.0}}"#)), failure);
    assert_eq!(SourceId::CryptoA.price_in(&document(r#"{"bitcoin":[{"usd":1.0}]}"#)), failure);
    assert_eq!(SourceId::CryptoA.price_in(&document("[1.0]")), failure);
    assert_eq!(SourceId::CryptoA.price_in(&document("null")), failure);
    assert_eq!(
        SourceId::CryptoB.price_in(&document(r#"{"bitcoin":{"usd":1.0}}"#)),
        parse_error("Failed to parse Ethereum price")
    );
}

#[test]
fn a_crypto_price_that_is_no_number_is_a_parse_error() {
    let failure = parse_error("Failed to parse Bitcoin price");
    assert_eq!(SourceId::CryptoA.price_in(&document(r#"{"bitcoin":{"usd":"65000.5"}}"#)), failure);
    assert_eq!(SourceId::CryptoA.price_in(&document(r#"{"bitcoin":{"usd":null}}"#)), failure);
    assert_eq!(SourceId::CryptoA.price_in(&document(r#"{"bitcoin":{"usd":true}}"#)), failure);
    assert_eq!(SourceId::CryptoA.price_in(&document(r#"{"bitcoin":{"usd":[1.0]}}"#)), failure);
    assert_eq!(
        SourceId::CryptoA.price_in(&document(r#"{"bitcoin":{"usd":{"value":1.0}}}"#)),
        failure
    );
}

#[test]
fn equity_index_price_is_the_last_close() {
    let several = document(&chart("[5000.1, 5000.2, null, 5012.9]"));
    assert_eq!(SourceId::EquityIndex.price_in(&several), Ok(price(5012.9)));
    let single = document(&chart("[4999]"));
    assert_eq!(SourceId::EquityIndex.price_in(&single), Ok(price(4999.0)));
    let rising = document(&chart("[1.0, 2.0, 3.0]"));
    assert_eq!(SourceId::EquityIndex.price_in(&rising), Ok(price(3.0)));
}

#[test]
fn only_the_first_result_and_quote_are_read() {
    let text = r#"{"chart":{"result":[
        {"indicators":{"quote":[{"close":[10.5]},{"close":[20.5]}]}},
        {"indicators":{"quote":[{"close":[30.5]}]}}]}}"#;
    assert_eq!(SourceId::EquityIndex.price_in(&document(text)), Ok(price(10.5)));
}

#[test]
fn an_absent_series_of_closes_is_a_parse_error() {
    let failure = parse_error("Failed to parse closing prices");
    assert_eq!(SourceId::EquityIndex.price_in(&document("{}")), failure);
    assert_eq!(SourceId::EquityIndex.price_in(&document(r#"{"chart":{"result":[]}}"#)), failure);
    assert_eq!(SourceId::EquityIndex.price_in(&document(r#"{"chart":{"result":null}}"#)), failure);
    assert_eq!(SourceId::EquityIndex.price_in(&document(&chart("null"))), failure);
    assert_eq!(SourceId::EquityIndex.price_in(&document(&chart("5012.9"))), failure);
    assert_eq!(SourceId::EquityIndex.price_in(&document(&chart("{\"0\":5012.9}"))), failure);
    assert_eq!(
        SourceId::EquityIndex.price_in(&document(r#"{"bitcoin":{"usd":65000.5}}"#)),
        failure
    );
}

#[test]
fn an_empty_series_or_a_last_close_that_is_no_number_is_a_parse_error() {
    let failure = parse_error("Failed to get the latest S&P 500 price");
    assert_eq!(SourceId::EquityIndex.price_in(&document(&chart("[]"))), failure);
    assert_eq!(SourceId::EquityIndex.price_in(&document(&chart("[5000.1, null]"))), failure);
    assert_eq!(SourceId::EquityIndex.price_in(&document(&chart("[5000.1, \"5012.9\"]"))), failure);
    assert_eq!(SourceId::EquityIndex.price_in(&document(&chart("[[5012.9]]"))), failure);
}

#[test]
fn a_body_is_parsed_and_then_read() {
    assert_eq!(
        SourceId::CryptoA.price_from_body(br#"{"bitcoin":{"usd":65000.5}}"#),
        Ok(price(65000.5))
    );
    assert_eq!(
        SourceId::CryptoB.price_from_body(b"  {\"ethereum\" : {\"usd\" : 2.25}}\n"),
        Ok(price(2.25))
    );
    assert_eq!(
        SourceId::EquityIndex.price_from_body(chart("[5000.1, 5000.2, null, 5012.9]").as_bytes()),
        Ok(price(5012.9))
    );
    assert_eq!(
        SourceId::CryptoA.price_from_body(b"{}"),
        parse_error("Failed to parse Bitcoin price")
    );
}

#[test]
fn a_body_that_is_no_json_is_a_parse_error() {
    let bodies: [&[u8]; 6] = [
        b"",
        b"<html>busy</html>",
        b"{\"bitcoin\":{\"usd\":65000.5}",
        b"{\"bitcoin\":{\"usd\":65000.5}} trailing",
        b"{\"bitcoin\":{\"usd\":1e999}}",
        b"{\"bitcoin\":{\"usd\":\"\xff\"}}",
    ];
    for body in bodies {
        for source in [SourceId::CryptoA, SourceId::CryptoB, SourceId::EquityIndex] {
            assert!(matches!(source.price_from_body(body), Err(FetchError::Parse(_))));
        }
    }
}

#[test]
fn a_failed_exchange_is_a_network_error() {
    for source in [SourceId::CryptoA, SourceId::CryptoB, SourceId::EquityIndex] {
        assert_eq!(
            source.fetch_price(Err("status code 429".to_string())),
            Err(FetchError::Network("status code 429".to_string()))
        );
    }
}

#[test]
fn a_successful_exchange_is_read_for_its_price() {
    let body = br#"{"bitcoin":{"usd":65000.5},"ethereum":{"usd":3120.07}}"#.to_vec();
    assert_eq!(SourceId::CryptoA.fetch_price(Ok(body.clone())), Ok(price(65000.5)));
    assert_eq!(SourceId::CryptoB.fetch_price(Ok(body.clone())), Ok(price(3120.07)));
    assert_eq!(
        SourceId::EquityIndex.fetch_price(Ok(body)),
        parse_error("Failed to parse closing prices")
    );
}

#[test]
fn handles_fetch_for_their_own_source() {
    let body = br#"{"bitcoin":{"usd":65000.5},"ethereum":{"usd":3120.07}}"#.to_vec();
    assert_eq!(Bitcoin {}.fetch_price(Ok(body.clone())), Ok(price(65000.5)));
    assert_eq!(Ethereum {}.fetch_price(Ok(body)), Ok(price(3120.07)));
    let closes = chart("[5000.1, 5000.2, null, 5012.9]").into_bytes();
    assert_eq!(SP500 {}.fetch_price(Ok(closes)), Ok(price(5012.9)));
    assert_eq!(
        SP500 {}.fetch_price(Err("timed out".to_string())),
        Err(FetchError::Network("timed out".to_string()))
    );
}

#[test]
fn an_error_shows_its_message() {
    assert_eq!(FetchError::Network("timed out".to_string()).message(), "timed out");
    assert_eq!(FetchError::Parse("Failed to parse Bitcoin price".to_string()).message(),
        "Failed to parse Bitcoin price");
    let malformed = SourceId::CryptoA.price_from_body(b"{").unwrap_err();
    assert!(!malformed.message().is_empty());
}
