use price_poller::{
    advance, start, Amount, Event, FetchError, LogWrite, Pending, Price, SourceId, Turn,
};

/// Shows a price as the log shows it.
fn two_decimals(price: Price) -> Amount {
    Amount::parse(&format!("{:.2}", f64::from_bits(price.bits))).unwrap()
}

#[test]
fn a_bitcoin_quote_ends_up_as_a_line_of_the_bitcoin_log() {
    let body = br#"{"bitcoin":{"usd":65000.5}}"#.to_vec();
    let turn = advance(start(), Event::Fetched(SourceId::CryptoA.fetch_price(Ok(body))));
    assert_eq!(turn.report, None);
    let Pending::Save(source, price) = turn.next else {
        panic!("a fetched price is saved next");
    };
    assert_eq!(source, SourceId::CryptoA);
    assert_eq!(
        source.append(&two_decimals(price), "<now>"),
        LogWrite {
            path: "bitcoin_prices.txt".to_string(),
            text: "Bitcoin Price: 65000.50, Timestamp: <now>\n".to_string(),
        }
    );
}

#[test]
fn the_last_close_ends_up_as_a_line_of_the_index_log() {
    let body = br#"{"chart":{"result":[{"indicators":{"quote":[
        {"close":[5000.1, 5000.2, null, 5012.9]}]}}]}}"#
        .to_vec();
    let pending = Pending::Fetch(SourceId::EquityIndex);
    let turn = advance(pending, Event::Fetched(SourceId::EquityIndex.fetch_price(Ok(body))));
    let Pending::Save(source, price) = turn.next else {
        panic!("a fetched price is saved next");
    };
    assert_eq!(price, Price { bits: 5012.9f64.to_bits() });
    assert_eq!(two_decimals(price).as_str(), "5012.90");
    assert_eq!(
        source.save_to_file(&two_decimals(price), 1714564800, 0).unwrap(),
        LogWrite {
            path: "sp500_prices.txt".to_string(),
            text: "S&P 500 Price: 5012.90, Timestamp: 2024-05-01 12:00:00 UTC\n".to_string(),
        }
    );
}

#[test]
fn a_failed_exchange_adds_no_line_and_the_loop_goes_on() {
    for (source, next) in [
        (SourceId::CryptoA, Pending::Fetch(SourceId::CryptoB)),
        (SourceId::CryptoB, Pending::Fetch(SourceId::EquityIndex)),
        (SourceId::EquityIndex, Pending::Sleep(10)),
    ] {
        let outcome = source.fetch_price(Err("status code 503".to_string()));
        assert_eq!(outcome, Err(FetchError::Network("status code 503".to_string())));
        assert_eq!(
            advance(Pending::Fetch(source), Event::Fetched(outcome)),
            Turn { report: Some("Error fetching price: status code 503".to_string()), next }
        );
    }
}
