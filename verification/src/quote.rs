//! Reading a price out of what an endpoint answered.

use crate::json::{
    as_array, as_number_bits, decoded, error_message, from_slice, index_by_key,
    index_by_position, json_of, Json,
};
use crate::source::SourceId;
use vstd::prelude::*;

verus! {

/// A price in the currency of its source, held as the bit pattern of an
/// IEEE 754 double.
#[derive(Clone, Copy, Debug, PartialEq, Eq, Structural)]
pub struct Price {
    pub bits: u64,
}

/// Why a poll of a source gave no price.
#[derive(Debug, PartialEq, Eq)]
pub enum FetchError {
    /// The HTTP exchange failed, or ended in a status that is no success.
    Network(String),
    /// The response is no JSON document, or holds no price where one is
    /// expected.
    Parse(String),
}

impl FetchError {
    /// The message of the error, as a text.
    pub open spec fn text(self) -> Seq<char> {
        match self {
            FetchError::Network(message) => message@,
            FetchError::Parse(message) => message@,
        }
    }

    /// The message of the error.
    pub fn message(&self) -> (message: &str)
        ensures
            message@ == self.text(),
    {
        match self {
            FetchError::Network(message) => message.as_str(),
            FetchError::Parse(message) => message.as_str(),
        }
    }
}

/// How an HTTP exchange ended, as plain data: the body of a successful
/// response, or the message of a failure.
pub open spec fn exchange(response: Result<Vec<u8>, String>) -> Result<Seq<u8>, Seq<char>> {
    match response {
        Ok(body) => Ok(body@),
        Err(reason) => Err(reason@),
    }
}

/// Where a cryptocurrency response holds the price of `asset` in US dollars.
pub open spec fn spot_price(document: Json, asset: Seq<char>) -> Json {
    document.member(asset).member("usd"@)
}

/// Where an equity-index response holds the series of closing prices.
pub open spec fn closing_prices(document: Json) -> Json {
    document.member("chart"@).member("result"@).element(0).member("indicators"@).member(
        "quote"@,
    ).element(0).member("close"@)
}

impl SourceId {
    /// The price that `document` quotes for this source. For a
    /// cryptocurrency it is the number at the place of its price. For the
    /// equity index it is the last item of the series of closing prices, if
    /// the series is an array that is not empty and that item is a number;
    /// no other item of the series is looked at.
    pub open spec fn quoted(self, document: Json) -> Option<u64> {
        match self {
            SourceId::CryptoA => spot_price(document, "bitcoin"@).number(),
            SourceId::CryptoB => spot_price(document, "ethereum"@).number(),
            SourceId::EquityIndex => match closing_prices(document) {
                Json::Array(series) if series.len() > 0 => series.last().number(),
                _ => None,
            },
        }
    }

    /// The message of the error for a document that quotes no price.
    pub open spec fn complaint(self, document: Json) -> Seq<char> {
        match self {
            SourceId::CryptoA => "Failed to parse Bitcoin price"@,
            SourceId::CryptoB => "Failed to parse Ethereum price"@,
            SourceId::EquityIndex => if closing_prices(document) is Array {
                "Failed to get the latest S&P 500 price"@
            } else {
                "Failed to parse closing prices"@
            },
        }
    }

    /// Whether `outcome` is what reading `document` for this source comes
    /// to: the price that the document quotes, or a parse error with the
    /// fitting message where it quotes none.
    pub open spec fn answers(self, document: Json, outcome: Result<Price, FetchError>) -> bool {
        match self.quoted(document) {
            Some(bits) => outcome == Ok::<Price, FetchError>(Price { bits }),
            None => outcome matches Err(FetchError::Parse(message)) && message@ == self.complaint(
                document,
            ),
        }
    }

    /// Whether `outcome` is what a poll of this source comes to, given how
    /// the HTTP exchange ended. A failed exchange is a network error with the
    /// message of the failure. A body that is no JSON document is a parse
    /// error. Every other body is read as the document that it holds.
    pub open spec fn polls(
        self,
        response: Result<Seq<u8>, Seq<char>>,
        outcome: Result<Price, FetchError>,
    ) -> bool {
        match response {
            Ok(body) => match decoded(body) {
                Some(document) => self.answers(document, outcome),
                None => outcome matches Err(FetchError::Parse(_)),
            },
            Err(reason) => outcome matches Err(FetchError::Network(message)) && message@ == reason,
        }
    }

    /// Reads the price of this source out of a response that was parsed.
    pub fn price_in(self, document: &serde_json::Value) -> (outcome: Result<Price, FetchError>)
        ensures
            self.answers(json_of(*document), outcome),
    {
        let found = match self {
            SourceId::CryptoA => read_spot_price(document, "bitcoin"),
            SourceId::CryptoB => read_spot_price(document, "ethereum"),
            SourceId::EquityIndex => match read_closing_prices(document) {
                Some(series) => match series.as_slice().last() {
                    Some(latest) => as_number_bits(latest),
                    None => None,
                },
                None => {
                    return Err(FetchError::Parse("Failed to parse closing prices".to_owned()));
                },
            },
        };
        match found {
            Some(bits) => Ok(Price { bits }),
            None => Err(FetchError::Parse(self.missing_price().to_owned())),
        }
    }

    /// The message for a document in which the place of the price holds no
    /// number.
    fn missing_price(self) -> (message: &'static str)
        ensures
            message@ == match self {
                SourceId::CryptoA => "Failed to parse Bitcoin price"@,
                SourceId::CryptoB => "Failed to parse Ethereum price"@,
                SourceId::EquityIndex => "Failed to get the latest S&P 500 price"@,
            },
    {
        match self {
            SourceId::CryptoA => "Failed to parse Bitcoin price",
            SourceId::CryptoB => "Failed to parse Ethereum price",
            SourceId::EquityIndex => "Failed to get the latest S&P 500 price",
        }
    }

    /// Reads the price of this source out of the body of a response.
    pub fn price_from_body(self, body: &[u8]) -> (outcome: Result<Price, FetchError>)
        ensures
            self.polls(Ok(body@), outcome),
    {
        match from_slice(body) {
            Ok(document) => self.price_in(&document),
            Err(error) => Err(FetchError::Parse(error_message(&error))),
        }
    }

    /// What a poll of this source comes to, given how the HTTP exchange
    /// ended: with the body of a successful response, or with the message of
    /// a failure.
    pub fn fetch_price(self, response: Result<Vec<u8>, String>) -> (outcome: Result<
        Price,
        FetchError,
    >)
        ensures
            self.polls(exchange(response), outcome),
    {
        match response {
            Ok(body) => self.price_from_body(body.as_slice()),
            Err(reason) => Err(FetchError::Network(reason)),
        }
    }
}

/// Looks up the place where a cryptocurrency response holds the price of
/// `asset`, and reads the number there.
fn read_spot_price(document: &serde_json::Value, asset: &str) -> (bits: Option<u64>)
    ensures
        bits == spot_price(json_of(*document), asset@).number(),
{
    as_number_bits(index_by_key(index_by_key(document, asset), "usd"))
}

/// Looks up the place where an equity-index response holds the series of
/// closing prices, and hands out the series if it is an array.
fn read_closing_prices(document: &serde_json::Value) -> (series: Option<&Vec<serde_json::Value>>)
    ensures
        match series {
            Some(items) => closing_prices(json_of(*document)) == Json::Array(
                items@.map_values(|item: serde_json::Value| json_of(item)),
            ),
            None => !(closing_prices(json_of(*document)) is Array),
        },
{
    let chart = index_by_key(document, "chart");
    let result = index_by_position(index_by_key(chart, "result"), 0);
    let indicators = index_by_key(result, "indicators");
    let quote = index_by_position(index_by_key(indicators, "quote"), 0);
    as_array(index_by_key(quote, "close"))
}

} // verus!
