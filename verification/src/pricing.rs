//! The capability that every source offers: to turn the outcome of a poll
//! into a price, and a price into a write to the source's log.

use crate::amount::Amount;
use crate::quote::{exchange, FetchError, Price};
use crate::sink::LogWrite;
use crate::source::{Bitcoin, Ethereum, SourceId, SP500};
use vstd::prelude::*;

verus! {

/// A source of prices. The three sources differ in their descriptors alone:
/// each does for its own [`SourceId`] what [`SourceId::fetch_price`] and
/// [`SourceId::save_to_file`] do.
pub trait Pricing {
    /// The source that `self` stands for.
    spec fn source(&self) -> SourceId;

    /// The source that `self` stands for.
    fn id(&self) -> (id: SourceId)
        ensures
            id == self.source(),
    ;

    /// What a poll of the source comes to, given how the HTTP exchange ended:
    /// with the body of a successful response, or with the message of a
    /// failure.
    fn fetch_price(&self, response: Result<Vec<u8>, String>) -> (outcome: Result<Price, FetchError>)
        ensures
            self.source().polls(exchange(response), outcome),
    ;

    /// The write that records a price observed `seconds` seconds and `nanos`
    /// nanoseconds after the start of 1970 in UTC. There is none where that
    /// instant cannot be shown as a date.
    fn save_to_file(&self, amount: &Amount, seconds: i64, nanos: u32) -> (write: Option<LogWrite>)
        ensures
            self.source().saves(write, amount@, seconds, nanos),
    ;
}

impl Pricing for Bitcoin {
    open spec fn source(&self) -> SourceId {
        SourceId::CryptoA
    }

    fn id(&self) -> (id: SourceId) {
        SourceId::CryptoA
    }

    fn fetch_price(&self, response: Result<Vec<u8>, String>) -> (outcome: Result<
        Price,
        FetchError,
    >) {
        SourceId::CryptoA.fetch_price(response)
    }

    fn save_to_file(&self, amount: &Amount, seconds: i64, nanos: u32) -> (write: Option<LogWrite>) {
        SourceId::CryptoA.save_to_file(amount, seconds, nanos)
    }
}

impl Pricing for Ethereum {
    open spec fn source(&self) -> SourceId {
        SourceId::CryptoB
    }

    fn id(&self) -> (id: SourceId) {
        SourceId::CryptoB
    }

    fn fetch_price(&self, response: Result<Vec<u8>, String>) -> (outcome: Result<
        Price,
        FetchError,
    >) {
        SourceId::CryptoB.fetch_price(response)
    }

    fn save_to_file(&self, amount: &Amount, seconds: i64, nanos: u32) -> (write: Option<LogWrite>) {
        SourceId::CryptoB.save_to_file(amount, seconds, nanos)
    }
}

impl Pricing for SP500 {
    open spec fn source(&self) -> SourceId {
        SourceId::EquityIndex
    }

    fn id(&self) -> (id: SourceId) {
        SourceId::EquityIndex
    }

    fn fetch_price(&self, response: Result<Vec<u8>, String>) -> (outcome: Result<
        Price,
        FetchError,
    >) {
        SourceId::EquityIndex.fetch_price(response)
    }

    fn save_to_file(&self, amount: &Amount, seconds: i64, nanos: u32) -> (write: Option<LogWrite>) {
        SourceId::EquityIndex.save_to_file(amount, seconds, nanos)
    }
}

} // verus!
