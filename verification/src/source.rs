//! The tracked instruments and their fixed descriptors.

use vstd::prelude::*;

verus! {

/// One of the tracked instruments.
///
/// `CryptoA` is Bitcoin, `CryptoB` is Ethereum and `EquityIndex` is the
/// S&P 500. The identifier fixes the endpoint that is queried, the place of
/// the price in the response, and the log that observations go to.
#[derive(Clone, Copy, Debug, PartialEq, Eq, Structural)]
pub enum SourceId {
    CryptoA,
    CryptoB,
    EquityIndex,
}

impl SourceId {
    /// The URL of the endpoint, as a text.
    pub open spec fn endpoint_text(self) -> Seq<char> {
        match self {
            SourceId::CryptoA =>
                "https://api.coingecko.com/api/v3/simple/price?ids=bitcoin&vs_currencies=usd"@,
            SourceId::CryptoB =>
                "https://api.coingecko.com/api/v3/simple/price?ids=ethereum&vs_currencies=usd"@,
            SourceId::EquityIndex =>
                "https://query1.finance.yahoo.com/v8/finance/chart/%5EGSPC?interval=1m&range=1d"@,
        }
    }

    /// The label of the instrument, as a text.
    pub open spec fn label_text(self) -> Seq<char> {
        match self {
            SourceId::CryptoA => "Bitcoin"@,
            SourceId::CryptoB => "Ethereum"@,
            SourceId::EquityIndex => "S&P 500"@,
        }
    }

    /// The name of the log file, as a text.
    pub open spec fn log_name_text(self) -> Seq<char> {
        match self {
            SourceId::CryptoA => "bitcoin_prices.txt"@,
            SourceId::CryptoB => "ethereum_prices.txt"@,
            SourceId::EquityIndex => "sp500_prices.txt"@,
        }
    }

    /// The source that a poll cycle starts with.
    pub open spec fn first_polled() -> SourceId {
        SourceId::CryptoA
    }

    /// The source polled after this one in a cycle, if any.
    pub open spec fn followed_by(self) -> Option<SourceId> {
        match self {
            SourceId::CryptoA => Some(SourceId::CryptoB),
            SourceId::CryptoB => Some(SourceId::EquityIndex),
            SourceId::EquityIndex => None,
        }
    }

    /// The URL that a poll of this source sends its GET request to.
    pub fn endpoint(self) -> (url: &'static str)
        ensures
            url@ == self.endpoint_text(),
    {
        match self {
            SourceId::CryptoA =>
                "https://api.coingecko.com/api/v3/simple/price?ids=bitcoin&vs_currencies=usd",
            SourceId::CryptoB =>
                "https://api.coingecko.com/api/v3/simple/price?ids=ethereum&vs_currencies=usd",
            SourceId::EquityIndex =>
                "https://query1.finance.yahoo.com/v8/finance/chart/%5EGSPC?interval=1m&range=1d",
        }
    }

    /// The name under which the instrument appears in a log line.
    pub fn label(self) -> (label: &'static str)
        ensures
            label@ == self.label_text(),
    {
        match self {
            SourceId::CryptoA => "Bitcoin",
            SourceId::CryptoB => "Ethereum",
            SourceId::EquityIndex => "S&P 500",
        }
    }

    /// The name of the file that holds the source's log.
    pub fn log_name(self) -> (name: &'static str)
        ensures
            name@ == self.log_name_text(),
    {
        match self {
            SourceId::CryptoA => "bitcoin_prices.txt",
            SourceId::CryptoB => "ethereum_prices.txt",
            SourceId::EquityIndex => "sp500_prices.txt",
        }
    }

    /// The source that a poll cycle starts with.
    pub fn first() -> (source: SourceId)
        ensures
            source == SourceId::first_polled(),
    {
        SourceId::CryptoA
    }

    /// The source polled after this one in a cycle; `None` after the last.
    pub fn next(self) -> (following: Option<SourceId>)
        ensures
            following == self.followed_by(),
    {
        match self {
            SourceId::CryptoA => Some(SourceId::CryptoB),
            SourceId::CryptoB => Some(SourceId::EquityIndex),
            SourceId::EquityIndex => None,
        }
    }
}

/// The first cryptocurrency source.
#[derive(Clone, Copy, Debug, PartialEq, Eq, Structural)]
pub struct Bitcoin {}

/// The second cryptocurrency source.
#[derive(Clone, Copy, Debug, PartialEq, Eq, Structural)]
pub struct Ethereum {}

/// The equity-index source.
#[derive(Clone, Copy, Debug, PartialEq, Eq, Structural)]
pub struct SP500 {}

} // verus!
