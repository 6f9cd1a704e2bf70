//! Decision logic of a price poller: which endpoints to query, how to read a
//! price out of a response, which line to append to which log, and in what
//! order the polling loop proceeds.
//!
//! Nothing in this crate touches the network, the file system or the clock.
//! A caller performs those effects and hands their outcomes to the functions
//! here as plain values:
//!
//! - [`SourceId::fetch_price`] takes how an HTTP exchange ended and gives the
//!   price that was fetched, or the error.
//! - [`SourceId::save_to_file`] takes a price and an instant and gives the
//!   write to perform.
//! - [`advance`] takes how the last action ended and gives the next one.
//!
//! A price is carried as the bit pattern of a double ([`Price`]) and logged
//! as a text with two fractional digits ([`Amount`]). Turning the one into
//! the other is floating-point arithmetic and is left to the caller.
//!
//! # What is not proved
//!
//! JSON is parsed and read by `serde_json`, and instants are shown as dates
//! by `chrono`. What this crate believes of those calls is written down on
//! the functions that make them, in [`json`] and next to
//! [`sink::utc_text`]. Everything else is proved from that.

pub mod amount;
pub mod driver;
pub mod json;
pub mod pricing;
pub mod quote;
pub mod sink;
pub mod source;

pub use amount::Amount;
pub use driver::{advance, start, Event, Pending, Turn, POLL_INTERVAL_SECS};
pub use pricing::Pricing;
pub use quote::{FetchError, Price};
pub use sink::{LogWrite, WriteError};
pub use source::{Bitcoin, Ethereum, SourceId, SP500};
