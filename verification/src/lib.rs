//! Typed data model and wire codec for a cryptocurrency exchange's public and
//! private API payloads.
//!
//! Payloads arrive as loosely typed trees ([`Value`]): numbers sent as text,
//! timestamps in several shapes, tagged records whose variant fields lie in
//! the same object as the tag. Every entity of the model decodes from such a
//! tree and encodes back to one. Amounts are exact decimals ([`Decimal`]),
//! instants are UTC timestamps with nanosecond resolution ([`Instant`]).
//!
//! Each codec is verified against a contract over the mathematical view of
//! the data: `decode` yields exactly what the entity's `decode_spec` says,
//! `encode` yields exactly `encode_spec`, and what `encode` writes decodes
//! back to the entity. Timestamps and identifiers are read and written by
//! `chrono` and `uuid`; the contracts name what those crates return.
pub mod account;
pub mod codec;
pub mod decimal;
pub mod error;
pub mod ident;
pub mod instant;
pub mod market;
pub mod message;
pub mod order;
pub mod text;
pub mod transfer;
pub mod value;

pub use account::{
    Account, AccountHistory, AccountHistoryDetails, AccountHistoryDetailsTransferType,
    AccountHistoryType, AccountHolds, AccountHoldsType,
};
pub use codec::Token;
pub use decimal::Decimal;
pub use error::DecodeError;
pub use ident::Uuid;
pub use instant::Instant;
pub use market::{
    Book, BookLevel, BookRecordL1, BookRecordL2, BookRecordL3, Candle, Currency, Granularity,
    Product, Stats24H, Ticker, Time, Trade,
};
pub use message::Error;
pub use order::{
    Fill, FillLiquidity, Order, OrderSide, OrderStatus, OrderStop, OrderStopType,
    OrderTimeInForce, OrderType,
};
pub use transfer::{Fees, TrailingVolume, Transfer, TransferDetails, TransferType};
pub use value::Value;
