//! The decoded record types, one per message kind, and their mathematical
//! models.
//!
//! Timestamps are nanoseconds since the Unix epoch (the wire carries them as
//! 8-byte little-endian signed integers, already in UTC). Prices are carried
//! as the wire's fixed-point representation: a signed integer counting
//! ten-thousandths of a currency unit (so `990500` stands for `99.05`), read
//! from 8 little-endian bytes.

use vstd::prelude::*;

use crate::symbol::Symbol;

verus! {

/// The closed set of system event kinds; any other subtype byte is a decode
/// failure.
#[derive(Clone, Copy, Debug, PartialEq, Eq)]
pub enum SystemEventType {
    StartOfMessages,
    StartOfSystemHours,
    StartOfRegularHours,
    EndOfRegularHours,
    EndOfSystemHours,
    EndOfMessages,
}

/// A decoded system event message.
#[derive(Clone, Debug)]
pub struct SystemEvent {
    pub event_type: SystemEventType,
    /// Nanoseconds since the Unix epoch, UTC.
    pub timestamp: i64,
}

/// Whether a quote was observed during regular market hours, derived from a
/// single packed bit of the flag byte.
#[derive(Clone, Copy, Debug, PartialEq, Eq)]
pub enum MarketSession {
    Regular,
    OutOfHours,
}

/// A decoded top-of-book quote update.
///
/// `available` is the logical negation of the wire's "not available" flag
/// bit. Note the wire order of the price/size fields is not symmetric
/// between the bid and ask sides: bid size comes before bid price, while ask
/// price comes before ask size.
#[derive(Clone, Debug)]
pub struct QuoteUpdate<S: Symbol> {
    pub available: bool,
    pub market_session: MarketSession,
    /// Nanoseconds since the Unix epoch, UTC.
    pub timestamp: i64,
    pub symbol: S,
    pub bid_size: u32,
    /// Bid price in ten-thousandths of a currency unit.
    pub bid_price: i64,
    pub ask_size: u32,
    /// Ask price in ten-thousandths of a currency unit.
    pub ask_price: i64,
}

/// The five sale condition flags of a trade report, decoded from the packed
/// flag byte, most significant bit first.
#[derive(Clone, Copy, Debug, PartialEq, Eq)]
pub struct SaleCondition {
    pub intermarket_sweep: bool,
    pub extended_hours: bool,
    pub odd_lot: bool,
    pub trade_through_exempt: bool,
    pub single_price: bool,
}

/// A decoded trade report.
#[derive(Clone, Debug)]
pub struct TradeReport<S: Symbol> {
    pub sale_condition: SaleCondition,
    /// Nanoseconds since the Unix epoch, UTC.
    pub timestamp: i64,
    pub symbol: S,
    pub size: u32,
    /// Trade price in ten-thousandths of a currency unit.
    pub price: i64,
    /// Opaque trade identifier; the decoder enforces no ordering of it.
    pub id: i64,
}

/// A decoded message: exactly one variant per decode call. The payload-free
/// variants are the known-but-opaque administrative message kinds, whose
/// bodies are consumed but not interpreted.
#[derive(Clone, Debug)]
pub enum Tops1_6Message<S: Symbol> {
    SystemEvent(SystemEvent),
    SecurityDirectory,
    TradingStatus,
    RetailLiquidityIndicator,
    OperationalHaltStatus,
    ShortSalePriceTestStatus,
    QuoteUpdate(QuoteUpdate<S>),
    TradeReport(TradeReport<S>),
    OfficialPrice,
    TradeBreak,
    AuctionInformation,
}

/// Structured decode failure.
#[derive(Clone, Copy, Debug, PartialEq, Eq)]
pub enum DecodeError {
    /// The buffer does not yet hold a full message; buffer more bytes and
    /// retry.
    Incomplete,
    /// The tag was recognized but the body violates a field-level invariant
    /// (nonzero reserved bits, or an unrecognized system event subtype).
    Malformed,
    /// The leading byte matches no known message tag.
    UnrecognizedTag,
}

/// Mathematical model of a decoded system event.
pub struct SystemEventModel {
    pub event_type: SystemEventType,
    pub timestamp: int,
}

/// Mathematical model of a decoded quote update; the symbol is the byte
/// sequence it stands for.
pub struct QuoteUpdateModel {
    pub available: bool,
    pub market_session: MarketSession,
    pub timestamp: int,
    pub symbol: Seq<u8>,
    pub bid_size: int,
    pub bid_price: int,
    pub ask_size: int,
    pub ask_price: int,
}

/// Mathematical model of a decoded trade report.
pub struct TradeReportModel {
    pub sale_condition: SaleCondition,
    pub timestamp: int,
    pub symbol: Seq<u8>,
    pub size: int,
    pub price: int,
    pub id: int,
}

/// Mathematical model of a decoded message.
pub enum MessageModel {
    SystemEvent(SystemEventModel),
    SecurityDirectory,
    TradingStatus,
    RetailLiquidityIndicator,
    OperationalHaltStatus,
    ShortSalePriceTestStatus,
    QuoteUpdate(QuoteUpdateModel),
    TradeReport(TradeReportModel),
    OfficialPrice,
    TradeBreak,
    AuctionInformation,
}

impl View for SystemEvent {
    type V = SystemEventModel;

    open spec fn view(&self) -> SystemEventModel {
        SystemEventModel { event_type: self.event_type, timestamp: self.timestamp as int }
    }
}

impl<S: Symbol> View for QuoteUpdate<S> {
    type V = QuoteUpdateModel;

    open spec fn view(&self) -> QuoteUpdateModel {
        QuoteUpdateModel {
            available: self.available,
            market_session: self.market_session,
            timestamp: self.timestamp as int,
            symbol: self.symbol.sym(),
            bid_size: self.bid_size as int,
            bid_price: self.bid_price as int,
            ask_size: self.ask_size as int,
            ask_price: self.ask_price as int,
        }
    }
}

impl<S: Symbol> View for TradeReport<S> {
    type V = TradeReportModel;

    open spec fn view(&self) -> TradeReportModel {
        TradeReportModel {
            sale_condition: self.sale_condition,
            timestamp: self.timestamp as int,
            symbol: self.symbol.sym(),
            size: self.size as int,
            price: self.price as int,
            id: self.id as int,
        }
    }
}

impl<S: Symbol> View for Tops1_6Message<S> {
    type V = MessageModel;

    open spec fn view(&self) -> MessageModel {
        match self {
            Tops1_6Message::SystemEvent(ev) => MessageModel::SystemEvent(ev@),
            Tops1_6Message::SecurityDirectory => MessageModel::SecurityDirectory,
            Tops1_6Message::TradingStatus => MessageModel::TradingStatus,
            Tops1_6Message::RetailLiquidityIndicator => MessageModel::RetailLiquidityIndicator,
            Tops1_6Message::OperationalHaltStatus => MessageModel::OperationalHaltStatus,
            Tops1_6Message::ShortSalePriceTestStatus => MessageModel::ShortSalePriceTestStatus,
            Tops1_6Message::QuoteUpdate(q) => MessageModel::QuoteUpdate(q@),
            Tops1_6Message::TradeReport(t) => MessageModel::TradeReport(t@),
            Tops1_6Message::OfficialPrice => MessageModel::OfficialPrice,
            Tops1_6Message::TradeBreak => MessageModel::TradeBreak,
            Tops1_6Message::AuctionInformation => MessageModel::AuctionInformation,
        }
    }
}

} // verus!
