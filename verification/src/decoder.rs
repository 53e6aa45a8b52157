//! The message shape decoders and the tag dispatcher.
//!
//! `decode_model` is the mathematical statement of the whole wire format: for
//! every input byte sequence it says which record is decoded, how many bytes
//! it consumes, or which structured failure is reported. Every executable
//! decoder is proved to agree with it.

use vstd::prelude::*;

use crate::fields::{le_i64_of, le_u32_of, read_le_i64, read_le_u32, trim_trailing_spaces};
use crate::records::{
    DecodeError, MarketSession, MessageModel, QuoteUpdate, QuoteUpdateModel, SaleCondition,
    SystemEvent, SystemEventModel, SystemEventType, TradeReport, TradeReportModel, Tops1_6Message,
};
use crate::symbol::{read_symbol_field, Symbol};

verus! {

pub const TAG_SYSTEM_EVENT: u8 = 0x53;

pub const TAG_SECURITY_DIRECTORY: u8 = 0x44;

pub const TAG_TRADING_STATUS: u8 = 0x48;

pub const TAG_RETAIL_LIQUIDITY_INDICATOR: u8 = 0x49;

pub const TAG_OPERATIONAL_HALT_STATUS: u8 = 0x4f;

pub const TAG_SHORT_SALE_PRICE_TEST_STATUS: u8 = 0x50;

pub const TAG_QUOTE_UPDATE: u8 = 0x51;

pub const TAG_TRADE_REPORT: u8 = 0x54;

pub const TAG_OFFICIAL_PRICE: u8 = 0x58;

pub const TAG_TRADE_BREAK: u8 = 0x42;

pub const TAG_AUCTION_INFORMATION: u8 = 0x41;

/// Total message lengths, tag byte included.
pub const SYSTEM_EVENT_LEN: usize = 10;

pub const SECURITY_DIRECTORY_LEN: usize = 31;

pub const TRADING_STATUS_LEN: usize = 22;

pub const RETAIL_LIQUIDITY_INDICATOR_LEN: usize = 18;

pub const OPERATIONAL_HALT_STATUS_LEN: usize = 18;

pub const SHORT_SALE_PRICE_TEST_STATUS_LEN: usize = 19;

pub const QUOTE_UPDATE_LEN: usize = 42;

pub const TRADE_REPORT_LEN: usize = 38;

pub const OFFICIAL_PRICE_LEN: usize = 26;

pub const TRADE_BREAK_LEN: usize = 38;

pub const AUCTION_INFORMATION_LEN: usize = 80;

/// The width of the fixed space-padded symbol field.
pub const SYMBOL_FIELD_WIDTH: usize = 8;

/// Whether `t` is the tag byte of some message kind of the closed set.
pub open spec fn is_known_tag(t: u8) -> bool {
    ||| t == TAG_SYSTEM_EVENT
    ||| t == TAG_SECURITY_DIRECTORY
    ||| t == TAG_TRADING_STATUS
    ||| t == TAG_RETAIL_LIQUIDITY_INDICATOR
    ||| t == TAG_OPERATIONAL_HALT_STATUS
    ||| t == TAG_SHORT_SALE_PRICE_TEST_STATUS
    ||| t == TAG_QUOTE_UPDATE
    ||| t == TAG_TRADE_REPORT
    ||| t == TAG_OFFICIAL_PRICE
    ||| t == TAG_TRADE_BREAK
    ||| t == TAG_AUCTION_INFORMATION
}

/// The fixed total length (tag included) that a message with tag byte `t`
/// occupies on the wire.
pub open spec fn required_len(t: u8) -> int
    recommends
        is_known_tag(t),
{
    if t == TAG_SYSTEM_EVENT {
        SYSTEM_EVENT_LEN as int
    } else if t == TAG_SECURITY_DIRECTORY {
        SECURITY_DIRECTORY_LEN as int
    } else if t == TAG_TRADING_STATUS {
        TRADING_STATUS_LEN as int
    } else if t == TAG_RETAIL_LIQUIDITY_INDICATOR {
        RETAIL_LIQUIDITY_INDICATOR_LEN as int
    } else if t == TAG_OPERATIONAL_HALT_STATUS {
        OPERATIONAL_HALT_STATUS_LEN as int
    } else if t == TAG_SHORT_SALE_PRICE_TEST_STATUS {
        SHORT_SALE_PRICE_TEST_STATUS_LEN as int
    } else if t == TAG_QUOTE_UPDATE {
        QUOTE_UPDATE_LEN as int
    } else if t == TAG_TRADE_REPORT {
        TRADE_REPORT_LEN as int
    } else if t == TAG_OFFICIAL_PRICE {
        OFFICIAL_PRICE_LEN as int
    } else if t == TAG_TRADE_BREAK {
        TRADE_BREAK_LEN as int
    } else if t == TAG_AUCTION_INFORMATION {
        AUCTION_INFORMATION_LEN as int
    } else {
        0
    }
}

/// The system event kind a subtype byte stands for, if any.
pub open spec fn system_event_type_of(b: u8) -> Option<SystemEventType> {
    if b == 0x4f {
        Some(SystemEventType::StartOfMessages)
    } else if b == 0x53 {
        Some(SystemEventType::StartOfSystemHours)
    } else if b == 0x52 {
        Some(SystemEventType::StartOfRegularHours)
    } else if b == 0x4d {
        Some(SystemEventType::EndOfRegularHours)
    } else if b == 0x45 {
        Some(SystemEventType::EndOfSystemHours)
    } else if b == 0x43 {
        Some(SystemEventType::EndOfMessages)
    } else {
        None
    }
}

/// A quote update flag byte is valid when its six reserved bits (the six
/// least significant) are all zero.
pub open spec fn quote_flags_valid(b: u8) -> bool {
    b & 0x3f == 0
}

/// Whether the quote is available: the logical negation of the wire's "not
/// available" flag, the most significant bit.
pub open spec fn quote_available(b: u8) -> bool {
    b & 0x80 == 0
}

/// The market session packed into the second most significant bit.
pub open spec fn session_of(b: u8) -> MarketSession {
    if b & 0x40 != 0 {
        MarketSession::OutOfHours
    } else {
        MarketSession::Regular
    }
}

/// A sale condition flag byte is valid when its three reserved bits (the
/// three least significant) are all zero.
pub open spec fn sale_condition_flags_valid(b: u8) -> bool {
    b & 0x07 == 0
}

/// The five sale condition flags packed into `b`, most significant bit
/// first.
pub open spec fn sale_condition_of(b: u8) -> SaleCondition {
    SaleCondition {
        intermarket_sweep: b & 0x80 != 0,
        extended_hours: b & 0x40 != 0,
        odd_lot: b & 0x20 != 0,
        trade_through_exempt: b & 0x10 != 0,
        single_price: b & 0x08 != 0,
    }
}

/// The fields of a system event message, read from the full message bytes.
pub open spec fn system_event_fields(input: Seq<u8>) -> SystemEventModel
    recommends
        input.len() >= SYSTEM_EVENT_LEN,
        system_event_type_of(input[1]) is Some,
{
    SystemEventModel {
        event_type: system_event_type_of(input[1])->Some_0,
        timestamp: le_i64_of(input.subrange(2, 10)),
    }
}

/// The fields of a quote update message, read from the full message bytes.
/// Field order on the wire: flags, timestamp, symbol, bid size, bid price,
/// ask price, ask size.
pub open spec fn quote_update_fields(input: Seq<u8>) -> QuoteUpdateModel
    recommends
        input.len() >= QUOTE_UPDATE_LEN,
{
    QuoteUpdateModel {
        available: quote_available(input[1]),
        market_session: session_of(input[1]),
        timestamp: le_i64_of(input.subrange(2, 10)),
        symbol: trim_trailing_spaces(input.subrange(10, 18)),
        bid_size: le_u32_of(input.subrange(18, 22)),
        bid_price: le_i64_of(input.subrange(22, 30)),
        ask_price: le_i64_of(input.subrange(30, 38)),
        ask_size: le_u32_of(input.subrange(38, 42)),
    }
}

/// The fields of a trade report message, read from the full message bytes.
pub open spec fn trade_report_fields(input: Seq<u8>) -> TradeReportModel
    recommends
        input.len() >= TRADE_REPORT_LEN,
{
    TradeReportModel {
        sale_condition: sale_condition_of(input[1]),
        timestamp: le_i64_of(input.subrange(2, 10)),
        symbol: trim_trailing_spaces(input.subrange(10, 18)),
        size: le_u32_of(input.subrange(18, 22)),
        price: le_i64_of(input.subrange(22, 30)),
        id: le_i64_of(input.subrange(30, 38)),
    }
}

/// The marker record of a known-but-opaque message kind with tag `t`.
pub open spec fn opaque_message_of(t: u8) -> MessageModel
    recommends
        is_known_tag(t),
        t != TAG_SYSTEM_EVENT,
        t != TAG_QUOTE_UPDATE,
        t != TAG_TRADE_REPORT,
{
    if t == TAG_SECURITY_DIRECTORY {
        MessageModel::SecurityDirectory
    } else if t == TAG_TRADING_STATUS {
        MessageModel::TradingStatus
    } else if t == TAG_RETAIL_LIQUIDITY_INDICATOR {
        MessageModel::RetailLiquidityIndicator
    } else if t == TAG_OPERATIONAL_HALT_STATUS {
        MessageModel::OperationalHaltStatus
    } else if t == TAG_SHORT_SALE_PRICE_TEST_STATUS {
        MessageModel::ShortSalePriceTestStatus
    } else if t == TAG_OFFICIAL_PRICE {
        MessageModel::OfficialPrice
    } else if t == TAG_TRADE_BREAK {
        MessageModel::TradeBreak
    } else {
        MessageModel::AuctionInformation
    }
}

/// The outcome of one decode call on a message boundary: a decoded record
/// and the number of bytes it consumed, or a structured failure.
pub enum DecodeModel {
    Decoded { used: int, message: MessageModel },
    Failed { error: DecodeError },
}

/// The wire format: what decoding `input` must yield.
///
/// An empty buffer is incomplete. An unknown leading tag is unrecognized. A
/// known tag whose fixed length is not yet buffered is incomplete — checked
/// before any field validation, so a short buffer is never reported as
/// malformed. Otherwise the message's fields are decoded, with the flag
/// bytes' reserved bits and the system event subtype strictly validated.
pub open spec fn decode_model(input: Seq<u8>) -> DecodeModel {
    if input.len() == 0 {
        DecodeModel::Failed { error: DecodeError::Incomplete }
    } else if !is_known_tag(input[0]) {
        DecodeModel::Failed { error: DecodeError::UnrecognizedTag }
    } else if input.len() < required_len(input[0]) {
        DecodeModel::Failed { error: DecodeError::Incomplete }
    } else if input[0] == TAG_SYSTEM_EVENT {
        if system_event_type_of(input[1]) is Some {
            DecodeModel::Decoded {
                used: SYSTEM_EVENT_LEN as int,
                message: MessageModel::SystemEvent(system_event_fields(input)),
            }
        } else {
            DecodeModel::Failed { error: DecodeError::Malformed }
        }
    } else if input[0] == TAG_QUOTE_UPDATE {
        if quote_flags_valid(input[1]) {
            DecodeModel::Decoded {
                used: QUOTE_UPDATE_LEN as int,
                message: MessageModel::QuoteUpdate(quote_update_fields(input)),
            }
        } else {
            DecodeModel::Failed { error: DecodeError::Malformed }
        }
    } else if input[0] == TAG_TRADE_REPORT {
        if sale_condition_flags_valid(input[1]) {
            DecodeModel::Decoded {
                used: TRADE_REPORT_LEN as int,
                message: MessageModel::TradeReport(trade_report_fields(input)),
            }
        } else {
            DecodeModel::Failed { error: DecodeError::Malformed }
        }
    } else {
        DecodeModel::Decoded {
            used: required_len(input[0]),
            message: opaque_message_of(input[0]),
        }
    }
}

/// Decoding `input` yields `message` and consumes `used` bytes.
pub open spec fn decoded_as(input: Seq<u8>, used: int, message: MessageModel) -> bool {
    decode_model(input) == (DecodeModel::Decoded { used, message })
}

/// Decoding `input` fails with `error`.
pub open spec fn failed_as(input: Seq<u8>, error: DecodeError) -> bool {
    decode_model(input) == (DecodeModel::Failed { error })
}

/// Decodes the packed sale condition flag byte at the front of `input`,
/// rejecting it when any of the three reserved bits is set.
pub fn sale_condition(input: &[u8]) -> (r: Result<(&[u8], SaleCondition), DecodeError>)
    ensures
        match r {
            Ok((rest, sc)) => {
                &&& input@.len() >= 1
                &&& sale_condition_flags_valid(input@[0])
                &&& sc == sale_condition_of(input@[0])
                &&& rest@ == input@.subrange(1, input@.len() as int)
            },
            Err(e) => {
                ||| (e == DecodeError::Incomplete && input@.len() == 0)
                ||| (e == DecodeError::Malformed && input@.len() >= 1
                    && !sale_condition_flags_valid(input@[0]))
            },
        },
{
    if input.len() == 0 {
        return Err(DecodeError::Incomplete);
    }
    let b = input[0];
    if b & 0x07 != 0 {
        return Err(DecodeError::Malformed);
    }
    let sc = SaleCondition {
        intermarket_sweep: b & 0x80 != 0,
        extended_hours: b & 0x40 != 0,
        odd_lot: b & 0x20 != 0,
        trade_through_exempt: b & 0x10 != 0,
        single_price: b & 0x08 != 0,
    };
    Ok((vstd::slice::slice_subrange(input, 1, input.len()), sc))
}

/// Decodes a system event message. The caller (the tag dispatcher) has
/// already matched the leading tag byte.
pub fn system_event(input: &[u8]) -> (r: Result<(&[u8], SystemEvent), DecodeError>)
    requires
        input@.len() >= 1,
        input@[0] == TAG_SYSTEM_EVENT,
    ensures
        match r {
            Ok((rest, ev)) => {
                &&& decoded_as(input@, SYSTEM_EVENT_LEN as int, MessageModel::SystemEvent(ev@))
                &&& rest@ == input@.subrange(SYSTEM_EVENT_LEN as int, input@.len() as int)
            },
            Err(e) => failed_as(input@, e),
        },
{
    if input.len() < SYSTEM_EVENT_LEN {
        return Err(DecodeError::Incomplete);
    }
    let b = input[1];
    let event_type = if b == 0x4f {
        SystemEventType::StartOfMessages
    } else if b == 0x53 {
        SystemEventType::StartOfSystemHours
    } else if b == 0x52 {
        SystemEventType::StartOfRegularHours
    } else if b == 0x4d {
        SystemEventType::EndOfRegularHours
    } else if b == 0x45 {
        SystemEventType::EndOfSystemHours
    } else if b == 0x43 {
        SystemEventType::EndOfMessages
    } else {
        return Err(DecodeError::Malformed);
    };
    let timestamp = read_le_i64(input, 2);
    let rest = vstd::slice::slice_subrange(input, SYSTEM_EVENT_LEN, input.len());
    Ok((rest, SystemEvent { event_type, timestamp }))
}

/// Decodes a top-of-book quote update message. The caller has already
/// matched the leading tag byte.
pub fn quote_update<S: Symbol>(input: &[u8]) -> (r: Result<(&[u8], QuoteUpdate<S>), DecodeError>)
    requires
        input@.len() >= 1,
        input@[0] == TAG_QUOTE_UPDATE,
    ensures
        match r {
            Ok((rest, q)) => {
                &&& decoded_as(input@, QUOTE_UPDATE_LEN as int, MessageModel::QuoteUpdate(q@))
                &&& rest@ == input@.subrange(QUOTE_UPDATE_LEN as int, input@.len() as int)
            },
            Err(e) => failed_as(input@, e),
        },
{
    if input.len() < QUOTE_UPDATE_LEN {
        return Err(DecodeError::Incomplete);
    }
    let flags = input[1];
    if flags & 0x3f != 0 {
        return Err(DecodeError::Malformed);
    }
    let available = flags & 0x80 == 0;
    let market_session = if flags & 0x40 != 0 {
        MarketSession::OutOfHours
    } else {
        MarketSession::Regular
    };
    let timestamp = read_le_i64(input, 2);
    let symbol: S = read_symbol_field(input, 10, SYMBOL_FIELD_WIDTH);
    let bid_size = read_le_u32(input, 18);
    let bid_price = read_le_i64(input, 22);
    let ask_price = read_le_i64(input, 30);
    let ask_size = read_le_u32(input, 38);
    let rest = vstd::slice::slice_subrange(input, QUOTE_UPDATE_LEN, input.len());
    Ok((
        rest,
        QuoteUpdate {
            available,
            market_session,
            timestamp,
            symbol,
            bid_size,
            bid_price,
            ask_size,
            ask_price,
        },
    ))
}

/// Decodes a trade report message. The caller has already matched the
/// leading tag byte.
pub fn trade_report<S: Symbol>(input: &[u8]) -> (r: Result<(&[u8], TradeReport<S>), DecodeError>)
    requires
        input@.len() >= 1,
        input@[0] == TAG_TRADE_REPORT,
    ensures
        match r {
            Ok((rest, t)) => {
                &&& decoded_as(input@, TRADE_REPORT_LEN as int, MessageModel::TradeReport(t@))
                &&& rest@ == input@.subrange(TRADE_REPORT_LEN as int, input@.len() as int)
            },
            Err(e) => failed_as(input@, e),
        },
{
    if input.len() < TRADE_REPORT_LEN {
        return Err(DecodeError::Incomplete);
    }
    let body = vstd::slice::slice_subrange(input, 1, input.len());
    proof {
        assert(body@[0] == input@[1]);
    }
    let sale_cond = match sale_condition(body) {
        Ok((_, sc)) => sc,
        Err(_) => {
            return Err(DecodeError::Malformed);
        },
    };
    let timestamp = read_le_i64(input, 2);
    let symbol: S = read_symbol_field(input, 10, SYMBOL_FIELD_WIDTH);
    let size = read_le_u32(input, 18);
    let price = read_le_i64(input, 22);
    let id = read_le_i64(input, 30);
    let rest = vstd::slice::slice_subrange(input, TRADE_REPORT_LEN, input.len());
    Ok((
        rest,
        TradeReport { sale_condition: sale_cond, timestamp, symbol, size, price, id },
    ))
}

/// Consumes the fixed-length body of a known-but-opaque message kind
/// without interpreting it, returning the unconsumed remainder.
fn opaque_message(input: &[u8], total_len: usize) -> (r: Result<&[u8], DecodeError>)
    ensures
        match r {
            Ok(rest) => {
                &&& input@.len() >= total_len
                &&& rest@ == input@.subrange(total_len as int, input@.len() as int)
            },
            Err(e) => e == DecodeError::Incomplete && input@.len() < total_len,
        },
{
    if input.len() < total_len {
        return Err(DecodeError::Incomplete);
    }
    Ok(vstd::slice::slice_subrange(input, total_len, input.len()))
}

/// What `tops_1_6_message` promises: the result agrees exactly with
/// `decode_model`, and the returned remainder is the undecoded suffix of the
/// input.
pub open spec fn decode_post<S: Symbol>(
    input: Seq<u8>,
    r: Result<(&[u8], Tops1_6Message<S>), DecodeError>,
) -> bool {
    match r {
        Ok((rest, msg)) => {
            &&& rest@.len() <= input.len()
            &&& decoded_as(input, input.len() - rest@.len(), msg@)
            &&& rest@ == input.subrange(input.len() - rest@.len(), input.len() as int)
        },
        Err(e) => failed_as(input, e),
    }
}

/// Decodes exactly one message from the front of `input`.
///
/// Reads the leading tag byte, selects the matching message shape decoder,
/// and returns the decoded record together with the unconsumed remainder of
/// the buffer — or a structured failure: `Incomplete` when the buffer does
/// not yet hold the tag's full fixed-length message, `Malformed` when a
/// recognized body violates a field-level invariant, and `UnrecognizedTag`
/// when the leading byte matches no known message kind.
pub fn tops_1_6_message<S: Symbol>(input: &[u8]) -> (r: Result<
    (&[u8], Tops1_6Message<S>),
    DecodeError,
>)
    ensures
        decode_post::<S>(input@, r),
{
    if input.len() == 0 {
        return Err(DecodeError::Incomplete);
    }
    let t = input[0];
    if t == TAG_SYSTEM_EVENT {
        match system_event(input) {
            Ok((rest, ev)) => Ok((rest, Tops1_6Message::SystemEvent(ev))),
            Err(e) => Err(e),
        }
    } else if t == TAG_SECURITY_DIRECTORY {
        match opaque_message(input, SECURITY_DIRECTORY_LEN) {
            Ok(rest) => Ok((rest, Tops1_6Message::SecurityDirectory)),
            Err(e) => Err(e),
        }
    } else if t == TAG_TRADING_STATUS {
        match opaque_message(input, TRADING_STATUS_LEN) {
            Ok(rest) => Ok((rest, Tops1_6Message::TradingStatus)),
            Err(e) => Err(e),
        }
    } else if t == TAG_RETAIL_LIQUIDITY_INDICATOR {
        match opaque_message(input, RETAIL_LIQUIDITY_INDICATOR_LEN) {
            Ok(rest) => Ok((rest, Tops1_6Message::RetailLiquidityIndicator)),
            Err(e) => Err(e),
        }
    } else if t == TAG_OPERATIONAL_HALT_STATUS {
        match opaque_message(input, OPERATIONAL_HALT_STATUS_LEN) {
            Ok(rest) => Ok((rest, Tops1_6Message::OperationalHaltStatus)),
            Err(e) => Err(e),
        }
    } else if t == TAG_SHORT_SALE_PRICE_TEST_STATUS {
        match opaque_message(input, SHORT_SALE_PRICE_TEST_STATUS_LEN) {
            Ok(rest) => Ok((rest, Tops1_6Message::ShortSalePriceTestStatus)),
            Err(e) => Err(e),
        }
    } else if t == TAG_QUOTE_UPDATE {
        match quote_update::<S>(input) {
            Ok((rest, q)) => Ok((rest, Tops1_6Message::QuoteUpdate(q))),
            Err(e) => Err(e),
        }
    } else if t == TAG_TRADE_REPORT {
        match trade_report::<S>(input) {
            Ok((rest, tr)) => Ok((rest, Tops1_6Message::TradeReport(tr))),
            Err(e) => Err(e),
        }
    } else if t == TAG_OFFICIAL_PRICE {
        match opaque_message(input, OFFICIAL_PRICE_LEN) {
            Ok(rest) => Ok((rest, Tops1_6Message::OfficialPrice)),
            Err(e) => Err(e),
        }
    } else if t == TAG_TRADE_BREAK {
        match opaque_message(input, TRADE_BREAK_LEN) {
            Ok(rest) => Ok((rest, Tops1_6Message::TradeBreak)),
            Err(e) => Err(e),
        }
    } else if t == TAG_AUCTION_INFORMATION {
        match opaque_message(input, AUCTION_INFORMATION_LEN) {
            Ok(rest) => Ok((rest, Tops1_6Message::AuctionInformation)),
            Err(e) => Err(e),
        }
    } else {
        Err(DecodeError::UnrecognizedTag)
    }
}

} // verus!
