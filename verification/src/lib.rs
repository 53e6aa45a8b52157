//! Decoder for the TOPS fixed-format binary market-data protocol.
//!
//! A byte stream of tagged, fixed-length records (system events, top-of-book
//! quote updates, trade reports, and several known-but-opaque administrative
//! message kinds) is turned into strongly typed, immutable records. Each
//! decode call receives a buffer positioned at a message boundary and yields
//! exactly one decoded record plus the unconsumed remainder, or a structured
//! failure that distinguishes incomplete input from malformed input and from
//! an unrecognized message tag.

mod decoder;
mod fields;
mod laws;
mod records;
mod symbol;

pub use decoder::{
    decode_model, decode_post, decoded_as, failed_as, is_known_tag, opaque_message_of,
    quote_update, sale_condition, system_event, tops_1_6_message, trade_report,
    quote_available, quote_flags_valid, quote_update_fields, required_len,
    sale_condition_flags_valid, sale_condition_of, session_of, system_event_fields,
    system_event_type_of, trade_report_fields, DecodeModel, AUCTION_INFORMATION_LEN,
    OFFICIAL_PRICE_LEN, OPERATIONAL_HALT_STATUS_LEN, QUOTE_UPDATE_LEN,
    RETAIL_LIQUIDITY_INDICATOR_LEN, SECURITY_DIRECTORY_LEN, SHORT_SALE_PRICE_TEST_STATUS_LEN,
    SYMBOL_FIELD_WIDTH, SYSTEM_EVENT_LEN, TAG_AUCTION_INFORMATION, TAG_OFFICIAL_PRICE,
    TAG_OPERATIONAL_HALT_STATUS, TAG_QUOTE_UPDATE, TAG_RETAIL_LIQUIDITY_INDICATOR,
    TAG_SECURITY_DIRECTORY, TAG_SHORT_SALE_PRICE_TEST_STATUS, TAG_SYSTEM_EVENT, TAG_TRADE_BREAK,
    TAG_TRADE_REPORT, TAG_TRADING_STATUS, TRADE_BREAK_LEN, TRADE_REPORT_LEN, TRADING_STATUS_LEN,
};

pub use fields::{le_i64_of, le_u32_of, le_u64_of, read_le_i64, read_le_u32, trim_trailing_spaces};
pub use records::{
    DecodeError, MarketSession, MessageModel, QuoteUpdate, QuoteUpdateModel, SaleCondition,
    SystemEvent, SystemEventModel, SystemEventType, TradeReport, TradeReportModel, Tops1_6Message,
};
pub use laws::{
    lemma_decode_deterministic, lemma_decoded_consumes_required_len,
    lemma_exact_message_leaves_nothing, lemma_quote_reserved_bits_rejected,
    lemma_short_input_incomplete,
};
pub use symbol::{read_symbol_field, Symbol};
