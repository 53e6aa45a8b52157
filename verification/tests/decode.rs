use tops::{
    tops_1_6_message, DecodeError, MarketSession, QuoteUpdate, SaleCondition, SystemEvent,
    SystemEventType, Tops1_6Message, TradeReport,
};

type Msg = Tops1_6Message<Vec<u8>>;

fn decode(input: &[u8]) -> Result<(&[u8], Msg), DecodeError> {
    tops_1_6_message::<Vec<u8>>(input)
}

fn assert_price_close(ten_thousandths: i64, expected: f64) {
    let price = ten_thousandths as f64 / 10000.0;
    assert!((price - expected).abs() < 1e-6, "price {} != {}", price, expected);
}

#[test]
fn quote_update_example() {
    let input: [u8; 42] = [
        0x51, 0x00, 0xAC, 0x63, 0xC0, 0x20, 0x96, 0x86, 0x6D, 0x14, 0x5A, 0x49, 0x45, 0x58, 0x54,
        0x20, 0x20, 0x20, 0xE4, 0x25, 0x00, 0x00, 0x24, 0x1D, 0x0F, 0x00, 0x00, 0x00, 0x00, 0x00,
        0xEC, 0x1D, 0x0F, 0x00, 0x00, 0x00, 0x00, 0x00, 0xE8, 0x03, 0x00, 0x00,
    ];
    let (rest, message) = decode(&input).unwrap();
    assert!(rest.is_empty());
    let quote: QuoteUpdate<Vec<u8>> = match message {
        Tops1_6Message::QuoteUpdate(q) => q,
        other => panic!("expected a quote update, got {:?}", other),
    };
    assert!(quote.available);
    assert!(matches!(quote.market_session, MarketSession::Regular));
    assert_eq!(quote.bid_size, 9700);
    assert_eq!(quote.ask_size, 1000);
    assert_eq!(quote.symbol, b"ZIEXT".to_vec());
    assert_eq!(quote.timestamp, 1471980632572715948);
    assert_price_close(quote.bid_price, 99.05);
    assert_price_close(quote.ask_price, 99.07);
}

#[test]
fn trade_report_example() {
    let input: [u8; 38] = [
        0x54, 0x00, 0xC3, 0xDF, 0xF7, 0x05, 0xA2, 0x86, 0x6D, 0x14, 0x5A, 0x49, 0x45, 0x58, 0x54,
        0x20, 0x20, 0x20, 0x64, 0x00, 0x00, 0x00, 0x24, 0x1D, 0x0F, 0x00, 0x00, 0x00, 0x00, 0x00,
        0x96, 0x8F, 0x06, 0x00, 0x00, 0x00, 0x00, 0x00,
    ];
    let (rest, message) = decode(&input).unwrap();
    assert!(rest.is_empty());
    let trade: TradeReport<Vec<u8>> = match message {
        Tops1_6Message::TradeReport(t) => t,
        other => panic!("expected a trade report, got {:?}", other),
    };
    assert!(matches!(
        trade.sale_condition,
        SaleCondition {
            intermarket_sweep: false,
            extended_hours: false,
            odd_lot: false,
            trade_through_exempt: false,
            single_price: false,
        }
    ));
    assert_eq!(trade.size, 100);
    assert_eq!(trade.id, 429_974);
    assert_eq!(trade.timestamp, 1471980683662974915);
    assert_eq!(trade.symbol, b"ZIEXT".to_vec());
    assert_price_close(trade.price, 99.05);
}

#[test]
fn system_event_message() {
    let input: [u8; 10] = [0x53, 0x45, 0x00, 0xA0, 0x99, 0x97, 0xE9, 0x3D, 0xB6, 0x14];
    let (rest, message) = decode(&input).unwrap();
    assert!(rest.is_empty());
    let event: SystemEvent = match message {
        Tops1_6Message::SystemEvent(ev) => ev,
        other => panic!("expected a system event, got {:?}", other),
    };
    assert!(matches!(event.event_type, SystemEventType::EndOfSystemHours));
    assert_eq!(event.timestamp, 1492448400000000000);
}

#[test]
fn system_event_all_subtypes() {
    let cases: [(u8, SystemEventType); 6] = [
        (0x4F, SystemEventType::StartOfMessages),
        (0x53, SystemEventType::StartOfSystemHours),
        (0x52, SystemEventType::StartOfRegularHours),
        (0x4D, SystemEventType::EndOfRegularHours),
        (0x45, SystemEventType::EndOfSystemHours),
        (0x43, SystemEventType::EndOfMessages),
    ];
    for (subtype, expected) in cases {
        let mut input = vec![0x53, subtype];
        input.extend_from_slice(&[0; 8]);
        let (rest, message) = decode(&input).unwrap();
        assert!(rest.is_empty());
        match message {
            Tops1_6Message::SystemEvent(ev) => {
                assert_eq!(ev.event_type, expected);
                assert_eq!(ev.timestamp, 0);
            }
            other => panic!("expected a system event, got {:?}", other),
        }
    }
}

#[test]
fn system_event_unknown_subtype_is_malformed() {
    let mut input = vec![0x53, 0x00];
    input.extend_from_slice(&[0; 8]);
    assert_eq!(decode(&input).unwrap_err(), DecodeError::Malformed);
}

#[test]
fn negative_timestamp_decodes() {
    let input: [u8; 10] = [0x53, 0x45, 0xFF, 0xFF, 0xFF, 0xFF, 0xFF, 0xFF, 0xFF, 0xFF];
    let (_, message) = decode(&input).unwrap();
    match message {
        Tops1_6Message::SystemEvent(ev) => assert_eq!(ev.timestamp, -1),
        other => panic!("expected a system event, got {:?}", other),
    }
}

#[test]
fn opaque_kinds_round_trip() {
    let kinds: [(u8, usize); 8] = [
        (0x44, 30),
        (0x48, 21),
        (0x49, 17),
        (0x4F, 17),
        (0x50, 18),
        (0x58, 25),
        (0x42, 37),
        (0x41, 79),
    ];
    for (tag, body_len) in kinds {
        let mut input = vec![tag];
        input.extend_from_slice(&vec![0xAB; body_len]);
        let (rest, message) = decode(&input).unwrap();
        assert!(rest.is_empty(), "tag {:#x} left {} bytes", tag, rest.len());
        let matches_kind = match (tag, &message) {
            (0x44, Tops1_6Message::SecurityDirectory) => true,
            (0x48, Tops1_6Message::TradingStatus) => true,
            (0x49, Tops1_6Message::RetailLiquidityIndicator) => true,
            (0x4F, Tops1_6Message::OperationalHaltStatus) => true,
            (0x50, Tops1_6Message::ShortSalePriceTestStatus) => true,
            (0x58, Tops1_6Message::OfficialPrice) => true,
            (0x42, Tops1_6Message::TradeBreak) => true,
            (0x41, Tops1_6Message::AuctionInformation) => true,
            _ => false,
        };
        assert!(matches_kind, "tag {:#x} decoded to {:?}", tag, message);
        // One byte short of the fixed length must be incomplete, never
        // malformed.
        assert_eq!(
            decode(&input[..input.len() - 1]).unwrap_err(),
            DecodeError::Incomplete
        );
    }
}

#[test]
fn remainder_is_preserved() {
    let mut input = vec![0x53, 0x45];
    input.extend_from_slice(&[0; 8]);
    input.extend_from_slice(&[0xDE, 0xAD, 0xBE, 0xEF]);
    let (rest, _) = decode(&input).unwrap();
    assert_eq!(rest, &[0xDE, 0xAD, 0xBE, 0xEF]);
}

#[test]
fn quote_update_reserved_bits_rejected() {
    for flags in [0x01u8, 0x02, 0x04, 0x08, 0x10, 0x20, 0x3F, 0x81, 0x7F] {
        let mut input = vec![0x51, flags];
        input.extend_from_slice(&[0; 40]);
        assert_eq!(
            decode(&input).unwrap_err(),
            DecodeError::Malformed,
            "flag byte {:#x} must be rejected",
            flags
        );
    }
}

#[test]
fn quote_update_flag_bits() {
    // Most significant bit is the wire's "not available" flag; the next bit
    // picks the out-of-hours session.
    let mut input = vec![0x51, 0x80];
    input.extend_from_slice(&[0; 40]);
    let (_, message) = decode(&input).unwrap();
    match message {
        Tops1_6Message::QuoteUpdate(q) => {
            assert!(!q.available);
            assert!(matches!(q.market_session, MarketSession::Regular));
        }
        other => panic!("expected a quote update, got {:?}", other),
    }

    let mut input = vec![0x51, 0x40];
    input.extend_from_slice(&[0; 40]);
    let (_, message) = decode(&input).unwrap();
    match message {
        Tops1_6Message::QuoteUpdate(q) => {
            assert!(q.available);
            assert!(matches!(q.market_session, MarketSession::OutOfHours));
        }
        other => panic!("expected a quote update, got {:?}", other),
    }
}

#[test]
fn trade_report_reserved_bits_rejected() {
    for flags in [0x01u8, 0x02, 0x04, 0x07, 0xF9] {
        let mut input = vec![0x54, flags];
        input.extend_from_slice(&[0; 36]);
        assert_eq!(
            decode(&input).unwrap_err(),
            DecodeError::Malformed,
            "flag byte {:#x} must be rejected",
            flags
        );
    }
}

#[test]
fn trade_report_all_sale_condition_flags() {
    let mut input = vec![0x54, 0xF8];
    input.extend_from_slice(&[0; 36]);
    let (_, message) = decode(&input).unwrap();
    match message {
        Tops1_6Message::TradeReport(t) => {
            assert!(t.sale_condition.intermarket_sweep);
            assert!(t.sale_condition.extended_hours);
            assert!(t.sale_condition.odd_lot);
            assert!(t.sale_condition.trade_through_exempt);
            assert!(t.sale_condition.single_price);
        }
        other => panic!("expected a trade report, got {:?}", other),
    }
}

#[test]
fn short_quote_update_is_incomplete() {
    let input: [u8; 5] = [0x51, 0x00, 0xAC, 0x63, 0xC0];
    assert_eq!(decode(&input).unwrap_err(), DecodeError::Incomplete);
}

#[test]
fn short_quote_update_with_bad_flags_is_incomplete() {
    // The length check comes before reserved-bit validation: a short buffer
    // is never reported as malformed.
    let input: [u8; 5] = [0x51, 0xFF, 0xAC, 0x63, 0xC0];
    assert_eq!(decode(&input).unwrap_err(), DecodeError::Incomplete);
}

#[test]
fn empty_input_is_incomplete() {
    assert_eq!(decode(&[]).unwrap_err(), DecodeError::Incomplete);
}

#[test]
fn unrecognized_tag_is_reported() {
    let input: [u8; 3] = [0xFF, 0x00, 0x00];
    assert_eq!(decode(&input).unwrap_err(), DecodeError::UnrecognizedTag);
}

#[test]
fn symbol_trimming() {
    // Only the trailing run of spaces is trimmed; interior spaces stay.
    let mut input = vec![0x51, 0x00, 0, 0, 0, 0, 0, 0, 0, 0];
    input.extend_from_slice(b"AB C    ");
    input.extend_from_slice(&[0; 24]);
    let (_, message) = decode(&input).unwrap();
    match message {
        Tops1_6Message::QuoteUpdate(q) => assert_eq!(q.symbol, b"AB C".to_vec()),
        other => panic!("expected a quote update, got {:?}", other),
    }

    let mut input = vec![0x51, 0x00, 0, 0, 0, 0, 0, 0, 0, 0];
    input.extend_from_slice(b"        ");
    input.extend_from_slice(&[0; 24]);
    let (_, message) = decode(&input).unwrap();
    match message {
        Tops1_6Message::QuoteUpdate(q) => assert_eq!(q.symbol, Vec::<u8>::new()),
        other => panic!("expected a quote update, got {:?}", other),
    }
}

#[test]
fn decoding_twice_is_identical() {
    let input: [u8; 42] = [
        0x51, 0x00, 0xAC, 0x63, 0xC0, 0x20, 0x96, 0x86, 0x6D, 0x14, 0x5A, 0x49, 0x45, 0x58, 0x54,
        0x20, 0x20, 0x20, 0xE4, 0x25, 0x00, 0x00, 0x24, 0x1D, 0x0F, 0x00, 0x00, 0x00, 0x00, 0x00,
        0xEC, 0x1D, 0x0F, 0x00, 0x00, 0x00, 0x00, 0x00, 0xE8, 0x03, 0x00, 0x00,
    ];
    let (rest1, message1) = decode(&input).unwrap();
    let (rest2, message2) = decode(&input).unwrap();
    assert_eq!(rest1, rest2);
    match (message1, message2) {
        (Tops1_6Message::QuoteUpdate(a), Tops1_6Message::QuoteUpdate(b)) => {
            assert_eq!(a.available, b.available);
            assert!(matches!(
                (a.market_session, b.market_session),
                (MarketSession::Regular, MarketSession::Regular)
            ));
            assert_eq!(a.timestamp, b.timestamp);
            assert_eq!(a.symbol, b.symbol);
            assert_eq!(a.bid_size, b.bid_size);
            assert_eq!(a.bid_price, b.bid_price);
            assert_eq!(a.ask_size, b.ask_size);
            assert_eq!(a.ask_price, b.ask_price);
        }
        other => panic!("expected two quote updates, got {:?}", other),
    }
}

#[test]
fn exact_prices_on_the_wire() {
    // 0x000F1D24 = 990500 ten-thousandths = 99.05; 0x000F1DEC = 990700.
    let input: [u8; 42] = [
        0x51, 0x00, 0xAC, 0x63, 0xC0, 0x20, 0x96, 0x86, 0x6D, 0x14, 0x5A, 0x49, 0x45, 0x58, 0x54,
        0x20, 0x20, 0x20, 0xE4, 0x25, 0x00, 0x00, 0x24, 0x1D, 0x0F, 0x00, 0x00, 0x00, 0x00, 0x00,
        0xEC, 0x1D, 0x0F, 0x00, 0x00, 0x00, 0x00, 0x00, 0xE8, 0x03, 0x00, 0x00,
    ];
    let (_, message) = decode(&input).unwrap();
    match message {
        Tops1_6Message::QuoteUpdate(q) => {
            assert_eq!(q.bid_price, 990500);
            assert_eq!(q.ask_price, 990700);
        }
        other => panic!("expected a quote update, got {:?}", other),
    }
}
