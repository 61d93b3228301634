use crypto_pair_boundary::{
    encode_allocation, guard_market_type, guard_normalize, is_encodable,
    marshal_normalize_outcome, CallOutcome, MarketType,
};

/// Carry the collaborator's tag across into the library's mirrored tag set,
/// member for member, as the boundary glue does.
fn lift(m: crypto_market_type::MarketType) -> MarketType {
    match m {
        crypto_market_type::MarketType::Unknown => MarketType::Unknown,
        crypto_market_type::MarketType::Spot => MarketType::Spot,
        crypto_market_type::MarketType::LinearFuture => MarketType::LinearFuture,
        crypto_market_type::MarketType::InverseFuture => MarketType::InverseFuture,
        crypto_market_type::MarketType::LinearSwap => MarketType::LinearSwap,
        crypto_market_type::MarketType::InverseSwap => MarketType::InverseSwap,
        crypto_market_type::MarketType::AmericanOption => MarketType::AmericanOption,
        crypto_market_type::MarketType::EuropeanOption => MarketType::EuropeanOption,
        crypto_market_type::MarketType::QuantoFuture => MarketType::QuantoFuture,
        crypto_market_type::MarketType::QuantoSwap => MarketType::QuantoSwap,
        crypto_market_type::MarketType::Move => MarketType::Move,
        crypto_market_type::MarketType::BVOL => MarketType::BVOL,
    }
}

#[test]
fn test_normalize_pair() {
    let produced = crypto_pair::normalize_pair("BTCUSDT", "binance");
    let result = guard_normalize(CallOutcome::Completed(produced));
    assert_eq!(result, Some("BTC/USDT".to_string()));

    let buffer = marshal_normalize_outcome(CallOutcome::Completed(crypto_pair::normalize_pair(
        "BTCUSDT", "binance",
    )));
    assert_eq!(buffer, Some(b"BTC/USDT\0".to_vec()));
}

#[test]
fn spot_hint_disambiguates() {
    let spot = crypto_pair::get_market_type("BTCUSDT", "binance", Some(true));
    assert_eq!(guard_market_type(CallOutcome::Completed(lift(spot))), MarketType::Spot);

    let swap = crypto_pair::get_market_type("BTCUSDT", "binance", Some(false));
    assert_eq!(guard_market_type(CallOutcome::Completed(lift(swap))), MarketType::LinearSwap);
}

#[test]
fn unknown_exchange_yields_sentinels() {
    // The classifier itself declines an exchange it does not know.
    let tag = crypto_pair::get_market_type("BTCUSDT", "no_such_exchange", Some(true));
    assert_eq!(guard_market_type(CallOutcome::Completed(lift(tag))), MarketType::Unknown);

    // The normalizer terminates abnormally on an unknown exchange; the
    // boundary observes that as a contained abnormal termination and must
    // answer with the null sentinel.
    assert_eq!(guard_normalize(CallOutcome::Panicked), None);
    assert_eq!(marshal_normalize_outcome(CallOutcome::Panicked), None);
}

#[test]
fn abnormal_termination_is_contained() {
    assert_eq!(guard_market_type(CallOutcome::Panicked), MarketType::Unknown);
    assert_eq!(guard_normalize(CallOutcome::Panicked), None);
}

#[test]
fn declined_normalization_is_null() {
    assert_eq!(guard_normalize(CallOutcome::Completed(None)), None);
    assert_eq!(marshal_normalize_outcome(CallOutcome::Completed(None)), None);
}

#[test]
fn completed_value_passes_through_unchanged() {
    let s = "ETH/BTC".to_string();
    assert_eq!(guard_normalize(CallOutcome::Completed(Some(s.clone()))), Some(s));
    for tag in [
        MarketType::Unknown,
        MarketType::Spot,
        MarketType::LinearFuture,
        MarketType::InverseFuture,
        MarketType::LinearSwap,
        MarketType::InverseSwap,
        MarketType::AmericanOption,
        MarketType::EuropeanOption,
        MarketType::QuantoFuture,
        MarketType::QuantoSwap,
        MarketType::Move,
        MarketType::BVOL,
    ] {
        assert_eq!(guard_market_type(CallOutcome::Completed(tag)), tag);
    }
}

#[test]
fn allocation_holds_text_and_terminator() {
    let buffer = encode_allocation("BTC/USDT").unwrap();
    assert_eq!(buffer, b"BTC/USDT\0".to_vec());

    let empty = encode_allocation("").unwrap();
    assert_eq!(empty, vec![0u8]);

    // Multi-byte text is carried as its UTF-8 encoding.
    let accented = encode_allocation("BTC/\u{20ac}UR").unwrap();
    assert_eq!(accented, b"BTC/\xe2\x82\xacUR\0".to_vec());
}

#[test]
fn embedded_zero_byte_cannot_be_encoded() {
    assert!(!is_encodable("a\u{0}b"));
    assert_eq!(encode_allocation("a\u{0}b"), None);
    assert_eq!(
        marshal_normalize_outcome(CallOutcome::Completed(Some("a\u{0}b".to_string()))),
        None
    );
    assert!(is_encodable("ab"));
    assert!(is_encodable(""));
}

#[test]
fn allocations_are_independently_owned() {
    let mut first = encode_allocation("BTC/USDT").unwrap();
    let second = encode_allocation("BTC/USDT").unwrap();
    assert_eq!(first, second);
    first[0] = b'x';
    assert_ne!(first, second);
    assert_eq!(second[0], b'B');
}
