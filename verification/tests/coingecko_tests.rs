use crypto_aggregator::{coingecko_id_for_upper, coingecko_ids, coingecko_price_url, symbol_to_coingecko_id};

#[test]
fn symbol_lookup_ignores_letter_case() {
    assert_eq!(symbol_to_coingecko_id("BTC"), Some("bitcoin"));
    assert_eq!(symbol_to_coingecko_id("btc"), Some("bitcoin"));
    assert_eq!(symbol_to_coingecko_id("Eth"), Some("ethereum"));
    assert_eq!(symbol_to_coingecko_id("usdc"), Some("usd-coin"));
    assert_eq!(symbol_to_coingecko_id("doge"), Some("dogecoin"));
}

#[test]
fn symbol_lookup_covers_every_tracked_coin() {
    let table = [
        ("BTC", "bitcoin"),
        ("ETH", "ethereum"),
        ("SOL", "solana"),
        ("USDT", "tether"),
        ("USDC", "usd-coin"),
        ("BNB", "binancecoin"),
        ("XRP", "ripple"),
        ("ADA", "cardano"),
        ("DOGE", "dogecoin"),
    ];
    for (symbol, id) in table {
        assert_eq!(symbol_to_coingecko_id(symbol), Some(id));
        assert_eq!(coingecko_id_for_upper(symbol), Some(id));
    }
}

#[test]
fn unknown_symbols_have_no_id() {
    assert_eq!(symbol_to_coingecko_id("XYZ"), None);
    assert_eq!(symbol_to_coingecko_id(""), None);
    assert_eq!(symbol_to_coingecko_id("BTC "), None);
    assert_eq!(symbol_to_coingecko_id("BTCX"), None);
}

#[test]
fn symbol_lookup_uses_unicode_upper_case() {
    // U+017F LATIN SMALL LETTER LONG S has upper case 'S'.
    assert_eq!(symbol_to_coingecko_id("\u{17f}ol"), Some("solana"));
}

#[test]
fn exact_lookup_wants_upper_case() {
    assert_eq!(coingecko_id_for_upper("btc"), None);
    assert_eq!(coingecko_id_for_upper("BTC"), Some("bitcoin"));
}

#[test]
fn ids_keep_order_and_skip_unknown() {
    assert_eq!(coingecko_ids(&["btc", "foo", "ETH", "sol"]), vec!["bitcoin", "ethereum", "solana"]);
    assert_eq!(coingecko_ids(&[]), Vec::<&str>::new());
    assert_eq!(coingecko_ids(&["nope"]), Vec::<&str>::new());
}

#[test]
fn price_url_lists_ids() {
    assert_eq!(
        coingecko_price_url(&["btc", "eth"]),
        Some(String::from(
            "https://api.coingecko.com/api/v3/simple/price?ids=bitcoin,ethereum&vs_currencies=usd&include_24hr_change=true&include_24hr_vol=true&include_market_cap=true"
        ))
    );
    assert_eq!(
        coingecko_price_url(&["DOGE"]),
        Some(String::from(
            "https://api.coingecko.com/api/v3/simple/price?ids=dogecoin&vs_currencies=usd&include_24hr_change=true&include_24hr_vol=true&include_market_cap=true"
        ))
    );
}

#[test]
fn price_url_absent_without_ids() {
    assert_eq!(coingecko_price_url(&[]), None);
    assert_eq!(coingecko_price_url(&["foo", "bar"]), None);
}
