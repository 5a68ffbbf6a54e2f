use crypto_aggregator::numeric::{format_i64, parse_i64};
use crypto_aggregator::text::{chars_of, join_strs, same_text, split_char, string_from_chars};
use crypto_aggregator::{parse_symbol_list, PriceQuery, PRICE_HISTORY_LIMIT};

#[test]
fn parse_i64_accepts_signed_decimals() {
    assert_eq!(parse_i64("123"), Some(123));
    assert_eq!(parse_i64("+5"), Some(5));
    assert_eq!(parse_i64("-42"), Some(-42));
    assert_eq!(parse_i64("-0"), Some(0));
    assert_eq!(parse_i64("0007"), Some(7));
    assert_eq!(parse_i64("1700000000000"), Some(1_700_000_000_000));
    assert_eq!(parse_i64("9223372036854775807"), Some(i64::MAX));
    assert_eq!(parse_i64("-9223372036854775808"), Some(i64::MIN));
}

#[test]
fn parse_i64_refuses_what_from_str_refuses() {
    for s in ["", "-", "+", " 1", "1 ", "12a", "1.5", "--1", "+-1", "9223372036854775808", "-9223372036854775809", "99999999999999999999999"] {
        assert_eq!(parse_i64(s), None, "{s}");
        assert!(s.parse::<i64>().is_err());
    }
}

#[test]
fn parse_i64_agrees_with_from_str() {
    for s in ["0", "1", "-1", "+0", "42", "-9223372036854775808", "9223372036854775807", "x", "", "18446744073709551616"] {
        assert_eq!(parse_i64(s), s.parse::<i64>().ok(), "{s}");
    }
}

#[test]
fn format_i64_writes_decimal() {
    assert_eq!(format_i64(0), "0");
    assert_eq!(format_i64(-5), "-5");
    assert_eq!(format_i64(1234567890123), "1234567890123");
    assert_eq!(format_i64(i64::MIN), i64::MIN.to_string());
    assert_eq!(format_i64(i64::MAX), i64::MAX.to_string());
}

#[test]
fn format_then_parse_gives_number_back() {
    for n in [0i64, 1, -1, 10, -10, 999, i64::MAX, i64::MIN, 1_704_067_200_000] {
        assert_eq!(parse_i64(&format_i64(n)), Some(n));
    }
}

#[test]
fn split_keeps_empty_pieces() {
    assert_eq!(split_char("a,,b", ','), vec!["a", "", "b"]);
    assert_eq!(split_char("", ','), vec![""]);
    assert_eq!(split_char(",", ','), vec!["", ""]);
    assert_eq!(split_char("btc", ','), vec!["btc"]);
    let s = "x,y,,z,";
    assert_eq!(split_char(s, ','), s.split(',').collect::<Vec<_>>());
}

#[test]
fn split_then_join_gives_text_back() {
    for s in ["a,b,c", "", ",,", "one"] {
        let parts = split_char(s, ',');
        let refs: Vec<&str> = parts.iter().map(|p| p.as_str()).collect();
        assert_eq!(join_strs(&refs, ","), s);
    }
}

#[test]
fn chars_and_strings() {
    assert_eq!(chars_of("héllo"), vec!['h', 'é', 'l', 'l', 'o']);
    assert_eq!(string_from_chars(&['a', 'ß']), "aß");
    assert!(same_text("abc", "abc"));
    assert!(!same_text("abc", "abd"));
    assert!(!same_text("abc", "ab"));
}

#[test]
fn symbol_list_is_upper_cased_pieces() {
    assert_eq!(parse_symbol_list("btc,eth"), vec!["BTC", "ETH"]);
    assert_eq!(parse_symbol_list("Sol"), vec!["SOL"]);
    assert_eq!(parse_symbol_list("a,,b"), vec!["A", "", "B"]);
    assert_eq!(parse_symbol_list(""), vec![""]);
    assert_eq!(parse_symbol_list("straße"), vec!["STRASSE"]);
}

#[test]
fn price_query_symbols() {
    let q = PriceQuery { coins: String::from("btc,doge") };
    assert_eq!(q.symbols(), vec!["BTC", "DOGE"]);
    assert_eq!(PRICE_HISTORY_LIMIT, 1000);
}
