use ics20_swap::action::parse_pool_share;
use ics20_swap::decimal::{parse_u64, u128_to_string};
use ics20_swap::text::{chars_of, find_from, starts_with, substring};

fn chars(s: &str) -> Vec<char> {
    s.chars().collect()
}

#[test]
fn decimal_of_amounts() {
    assert_eq!(u128_to_string(0), "0");
    assert_eq!(u128_to_string(7), "7");
    assert_eq!(u128_to_string(10), "10");
    assert_eq!(u128_to_string(12345), "12345");
    assert_eq!(u128_to_string(36601070), "36601070");
    assert_eq!(u128_to_string(u128::MAX), "340282366920938463463374607431768211455");
}

#[test]
fn decimal_is_read_back() {
    assert_eq!(parse_u64(&chars("0"), 0), Some(0));
    assert_eq!(parse_u64(&chars("42"), 0), Some(42));
    assert_eq!(parse_u64(&chars("pool42"), 4), Some(42));
    assert_eq!(parse_u64(&chars("18446744073709551615"), 0), Some(u64::MAX));
    for n in [1u64, 9, 10, 99, 100, 1337, 0xcb37, u64::MAX - 1] {
        assert_eq!(parse_u64(&chars(&u128_to_string(n as u128)), 0), Some(n));
    }
}

#[test]
fn what_is_no_numeral_is_not_read() {
    assert_eq!(parse_u64(&chars(""), 0), None);
    assert_eq!(parse_u64(&chars("42"), 2), None);
    assert_eq!(parse_u64(&chars("007"), 0), None);
    assert_eq!(parse_u64(&chars("00"), 0), None);
    assert_eq!(parse_u64(&chars("+7"), 0), None);
    assert_eq!(parse_u64(&chars("-7"), 0), None);
    assert_eq!(parse_u64(&chars("7a"), 0), None);
    assert_eq!(parse_u64(&chars("a7"), 0), None);
    assert_eq!(parse_u64(&chars("4 2"), 0), None);
    assert_eq!(parse_u64(&chars("18446744073709551616"), 0), None);
    assert_eq!(parse_u64(&chars("99999999999999999999"), 0), None);
    assert_eq!(parse_u64(&chars("184467440737095516150"), 0), None);
}

#[test]
fn pool_share_denominations() {
    assert_eq!(parse_pool_share(&"gamm-pool-1".to_string()), Some(1));
    assert_eq!(parse_pool_share(&"gamm-pool-0".to_string()), Some(0));
    assert_eq!(parse_pool_share(&"gamm-pool-678".to_string()), Some(678));
    assert_eq!(parse_pool_share(&"gamm-pool-".to_string()), None);
    assert_eq!(parse_pool_share(&"gamm-pool-01".to_string()), None);
    assert_eq!(parse_pool_share(&"gamm-pool-1x".to_string()), None);
    assert_eq!(parse_pool_share(&"gamm-pool".to_string()), None);
    assert_eq!(parse_pool_share(&"uatom".to_string()), None);
    assert_eq!(parse_pool_share(&"".to_string()), None);
    assert_eq!(parse_pool_share(&"xgamm-pool-1".to_string()), None);
}

#[test]
fn separators_are_found() {
    let c = chars("ab/cd//e");
    assert_eq!(find_from(&c, 0, '/'), 2);
    assert_eq!(find_from(&c, 2, '/'), 2);
    assert_eq!(find_from(&c, 3, '/'), 5);
    assert_eq!(find_from(&c, 6, '/'), 6);
    assert_eq!(find_from(&c, 7, '/'), 8);
    assert_eq!(find_from(&c, 8, '/'), 8);
    assert_eq!(find_from(&chars(""), 0, '/'), 0);
}

#[test]
fn characters_not_bytes() {
    let s = "é/ü/ß";
    assert_eq!(chars_of(s), vec!['é', '/', 'ü', '/', 'ß']);
    assert_eq!(substring(s, 2, 3), "ü");
    assert_eq!(substring(s, 0, 5), s);
    assert_eq!(substring(s, 4, 4), "");
}

#[test]
fn prefixes() {
    assert!(starts_with(&chars("cw20:addr"), "cw20:"));
    assert!(starts_with(&chars("cw20:"), "cw20:"));
    assert!(starts_with(&chars("anything"), ""));
    assert!(!starts_with(&chars("cw20"), "cw20:"));
    assert!(!starts_with(&chars("cw21:addr"), "cw20:"));
    assert!(!starts_with(&chars(""), "cw20:"));
}
