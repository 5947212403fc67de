use comit_env::hexfmt::hex_digit_value_of;
use comit_env::hexfmt::left_pad_zeros;
use comit_env::hexfmt::parse_eth_address;
use comit_env::retry::RetryBudget;
use comit_env::retry::POLL_ATTEMPTS;

#[test]
fn hex_digits_read_in_both_cases() {
    assert_eq!(hex_digit_value_of('0'), Some(0));
    assert_eq!(hex_digit_value_of('9'), Some(9));
    assert_eq!(hex_digit_value_of('a'), Some(10));
    assert_eq!(hex_digit_value_of('F'), Some(15));
    assert_eq!(hex_digit_value_of('g'), None);
    assert_eq!(hex_digit_value_of(' '), None);
}

#[test]
fn parse_eth_address_reads_marked_and_bare_text() {
    let marked = parse_eth_address("0x7e5f4552091a69125d5dfcb7b8c2659029395bdf")
        .expect("forty digits behind a marker");
    assert_eq!(marked[0], 0x7e);
    assert_eq!(marked[19], 0xdf);
    let bare = parse_eth_address("7E5F4552091A69125D5DFCB7B8C2659029395BDF")
        .expect("forty digits, upper case");
    assert_eq!(marked, bare);
}

#[test]
fn parse_eth_address_rejects_wrong_shapes() {
    assert!(parse_eth_address("").is_none());
    assert!(parse_eth_address("0x1234").is_none());
    assert!(parse_eth_address("0xzz5f4552091a69125d5dfcb7b8c2659029395bdf").is_none());
    assert!(parse_eth_address("0x7e5f4552091a69125d5dfcb7b8c2659029395bdf00").is_none());
}

#[test]
fn left_pad_zeros_fills_to_the_width() {
    assert_eq!(left_pad_zeros("abc", 8), "00000abc");
    assert_eq!(left_pad_zeros("", 4), "0000");
    assert_eq!(left_pad_zeros("12345678", 8), "12345678");
}

#[test]
fn retry_budget_grants_exactly_its_attempts() {
    let mut budget = RetryBudget::new(3);
    assert!(budget.try_attempt());
    assert!(budget.try_attempt());
    assert!(budget.try_attempt());
    assert!(!budget.try_attempt());
    assert!(!budget.try_attempt());
    assert_eq!(budget.remaining, 0);
    assert_eq!(POLL_ATTEMPTS, 30);
}
