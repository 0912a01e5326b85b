use mexc_rs::sign::{sign_query, signature, Credentials};
use mexc_rs::withdraw::{WithdrawHistoryRequest, WithdrawRequest};

#[test]
fn signature_fixed_vector() {
    let s = signature("testsecret", "coin=USDT&network=TRC20&timestamp=1700000000000");
    assert_eq!(s, "37e3fcc7d5f1d628d64ba53f21202ae0d5c5538cbfe6bce4e7ad921c74d936c1");
    let again = signature("testsecret", "coin=USDT&network=TRC20&timestamp=1700000000000");
    assert_eq!(s, again);
}

#[test]
fn signature_changes_with_a_field() {
    let s = signature("testsecret", "coin=USDT&network=TRC20&timestamp=1700000000001");
    assert_eq!(s, "d8436f64623f610327c5b13152d3bb73d4ad230d22e527c1196d396bbd72fa2e");
    let other_key = signature("othersecret", "coin=USDT&network=TRC20&timestamp=1700000000000");
    assert_ne!(other_key, "37e3fcc7d5f1d628d64ba53f21202ae0d5c5538cbfe6bce4e7ad921c74d936c1");
}

#[test]
fn signature_of_empty_inputs() {
    assert_eq!(
        signature("", ""),
        "b613679a0814d9ec772f95d778c35fc5ff1697c493715653c6c712144292c5ad"
    );
}

#[test]
fn signed_deposit_query_with_network_fixed_vector() {
    let c = Credentials::new("key".to_string(), "testsecret".to_string());
    let s = c.signed_deposit_address_query("USDT".to_string(), Some("TRC20".to_string()), 1700000000000);
    assert_eq!(
        s,
        "coin=USDT&network=TRC20&timestamp=1700000000000&signature=37e3fcc7d5f1d628d64ba53f21202ae0d5c5538cbfe6bce4e7ad921c74d936c1"
    );
}

#[test]
fn signature_is_64_lowercase_hex_digits() {
    let s = signature("k", "a=b");
    assert_eq!(s.len(), 64);
    assert!(s.chars().all(|c| c.is_ascii_digit() || ('a'..='f').contains(&c)));
}

#[test]
fn sign_query_appends_signature_last() {
    let q = "coin=USDT&network=TRC20&timestamp=1700000000000";
    assert_eq!(
        sign_query("testsecret", q),
        "coin=USDT&network=TRC20&timestamp=1700000000000&signature=37e3fcc7d5f1d628d64ba53f21202ae0d5c5538cbfe6bce4e7ad921c74d936c1"
    );
}

#[test]
fn signed_deposit_query_omits_absent_network() {
    let c = Credentials::new("key".to_string(), "testsecret".to_string());
    let s = c.signed_deposit_address_query("USDT".to_string(), None, 1700000000000);
    assert_eq!(
        s,
        format!(
            "coin=USDT&timestamp=1700000000000&signature={}",
            signature("testsecret", "coin=USDT&timestamp=1700000000000")
        )
    );
    assert!(!s.contains("network"));
    let (unsigned, sig) = s.split_once("&signature=").unwrap();
    assert_eq!(sig, signature("testsecret", unsigned));
    assert_eq!(sig.len(), 64);
}

#[test]
fn signed_withdraw_query_is_stamped_and_signed() {
    let c = Credentials::new("key".to_string(), "testsecret".to_string());
    let request = WithdrawRequest {
        coin: "USDT".to_string(),
        withdraw_order_id: None,
        network: Some("TRC20".to_string()),
        address: "TXobiKkdciupZrhdvZyTSSLjE8CmZAufS".to_string(),
        memo: None,
        amount: "10".to_string(),
        remark: None,
    };
    let s = c.signed_withdraw_query(request, 1700000000000);
    assert!(s.starts_with("coin=USDT&netWork=TRC20&address=TXobiKkdciupZrhdvZyTSSLjE8CmZAufS&amount=10&timestamp=1700000000000&signature="));
    let (unsigned, sig) = s.split_once("&signature=").unwrap();
    assert_eq!(sig, signature("testsecret", unsigned));
}

#[test]
fn signed_history_query_fills_defaults_before_signing() {
    let c = Credentials::new("key".to_string(), "testsecret".to_string());
    let s = c.signed_withdraw_history_query(&WithdrawHistoryRequest::default(), 1700000000000);
    assert!(s.starts_with(
        "limit=1000&startTime=1699395200000&endTime=1700000000000&timestamp=1700000000000&signature="
    ));
    let (unsigned, sig) = s.split_once("&signature=").unwrap();
    assert_eq!(sig, signature("testsecret", unsigned));
    let parts: Vec<&str> = unsigned.split('&').collect();
    assert_eq!(parts.len(), 4);
    let value = |p: &str| p.split_once('=').unwrap().1.parse::<i64>().unwrap();
    let start = value(parts[1]);
    let end = value(parts[2]);
    let stamp = value(parts[3]);
    assert_eq!(end, stamp);
    assert_eq!(end - start, 604800000);
}
