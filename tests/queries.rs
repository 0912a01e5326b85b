use mexc_rs::deposit_address::DepositAddressQuery;
use mexc_rs::encode::form_encoded;
use mexc_rs::withdraw::{WithdrawHistoryQuery, WithdrawHistoryRequest, WithdrawQuery, WithdrawRequest};

const T: i64 = 1700000000000;

#[test]
fn deposit_query_without_network_has_only_coin_and_timestamp() {
    let q = DepositAddressQuery::new("USDT".to_string(), None, T);
    assert_eq!(q.to_query_string(), "coin=USDT&timestamp=1700000000000");
}

#[test]
fn deposit_query_with_network() {
    let q = DepositAddressQuery::new("USDT".to_string(), Some("TRC20".to_string()), T);
    assert_eq!(q.to_query_string(), "coin=USDT&network=TRC20&timestamp=1700000000000");
}

#[test]
fn deposit_query_with_receive_window() {
    let mut q = DepositAddressQuery::new("USDT".to_string(), None, T);
    q.recv_window = Some(5000);
    assert_eq!(q.to_query_string(), "coin=USDT&recvWindow=5000&timestamp=1700000000000");
}

#[test]
fn deposit_query_is_deterministic() {
    let a = DepositAddressQuery::new("USDT".to_string(), Some("TRC20".to_string()), T);
    let b = DepositAddressQuery::new("USDT".to_string(), Some("TRC20".to_string()), T);
    assert_eq!(a.to_query_string(), b.to_query_string());
    assert_eq!(a.to_query_string(), a.to_query_string());
}

#[test]
fn withdraw_query_field_order_and_omissions() {
    let request = WithdrawRequest {
        coin: "USDT".to_string(),
        withdraw_order_id: None,
        network: Some("TRC20".to_string()),
        address: "TXobiKkdciupZrhdvZyTSSLjE8CmZAufS".to_string(),
        memo: None,
        amount: "10".to_string(),
        remark: Some("Test withdrawal".to_string()),
    };
    let q = WithdrawQuery::new(request, T);
    assert_eq!(
        q.to_query_string(),
        "coin=USDT&netWork=TRC20&address=TXobiKkdciupZrhdvZyTSSLjE8CmZAufS&amount=10&remark=Test+withdrawal&timestamp=1700000000000"
    );
}

#[test]
fn withdraw_query_all_fields() {
    let request = WithdrawRequest {
        coin: "EOS".to_string(),
        withdraw_order_id: Some("id-1".to_string()),
        network: Some("EOS".to_string()),
        address: "addr".to_string(),
        memo: Some("m&m".to_string()),
        amount: "1.5".to_string(),
        remark: Some("r".to_string()),
    };
    let q = WithdrawQuery::new(request, 7);
    assert_eq!(
        q.to_query_string(),
        "coin=EOS&withdrawOrderId=id-1&netWork=EOS&address=addr&memo=m%26m&amount=1.5&remark=r&timestamp=7"
    );
}

#[test]
fn withdraw_history_without_filters_gets_defaults() {
    let q = WithdrawHistoryQuery::new(&WithdrawHistoryRequest::default(), T);
    assert_eq!(q.limit, Some(1000));
    assert_eq!(q.start_time, Some(T - 7 * 24 * 60 * 60 * 1000));
    assert_eq!(q.end_time, Some(T));
    assert_eq!(
        q.to_query_string(),
        "limit=1000&startTime=1699395200000&endTime=1700000000000&timestamp=1700000000000"
    );
}

#[test]
fn withdraw_history_keeps_given_filters_unchanged() {
    let request = WithdrawHistoryRequest {
        coin: Some("USDT".to_string()),
        status: Some("7".to_string()),
        limit: Some(5000),
        start_time: Some(-5),
        end_time: Some(20),
    };
    let q = WithdrawHistoryQuery::new(&request, T);
    assert_eq!(
        q.to_query_string(),
        "coin=USDT&status=7&limit=5000&startTime=-5&endTime=20&timestamp=1700000000000"
    );
    let small = WithdrawHistoryRequest { limit: Some(100), ..WithdrawHistoryRequest::default() };
    assert_eq!(small.with_defaults(T).limit, Some(100));
}

#[test]
fn withdraw_history_lookback_saturates() {
    let q = WithdrawHistoryQuery::new(&WithdrawHistoryRequest::default(), i64::MIN + 3);
    assert_eq!(q.start_time, Some(i64::MIN));
    assert!(q.to_query_string().contains("startTime=-9223372036854775808&"));
}

#[test]
fn form_encoding_of_reserved_and_non_ascii() {
    assert_eq!(form_encoded("a b&c=d/\u{e9}*-._~"), "a+b%26c%3Dd%2F%C3%A9*-._%7E");
    assert_eq!(form_encoded(""), "");
}
