//! Withdrawal submission and withdrawal history: payloads, requests and the
//! queries they become.
use vstd::prelude::*;
use crate::query::{
    all_amp_free,
    join_params,
    lemma_all_amp_free_concat,
    lemma_concat_split,
    lemma_int_param_injective,
    lemma_join_params_injective,
    lemma_opt_int_param_amp_free,
    lemma_opt_int_param_injective,
    lemma_opt_nat_param_amp_free,
    lemma_opt_nat_param_injective,
    lemma_opt_text_param_amp_free,
    lemma_opt_text_param_injective,
    lemma_param_amp_free,
    lemma_single_text_param_injective,
    lemma_opt_text_param_by_view,
    opt_view,
    opt_int_param,
    opt_nat_param,
    opt_text_param,
    param,
    text_param,
    QueryBuilder,
};
use crate::encode::{
    decimal_int,
    decimal_nat,
    form_encode,
    lemma_decimal_int_amp_free,
    lemma_form_encode_amp_free,
};

verus! {

/// Default number of records of a history query, and the most the exchange returns.
pub const HISTORY_LIMIT_MAX: u32 = 1000;

/// Default lookback of a history query: seven days, in milliseconds.
pub const HISTORY_LOOKBACK_MS: i64 = 604800000;

/// Identifier of an accepted withdrawal.
#[derive(Clone, Debug)]
pub struct WithdrawOutput {
    pub id: String,
}

/// One withdrawal as the history reports it.
#[derive(Clone, Debug)]
pub struct WithdrawHistoryRecord {
    pub address: String,
    pub amount: String,
    pub apply_time: String,
    pub coin: String,
    pub id: String,
    pub withdraw_order_id: Option<String>,
    pub network: Option<String>,
    pub transfer_type: String,
    pub status: String,
    pub transaction_fee: String,
    pub confirm_no: Option<i32>,
    pub tx_id: Option<String>,
    pub remark: Option<String>,
    pub memo: Option<String>,
    pub trans_hash: Option<String>,
    pub coin_id: Option<String>,
    pub vcoin_id: Option<String>,
}

/// A withdrawal to submit.
#[derive(Clone, Debug)]
pub struct WithdrawRequest {
    pub coin: String,
    pub withdraw_order_id: Option<String>,
    pub network: Option<String>,
    pub address: String,
    pub memo: Option<String>,
    pub amount: String,
    pub remark: Option<String>,
}

/// Filters of a withdrawal-history query; all optional.
#[derive(Clone, Debug, Default)]
pub struct WithdrawHistoryRequest {
    /// Specific cryptocurrency.
    pub coin: Option<String>,
    /// Withdrawal status filter.
    pub status: Option<String>,
    /// Default: 1000, Max: 1000.
    pub limit: Option<u32>,
    /// Default: seven days before the current time (in milliseconds).
    pub start_time: Option<i64>,
    /// Default: the current time (in milliseconds).
    pub end_time: Option<i64>,
}

/// `now` minus the default lookback, saturating at the smallest `i64`.
pub open spec fn lookback_start(now: i64) -> i64 {
    if now >= i64::MIN + HISTORY_LOOKBACK_MS {
        (now - HISTORY_LOOKBACK_MS) as i64
    } else {
        i64::MIN
    }
}

/// The limit sent: the one given, unchanged, or else the default.
pub open spec fn effective_limit(limit: Option<u32>) -> u32 {
    match limit {
        Some(l) => l,
        None => HISTORY_LIMIT_MAX,
    }
}

impl WithdrawHistoryRequest {
    /// The request with every absent field filled in for the time `now`: the
    /// default limit, the start seven days before `now`, the end at `now`.
    /// Values that are given are kept unchanged.
    pub fn with_defaults(&self, now: i64) -> (r: WithdrawHistoryRequest)
        ensures
            r.coin == self.coin,
            r.status == self.status,
            r.limit == Some(effective_limit(self.limit)),
            r.start_time == Some(
                match self.start_time {
                    Some(t) => t,
                    None => lookback_start(now),
                },
            ),
            r.end_time == Some(
                match self.end_time {
                    Some(t) => t,
                    None => now,
                },
            ),
    {
        let limit = match self.limit {
            Some(l) => l,
            None => HISTORY_LIMIT_MAX,
        };
        let start = match self.start_time {
            Some(t) => t,
            None => if now >= i64::MIN + HISTORY_LOOKBACK_MS {
                now - HISTORY_LOOKBACK_MS
            } else {
                i64::MIN
            },
        };
        let end = match self.end_time {
            Some(t) => t,
            None => now,
        };
        WithdrawHistoryRequest {
            coin: self.coin.clone(),
            status: self.status.clone(),
            limit: Some(limit),
            start_time: Some(start),
            end_time: Some(end),
        }
    }
}

/// Query of `/api/v3/capital/withdraw`; `timestamp` is in epoch milliseconds.
#[derive(Clone, Debug)]
pub struct WithdrawQuery {
    pub coin: String,
    pub withdraw_order_id: Option<String>,
    pub net_work: Option<String>,
    pub address: String,
    pub memo: Option<String>,
    pub amount: String,
    pub remark: Option<String>,
    pub recv_window: Option<u64>,
    pub timestamp: i64,
}

impl WithdrawQuery {
    /// Parameters in the order the exchange documents; absent ones are left out.
    pub open spec fn params(&self) -> Seq<Seq<char>> {
        seq![text_param("coin"@, self.coin@)]
            + opt_text_param("withdrawOrderId"@, self.withdraw_order_id)
            + opt_text_param("netWork"@, self.net_work)
            + seq![text_param("address"@, self.address@)]
            + opt_text_param("memo"@, self.memo)
            + seq![text_param("amount"@, self.amount@)]
            + opt_text_param("remark"@, self.remark)
            + opt_nat_param("recvWindow"@, self.recv_window)
            + seq![param("timestamp"@, decimal_int(self.timestamp as int))]
    }

    pub open spec fn canonical(&self) -> Seq<char> {
        join_params(self.params())
    }

    /// The query of `request` at time `timestamp`.
    pub open spec fn spec_new(request: WithdrawRequest, timestamp: i64) -> WithdrawQuery {
        WithdrawQuery {
            coin: request.coin,
            withdraw_order_id: request.withdraw_order_id,
            net_work: request.network,
            address: request.address,
            memo: request.memo,
            amount: request.amount,
            remark: request.remark,
            recv_window: None,
            timestamp,
        }
    }

    /// The query of `request` at time `timestamp`.
    pub fn new(request: WithdrawRequest, timestamp: i64) -> (r: WithdrawQuery)
        ensures
            r == WithdrawQuery::spec_new(request, timestamp),
    {
        WithdrawQuery {
            coin: request.coin,
            withdraw_order_id: request.withdraw_order_id,
            net_work: request.network,
            address: request.address,
            memo: request.memo,
            amount: request.amount,
            remark: request.remark,
            recv_window: None,
            timestamp,
        }
    }

    /// The canonical query string.
    pub fn to_query_string(&self) -> (r: String)
        ensures
            r@ == self.canonical(),
    {
        let mut b = QueryBuilder::new();
        b.push_text("coin", self.coin.as_str());
        b.push_opt_text("withdrawOrderId", &self.withdraw_order_id);
        b.push_opt_text("netWork", &self.net_work);
        b.push_text("address", self.address.as_str());
        b.push_opt_text("memo", &self.memo);
        b.push_text("amount", self.amount.as_str());
        b.push_opt_text("remark", &self.remark);
        b.push_opt_u64("recvWindow", self.recv_window);
        b.push_i64("timestamp", self.timestamp);
        assert(b.params() =~= self.params());
        b.finish()
    }
}

/// Query of `/api/v3/capital/withdraw/history`; times are in epoch milliseconds.
#[derive(Clone, Debug)]
pub struct WithdrawHistoryQuery {
    pub coin: Option<String>,
    pub status: Option<String>,
    pub limit: Option<u32>,
    pub start_time: Option<i64>,
    pub end_time: Option<i64>,
    pub recv_window: Option<u64>,
    pub timestamp: i64,
}

impl WithdrawHistoryQuery {
    /// Parameters in the order the exchange documents; absent ones are left out.
    pub open spec fn params(&self) -> Seq<Seq<char>> {
        opt_text_param("coin"@, self.coin)
            + opt_text_param("status"@, self.status)
            + opt_nat_param("limit"@, limit_as_u64(self.limit))
            + opt_int_param("startTime"@, self.start_time)
            + opt_int_param("endTime"@, self.end_time)
            + opt_nat_param("recvWindow"@, self.recv_window)
            + seq![param("timestamp"@, decimal_int(self.timestamp as int))]
    }

    pub open spec fn canonical(&self) -> Seq<char> {
        join_params(self.params())
    }

    /// The query of `request` at time `timestamp`, defaults filled in for that
    /// time: the default limit, the start seven
    /// days before `timestamp`, the end at `timestamp`.
    pub open spec fn spec_new(request: WithdrawHistoryRequest, timestamp: i64) -> WithdrawHistoryQuery {
        WithdrawHistoryQuery {
            coin: request.coin,
            status: request.status,
            limit: Some(effective_limit(request.limit)),
            start_time: Some(
                match request.start_time {
                    Some(t) => t,
                    None => lookback_start(timestamp),
                },
            ),
            end_time: Some(
                match request.end_time {
                    Some(t) => t,
                    None => timestamp,
                },
            ),
            recv_window: None,
            timestamp,
        }
    }

    /// The query of `request` at time `timestamp`, defaults filled in for that time.
    pub fn new(request: &WithdrawHistoryRequest, timestamp: i64) -> (r: WithdrawHistoryQuery)
        ensures
            r == WithdrawHistoryQuery::spec_new(*request, timestamp),
    {
        let filled = request.with_defaults(timestamp);
        WithdrawHistoryQuery {
            coin: filled.coin,
            status: filled.status,
            limit: filled.limit,
            start_time: filled.start_time,
            end_time: filled.end_time,
            recv_window: None,
            timestamp,
        }
    }

    /// The canonical query string.
    pub fn to_query_string(&self) -> (r: String)
        ensures
            r@ == self.canonical(),
    {
        let mut b = QueryBuilder::new();
        b.push_opt_text("coin", &self.coin);
        b.push_opt_text("status", &self.status);
        let limit: Option<u64> = match self.limit {
            Some(l) => Some(l as u64),
            None => None,
        };
        b.push_opt_u64("limit", limit);
        b.push_opt_i64("startTime", self.start_time);
        b.push_opt_i64("endTime", self.end_time);
        b.push_opt_u64("recvWindow", self.recv_window);
        b.push_i64("timestamp", self.timestamp);
        assert(b.params() =~= self.params());
        b.finish()
    }
}

/// Two withdrawal queries with the same field values and the same timestamp
/// have the same canonical string.
pub proof fn lemma_withdraw_query_deterministic(a: WithdrawQuery, b: WithdrawQuery)
    requires
        a.coin@ == b.coin@,
        opt_view(a.withdraw_order_id) == opt_view(b.withdraw_order_id),
        opt_view(a.net_work) == opt_view(b.net_work),
        a.address@ == b.address@,
        opt_view(a.memo) == opt_view(b.memo),
        a.amount@ == b.amount@,
        opt_view(a.remark) == opt_view(b.remark),
        a.recv_window == b.recv_window,
        a.timestamp == b.timestamp,
    ensures
        a.canonical() == b.canonical(),
{
    lemma_opt_text_param_by_view("withdrawOrderId"@, a.withdraw_order_id, b.withdraw_order_id);
    lemma_opt_text_param_by_view("netWork"@, a.net_work, b.net_work);
    lemma_opt_text_param_by_view("memo"@, a.memo, b.memo);
    lemma_opt_text_param_by_view("remark"@, a.remark, b.remark);
    assert(a.params() == b.params());
}

/// Two withdrawal-history queries with the same field values and the same
/// timestamp have the same canonical string.
pub proof fn lemma_withdraw_history_query_deterministic(a: WithdrawHistoryQuery, b: WithdrawHistoryQuery)
    requires
        opt_view(a.coin) == opt_view(b.coin),
        opt_view(a.status) == opt_view(b.status),
        a.limit == b.limit,
        a.start_time == b.start_time,
        a.end_time == b.end_time,
        a.recv_window == b.recv_window,
        a.timestamp == b.timestamp,
    ensures
        a.canonical() == b.canonical(),
{
    lemma_opt_text_param_by_view("coin"@, a.coin, b.coin);
    lemma_opt_text_param_by_view("status"@, a.status, b.status);
    assert(a.params() == b.params());
}

/// A history request without filters is sent with the maximum limit and a
/// window from seven days before the timestamp up to the timestamp.
pub proof fn lemma_withdraw_history_defaults(request: WithdrawHistoryRequest, timestamp: i64)
    requires
        request.coin is None,
        request.status is None,
        request.limit is None,
        request.start_time is None,
        request.end_time is None,
    ensures
        WithdrawHistoryQuery::spec_new(request, timestamp).params() == seq![
            param("limit"@, decimal_nat(HISTORY_LIMIT_MAX as nat)),
            param("startTime"@, decimal_int(lookback_start(timestamp) as int)),
            param("endTime"@, decimal_int(timestamp as int)),
            param("timestamp"@, decimal_int(timestamp as int)),
        ],
{
    let q = WithdrawHistoryQuery::spec_new(request, timestamp);
    assert(q.params() =~= seq![
        param("limit"@, decimal_nat(HISTORY_LIMIT_MAX as nat)),
        param("startTime"@, decimal_int(lookback_start(timestamp) as int)),
        param("endTime"@, decimal_int(timestamp as int)),
        param("timestamp"@, decimal_int(timestamp as int)),
    ]);
}

proof fn lemma_text_single_amp_free(name: Seq<char>, value: Seq<char>)
    requires
        crate::encode::amp_free(name),
    ensures
        all_amp_free(seq![text_param(name, value)]),
{
    lemma_form_encode_amp_free(value);
    lemma_param_amp_free(name, form_encode(value));
}

proof fn lemma_timestamp_single_amp_free(t: i64)
    ensures
        all_amp_free(seq![param("timestamp"@, decimal_int(t as int))]),
{
    reveal_strlit("timestamp");
    lemma_decimal_int_amp_free(t as int);
    lemma_param_amp_free("timestamp"@, decimal_int(t as int));
}

proof fn lemma_withdraw_params_amp_free(q: WithdrawQuery)
    ensures
        all_amp_free(q.params()),
{
    reveal_strlit("coin");
    reveal_strlit("withdrawOrderId");
    reveal_strlit("netWork");
    reveal_strlit("address");
    reveal_strlit("memo");
    reveal_strlit("amount");
    reveal_strlit("remark");
    reveal_strlit("recvWindow");
    let s1 = seq![text_param("coin"@, q.coin@)];
    let o2 = opt_text_param("withdrawOrderId"@, q.withdraw_order_id);
    let o3 = opt_text_param("netWork"@, q.net_work);
    let s4 = seq![text_param("address"@, q.address@)];
    let o5 = opt_text_param("memo"@, q.memo);
    let s6 = seq![text_param("amount"@, q.amount@)];
    let o7 = opt_text_param("remark"@, q.remark);
    let o8 = opt_nat_param("recvWindow"@, q.recv_window);
    let s9 = seq![param("timestamp"@, decimal_int(q.timestamp as int))];
    lemma_text_single_amp_free("coin"@, q.coin@);
    lemma_opt_text_param_amp_free("withdrawOrderId"@, q.withdraw_order_id);
    lemma_opt_text_param_amp_free("netWork"@, q.net_work);
    lemma_text_single_amp_free("address"@, q.address@);
    lemma_opt_text_param_amp_free("memo"@, q.memo);
    lemma_text_single_amp_free("amount"@, q.amount@);
    lemma_opt_text_param_amp_free("remark"@, q.remark);
    lemma_opt_nat_param_amp_free("recvWindow"@, q.recv_window);
    lemma_timestamp_single_amp_free(q.timestamp);
    lemma_all_amp_free_concat(s1, o2);
    lemma_all_amp_free_concat(s1 + o2, o3);
    lemma_all_amp_free_concat(s1 + o2 + o3, s4);
    lemma_all_amp_free_concat(s1 + o2 + o3 + s4, o5);
    lemma_all_amp_free_concat(s1 + o2 + o3 + s4 + o5, s6);
    lemma_all_amp_free_concat(s1 + o2 + o3 + s4 + o5 + s6, o7);
    lemma_all_amp_free_concat(s1 + o2 + o3 + s4 + o5 + s6 + o7, o8);
    lemma_all_amp_free_concat(s1 + o2 + o3 + s4 + o5 + s6 + o7 + o8, s9);
}

/// Two withdrawal queries with the same optional fields present have the
/// same canonical string only when every field value is the same: a change of
/// any value changes the string that is signed.
pub proof fn lemma_withdraw_query_injective(a: WithdrawQuery, b: WithdrawQuery)
    requires
        a.withdraw_order_id is Some <==> b.withdraw_order_id is Some,
        a.net_work is Some <==> b.net_work is Some,
        a.memo is Some <==> b.memo is Some,
        a.remark is Some <==> b.remark is Some,
        a.recv_window is Some <==> b.recv_window is Some,
        a.canonical() == b.canonical(),
    ensures
        a.coin@ == b.coin@,
        opt_view(a.withdraw_order_id) == opt_view(b.withdraw_order_id),
        opt_view(a.net_work) == opt_view(b.net_work),
        a.address@ == b.address@,
        opt_view(a.memo) == opt_view(b.memo),
        a.amount@ == b.amount@,
        opt_view(a.remark) == opt_view(b.remark),
        a.recv_window == b.recv_window,
        a.timestamp == b.timestamp,
{
    lemma_withdraw_params_amp_free(a);
    lemma_withdraw_params_amp_free(b);
    lemma_join_params_injective(a.params(), b.params());
    let a1 = seq![text_param("coin"@, a.coin@)];
    let a2 = opt_text_param("withdrawOrderId"@, a.withdraw_order_id);
    let a3 = opt_text_param("netWork"@, a.net_work);
    let a4 = seq![text_param("address"@, a.address@)];
    let a5 = opt_text_param("memo"@, a.memo);
    let a6 = seq![text_param("amount"@, a.amount@)];
    let a7 = opt_text_param("remark"@, a.remark);
    let a8 = opt_nat_param("recvWindow"@, a.recv_window);
    let a9 = seq![param("timestamp"@, decimal_int(a.timestamp as int))];
    let b1 = seq![text_param("coin"@, b.coin@)];
    let b2 = opt_text_param("withdrawOrderId"@, b.withdraw_order_id);
    let b3 = opt_text_param("netWork"@, b.net_work);
    let b4 = seq![text_param("address"@, b.address@)];
    let b5 = opt_text_param("memo"@, b.memo);
    let b6 = seq![text_param("amount"@, b.amount@)];
    let b7 = opt_text_param("remark"@, b.remark);
    let b8 = opt_nat_param("recvWindow"@, b.recv_window);
    let b9 = seq![param("timestamp"@, decimal_int(b.timestamp as int))];
    lemma_concat_split(a1 + a2 + a3 + a4 + a5 + a6 + a7 + a8, a9, b1 + b2 + b3 + b4 + b5 + b6 + b7 + b8, b9);
    lemma_concat_split(a1 + a2 + a3 + a4 + a5 + a6 + a7, a8, b1 + b2 + b3 + b4 + b5 + b6 + b7, b8);
    lemma_concat_split(a1 + a2 + a3 + a4 + a5 + a6, a7, b1 + b2 + b3 + b4 + b5 + b6, b7);
    lemma_concat_split(a1 + a2 + a3 + a4 + a5, a6, b1 + b2 + b3 + b4 + b5, b6);
    lemma_concat_split(a1 + a2 + a3 + a4, a5, b1 + b2 + b3 + b4, b5);
    lemma_concat_split(a1 + a2 + a3, a4, b1 + b2 + b3, b4);
    lemma_concat_split(a1 + a2, a3, b1 + b2, b3);
    lemma_concat_split(a1, a2, b1, b2);
    lemma_single_text_param_injective("coin"@, a.coin@, b.coin@);
    lemma_opt_text_param_injective("withdrawOrderId"@, a.withdraw_order_id, b.withdraw_order_id);
    lemma_opt_text_param_injective("netWork"@, a.net_work, b.net_work);
    lemma_single_text_param_injective("address"@, a.address@, b.address@);
    lemma_opt_text_param_injective("memo"@, a.memo, b.memo);
    lemma_single_text_param_injective("amount"@, a.amount@, b.amount@);
    lemma_opt_text_param_injective("remark"@, a.remark, b.remark);
    lemma_opt_nat_param_injective("recvWindow"@, a.recv_window, b.recv_window);
    assert(a9[0] == b9[0]);
    lemma_int_param_injective("timestamp"@, a.timestamp as int, b.timestamp as int);
}

/// The limit as the query writes it.
pub open spec fn limit_as_u64(limit: Option<u32>) -> Option<u64> {
    match limit {
        Some(l) => Some(l as u64),
        None => None,
    }
}

proof fn lemma_withdraw_history_params_amp_free(q: WithdrawHistoryQuery)
    ensures
        all_amp_free(q.params()),
{
    reveal_strlit("coin");
    reveal_strlit("status");
    reveal_strlit("limit");
    reveal_strlit("startTime");
    reveal_strlit("endTime");
    reveal_strlit("recvWindow");
    let o1 = opt_text_param("coin"@, q.coin);
    let o2 = opt_text_param("status"@, q.status);
    let o3 = opt_nat_param("limit"@, limit_as_u64(q.limit));
    let o4 = opt_int_param("startTime"@, q.start_time);
    let o5 = opt_int_param("endTime"@, q.end_time);
    let o6 = opt_nat_param("recvWindow"@, q.recv_window);
    let s7 = seq![param("timestamp"@, decimal_int(q.timestamp as int))];
    assert(q.params() == o1 + o2 + o3 + o4 + o5 + o6 + s7);
    lemma_opt_text_param_amp_free("coin"@, q.coin);
    lemma_opt_text_param_amp_free("status"@, q.status);
    lemma_opt_nat_param_amp_free("limit"@, limit_as_u64(q.limit));
    lemma_opt_int_param_amp_free("startTime"@, q.start_time);
    lemma_opt_int_param_amp_free("endTime"@, q.end_time);
    lemma_opt_nat_param_amp_free("recvWindow"@, q.recv_window);
    lemma_timestamp_single_amp_free(q.timestamp);
    lemma_all_amp_free_concat(o1, o2);
    lemma_all_amp_free_concat(o1 + o2, o3);
    lemma_all_amp_free_concat(o1 + o2 + o3, o4);
    lemma_all_amp_free_concat(o1 + o2 + o3 + o4, o5);
    lemma_all_amp_free_concat(o1 + o2 + o3 + o4 + o5, o6);
    lemma_all_amp_free_concat(o1 + o2 + o3 + o4 + o5 + o6, s7);
}

/// Two withdrawal-history queries with the same optional fields present have
/// the same canonical string only when every field value is the same: a
/// change of any value changes the string that is signed.
pub proof fn lemma_withdraw_history_query_injective(a: WithdrawHistoryQuery, b: WithdrawHistoryQuery)
    requires
        a.coin is Some <==> b.coin is Some,
        a.status is Some <==> b.status is Some,
        a.limit is Some <==> b.limit is Some,
        a.start_time is Some <==> b.start_time is Some,
        a.end_time is Some <==> b.end_time is Some,
        a.recv_window is Some <==> b.recv_window is Some,
        a.canonical() == b.canonical(),
    ensures
        opt_view(a.coin) == opt_view(b.coin),
        opt_view(a.status) == opt_view(b.status),
        a.limit == b.limit,
        a.start_time == b.start_time,
        a.end_time == b.end_time,
        a.recv_window == b.recv_window,
        a.timestamp == b.timestamp,
{
    lemma_withdraw_history_params_amp_free(a);
    lemma_withdraw_history_params_amp_free(b);
    lemma_join_params_injective(a.params(), b.params());
    let a1 = opt_text_param("coin"@, a.coin);
    let a2 = opt_text_param("status"@, a.status);
    let a3 = opt_nat_param("limit"@, limit_as_u64(a.limit));
    let a4 = opt_int_param("startTime"@, a.start_time);
    let a5 = opt_int_param("endTime"@, a.end_time);
    let a6 = opt_nat_param("recvWindow"@, a.recv_window);
    let a7 = seq![param("timestamp"@, decimal_int(a.timestamp as int))];
    let b1 = opt_text_param("coin"@, b.coin);
    let b2 = opt_text_param("status"@, b.status);
    let b3 = opt_nat_param("limit"@, limit_as_u64(b.limit));
    let b4 = opt_int_param("startTime"@, b.start_time);
    let b5 = opt_int_param("endTime"@, b.end_time);
    let b6 = opt_nat_param("recvWindow"@, b.recv_window);
    let b7 = seq![param("timestamp"@, decimal_int(b.timestamp as int))];
    assert(a.params() == a1 + a2 + a3 + a4 + a5 + a6 + a7);
    assert(b.params() == b1 + b2 + b3 + b4 + b5 + b6 + b7);
    lemma_concat_split(a1 + a2 + a3 + a4 + a5 + a6, a7, b1 + b2 + b3 + b4 + b5 + b6, b7);
    lemma_concat_split(a1 + a2 + a3 + a4 + a5, a6, b1 + b2 + b3 + b4 + b5, b6);
    lemma_concat_split(a1 + a2 + a3 + a4, a5, b1 + b2 + b3 + b4, b5);
    lemma_concat_split(a1 + a2 + a3, a4, b1 + b2 + b3, b4);
    lemma_concat_split(a1 + a2, a3, b1 + b2, b3);
    lemma_concat_split(a1, a2, b1, b2);
    lemma_opt_text_param_injective("coin"@, a.coin, b.coin);
    lemma_opt_text_param_injective("status"@, a.status, b.status);
    lemma_opt_nat_param_injective("limit"@, limit_as_u64(a.limit), limit_as_u64(b.limit));
    lemma_opt_int_param_injective("startTime"@, a.start_time, b.start_time);
    lemma_opt_int_param_injective("endTime"@, a.end_time, b.end_time);
    lemma_opt_nat_param_injective("recvWindow"@, a.recv_window, b.recv_window);
    assert(a7[0] == b7[0]);
    lemma_int_param_injective("timestamp"@, a.timestamp as int, b.timestamp as int);
}

} // verus!
