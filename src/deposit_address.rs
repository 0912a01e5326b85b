//! Deposit-address lookup: the payload it returns and the query it sends.
use vstd::prelude::*;
use crate::query::{
    all_amp_free,
    join_params,
    lemma_all_amp_free_concat,
    lemma_int_param_injective,
    lemma_join_params_injective,
    lemma_opt_nat_param_amp_free,
    lemma_opt_text_param_amp_free,
    lemma_param_amp_free,
    lemma_text_param_injective,
    lemma_opt_text_param_by_view,
    opt_view,
    opt_nat_param,
    opt_text_param,
    param,
    text_param,
    QueryBuilder,
};
use crate::encode::{
    decimal_int,
    decimal_nat,
    form_encode,
    lemma_decimal_int_amp_free,
    lemma_form_encode_amp_free,
};

verus! {

/// One deposit address of a coin on a network.
#[derive(Clone, Debug)]
pub struct DepositAddress {
    pub coin: String,
    pub network: String,
    pub address: String,
    pub memo: Option<String>,
}

/// Query of `/api/v3/capital/deposit/address`; `timestamp` is in epoch milliseconds.
#[derive(Clone, Debug)]
pub struct DepositAddressQuery {
    pub coin: String,
    pub network: Option<String>,
    pub recv_window: Option<u64>,
    pub timestamp: i64,
}

impl DepositAddressQuery {
    /// Parameters in the order the exchange documents; absent ones are left out.
    pub open spec fn params(&self) -> Seq<Seq<char>> {
        seq![text_param("coin"@, self.coin@)]
            + opt_text_param("network"@, self.network)
            + opt_nat_param("recvWindow"@, self.recv_window)
            + seq![param("timestamp"@, decimal_int(self.timestamp as int))]
    }

    pub open spec fn canonical(&self) -> Seq<char> {
        join_params(self.params())
    }

    /// A query for `coin`, on `network` when given, at time `timestamp`.
    pub open spec fn spec_new(coin: String, network: Option<String>, timestamp: i64) -> DepositAddressQuery {
        DepositAddressQuery { coin, network, recv_window: None, timestamp }
    }

    /// A query for `coin`, on `network` when given, at time `timestamp`.
    pub fn new(coin: String, network: Option<String>, timestamp: i64) -> (r: DepositAddressQuery)
        ensures
            r == DepositAddressQuery::spec_new(coin, network, timestamp),
    {
        DepositAddressQuery { coin, network, recv_window: None, timestamp }
    }

    /// The canonical query string.
    pub fn to_query_string(&self) -> (r: String)
        ensures
            r@ == self.canonical(),
    {
        let mut b = QueryBuilder::new();
        b.push_text("coin", self.coin.as_str());
        b.push_opt_text("network", &self.network);
        b.push_opt_u64("recvWindow", self.recv_window);
        b.push_i64("timestamp", self.timestamp);
        assert(b.params() =~= self.params());
        b.finish()
    }
}

/// Two deposit-address queries with the same field values and the same
/// timestamp have the same canonical string.
pub proof fn lemma_deposit_address_query_deterministic(a: DepositAddressQuery, b: DepositAddressQuery)
    requires
        a.coin@ == b.coin@,
        opt_view(a.network) == opt_view(b.network),
        a.recv_window == b.recv_window,
        a.timestamp == b.timestamp,
    ensures
        a.canonical() == b.canonical(),
{
    lemma_opt_text_param_by_view("network"@, a.network, b.network);
    assert(a.params() == b.params());
}

/// A deposit-address query without network and receive window holds the coin
/// and the timestamp and nothing else.
pub proof fn lemma_deposit_address_query_omits_absent(q: DepositAddressQuery)
    requires
        q.network is None,
        q.recv_window is None,
    ensures
        q.canonical() == text_param("coin"@, q.coin@) + seq!['&'] + param(
            "timestamp"@,
            decimal_int(q.timestamp as int),
        ),
{
    let ps = q.params();
    assert(ps =~= seq![
        text_param("coin"@, q.coin@),
        param("timestamp"@, decimal_int(q.timestamp as int)),
    ]);
    assert(ps.drop_last() =~= seq![text_param("coin"@, q.coin@)]);
    assert(join_params(ps.drop_last()) == text_param("coin"@, q.coin@));
    assert(join_params(ps) == join_params(ps.drop_last()) + seq!['&'] + ps.last());
}

proof fn lemma_deposit_address_params_amp_free(q: DepositAddressQuery)
    ensures
        all_amp_free(q.params()),
{
    reveal_strlit("coin");
    reveal_strlit("network");
    reveal_strlit("recvWindow");
    reveal_strlit("timestamp");
    lemma_form_encode_amp_free(q.coin@);
    lemma_param_amp_free("coin"@, form_encode(q.coin@));
    lemma_decimal_int_amp_free(q.timestamp as int);
    lemma_param_amp_free("timestamp"@, decimal_int(q.timestamp as int));
    lemma_opt_text_param_amp_free("network"@, q.network);
    lemma_opt_nat_param_amp_free("recvWindow"@, q.recv_window);
    let first = seq![text_param("coin"@, q.coin@)];
    let last = seq![param("timestamp"@, decimal_int(q.timestamp as int))];
    assert(all_amp_free(first));
    assert(all_amp_free(last));
    lemma_all_amp_free_concat(first, opt_text_param("network"@, q.network));
    lemma_all_amp_free_concat(
        first + opt_text_param("network"@, q.network),
        opt_nat_param("recvWindow"@, q.recv_window),
    );
    lemma_all_amp_free_concat(
        first + opt_text_param("network"@, q.network) + opt_nat_param("recvWindow"@, q.recv_window),
        last,
    );
}

/// Two deposit-address queries with the same optional fields present have the
/// same canonical string only when every field value is the same: a change of
/// any value changes the string that is signed.
pub proof fn lemma_deposit_address_query_injective(a: DepositAddressQuery, b: DepositAddressQuery)
    requires
        a.network is Some <==> b.network is Some,
        a.recv_window is Some <==> b.recv_window is Some,
        a.canonical() == b.canonical(),
    ensures
        a.coin@ == b.coin@,
        opt_view(a.network) == opt_view(b.network),
        a.recv_window == b.recv_window,
        a.timestamp == b.timestamp,
{
    lemma_deposit_address_params_amp_free(a);
    lemma_deposit_address_params_amp_free(b);
    let pa = a.params();
    let pb = b.params();
    lemma_join_params_injective(pa, pb);
    assert(pa[0] == text_param("coin"@, a.coin@));
    assert(pb[0] == text_param("coin"@, b.coin@));
    lemma_text_param_injective("coin"@, a.coin@, b.coin@);
    assert(pa.last() == param("timestamp"@, decimal_int(a.timestamp as int)));
    assert(pb.last() == param("timestamp"@, decimal_int(b.timestamp as int)));
    lemma_int_param_injective("timestamp"@, a.timestamp as int, b.timestamp as int);
    if a.network is Some {
        assert(pa[1] == text_param("network"@, a.network->0@));
        assert(pb[1] == text_param("network"@, b.network->0@));
        lemma_text_param_injective("network"@, a.network->0@, b.network->0@);
    }
    if a.recv_window is Some {
        let k: int = if a.network is Some { 2 } else { 1 };
        assert(pa[k] == param("recvWindow"@, decimal_nat(a.recv_window->0 as nat)));
        assert(pb[k] == param("recvWindow"@, decimal_nat(b.recv_window->0 as nat)));
        assert(decimal_int(a.recv_window->0 as int) == decimal_nat(a.recv_window->0 as nat));
        assert(decimal_int(b.recv_window->0 as int) == decimal_nat(b.recv_window->0 as nat));
        lemma_int_param_injective("recvWindow"@, a.recv_window->0 as int, b.recv_window->0 as int);
    }
}

} // verus!
