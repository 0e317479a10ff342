//! User balance API: `GET /user/balance`.
use vstd::prelude::*;

verus! {

/// Route of the balance endpoint.
pub const BALANCE_ROUTE: &'static str = "/user/balance";

/// Account balance response.
#[derive(Debug, Clone, PartialEq, Eq)]
pub struct Balance {
    /// Whether the user's balance is sufficient for API calls.
    pub is_available: bool,
    pub balance_infos: Vec<BalanceInfo>,
}

/// Balance entry by currency.
#[derive(Debug, Clone, PartialEq, Eq)]
pub struct BalanceInfo {
    /// The currency of the balance (CNY, USD).
    pub currency: String,
    /// The total available balance, including the granted balance and the topped-up balance.
    pub total_balance: String,
    /// The total not expired granted balance.
    pub granted_balance: String,
    /// The total topped-up balance.
    pub topped_up_balance: String,
}

} // verus!
