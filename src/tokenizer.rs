//! Plain-value parts of the tokenizer contract that deployments install:
//! its error codes, its storage keys, its amount checks and its price
//! formula.

use vstd::prelude::*;

verus! {

/// Errors that the tokenizer's entry points return.
#[derive(Debug, Clone, Copy, PartialEq, Eq, PartialOrd, Ord)]
pub enum ExcellarError {
    DepositMustBePositive,
    WithdrawalMustBePositive,
    InsufficientBalance,
}

impl ExcellarError {
    /// The error's code on the ledger.
    pub fn code(&self) -> (r: u32)
        ensures
            r == match *self {
                ExcellarError::DepositMustBePositive => 1u32,
                ExcellarError::WithdrawalMustBePositive => 2u32,
                ExcellarError::InsufficientBalance => 3u32,
            },
    {
        match self {
            ExcellarError::DepositMustBePositive => 1,
            ExcellarError::WithdrawalMustBePositive => 2,
            ExcellarError::InsufficientBalance => 3,
        }
    }
}

/// Keys of the tokenizer's persistent storage.
#[derive(Debug, Clone, Copy, PartialEq, Eq)]
pub enum DataKey {
    TokenUSDC,
    TokenXUSG,
    TotalXUSG,
    MarketETFPrice,
    ReservesCash,
    Admin,
    Fees,
}

impl DataKey {
    /// The integer under which the key is stored.
    pub fn to_u32(&self) -> (r: u32)
        ensures
            r == match *self {
                DataKey::TokenUSDC => 1u32,
                DataKey::TokenXUSG => 2u32,
                DataKey::TotalXUSG => 3u32,
                DataKey::MarketETFPrice => 5u32,
                DataKey::ReservesCash => 6u32,
                DataKey::Admin => 7u32,
                DataKey::Fees => 8u32,
            },
    {
        match self {
            DataKey::TokenUSDC => 1,
            DataKey::TokenXUSG => 2,
            DataKey::TotalXUSG => 3,
            DataKey::MarketETFPrice => 5,
            DataKey::ReservesCash => 6,
            DataKey::Admin => 7,
            DataKey::Fees => 8,
        }
    }
}

/// Checks that an amount is not negative; a negative one aborts the
/// contract call, so callers must not pass one.
pub fn require_positive(amount: i128)
    requires
        amount >= 0,
{
}

/// Checks that an amount is above zero; zero or a negative one aborts the
/// contract call, so callers must not pass one.
pub fn require_strictly_positive(amount: i128)
    requires
        amount > 0,
{
}

/// The net asset value that backs the token supply.
pub open spec fn net_assets(cash_reserves: int, fees: int, etf_market_value: int) -> int {
    etf_market_value + cash_reserves - fees
}

/// The token price: net assets divided by the supply, rounded toward zero,
/// or 1 while the supply is not positive or the net assets are zero.
pub open spec fn xusg_price(cash_reserves: int, fees: int, etf_market_value: int, total_xusg: int) -> int {
    let nav = net_assets(cash_reserves, fees, etf_market_value);
    if total_xusg <= 0 || nav == 0 {
        1
    } else if nav >= 0 {
        nav / total_xusg
    } else {
        -((-nav) / total_xusg)
    }
}

/// The token price from the contract's stored values.
pub fn calculate_xusg_price(cash_reserves: i128, fees: i128, etf_market_value: i128, total_xusg: i128) -> (r: i128)
    requires
        i128::MIN <= etf_market_value + cash_reserves <= i128::MAX,
        i128::MIN < etf_market_value + cash_reserves - fees <= i128::MAX,
    ensures
        r == xusg_price(cash_reserves as int, fees as int, etf_market_value as int, total_xusg as int),
{
    if total_xusg <= 0 {
        return 1;
    }
    let nav: i128 = etf_market_value + cash_reserves - fees;
    if nav == 0 {
        return 1;
    }
    if nav >= 0 {
        nav / total_xusg
    } else {
        let q: i128 = (-nav) / total_xusg;
        -q
    }
}

} // verus!
