use vstd::prelude::*;
use crate::rate::Rate;

verus! {

/// A request to exchange currencies: the issuer receives `sum` units of the
/// incoming currency and pays `sum * rate` units of the outgoing currency.
#[derive(Clone, Copy, Debug, PartialEq, Eq, Structural)]
pub struct ExchangeCurrencyRequest {
    pub sum: i32,
    pub rate: Rate,
    pub order_issuer_id: i32,
    pub incoming_currency_id: i32,
    pub outgoing_currency_id: i32,
}

impl ExchangeCurrencyRequest {
    pub fn new(
        sum: i32,
        rate: Rate,
        order_issuer_id: i32,
        incoming_currency_id: i32,
        outgoing_currency_id: i32,
    ) -> (r: Self)
        ensures
            r == (ExchangeCurrencyRequest {
                sum,
                rate,
                order_issuer_id,
                incoming_currency_id,
                outgoing_currency_id,
            }),
    {
        ExchangeCurrencyRequest { sum, rate, order_issuer_id, incoming_currency_id, outgoing_currency_id }
    }

    /// What the caller must establish before the request reaches the engine.
    pub open spec fn is_valid(&self) -> bool {
        self.sum > 0 && self.rate.micros > 0
    }
}


/// A request to register a user.
#[derive(Clone, Debug)]
pub struct CreateUserRequest {
    pub username: String,
    pub email: String,
    pub password: String,
    pub firstname: String,
    pub middlename: Option<String>,
    pub lastname: String,
}

impl CreateUserRequest {
    pub fn new(
        username: String,
        email: String,
        password: String,
        firstname: String,
        middlename: Option<String>,
        lastname: String,
    ) -> (r: Self)
        ensures
            r.username == username,
            r.email == email,
            r.password == password,
            r.firstname == firstname,
            r.middlename == middlename,
            r.lastname == lastname,
    {
        CreateUserRequest { username, email, password, firstname, middlename, lastname }
    }
}

/// A request to log in.
#[derive(Clone, Debug)]
pub struct LoginRequest {
    pub username: String,
    pub password: String,
}

impl LoginRequest {
    pub fn new(username: String, password: String) -> (r: Self)
        ensures
            r.username == username,
            r.password == password,
    {
        LoginRequest { username, password }
    }
}

/// A request to open a user's first wallet, in one currency.
#[derive(Clone, Copy, Debug, PartialEq, Eq, Structural)]
pub struct CreateWalletRequest {
    pub user_id: i32,
    pub currency_id: i32,
}

impl CreateWalletRequest {
    pub fn new(user_id: i32, currency_id: i32) -> (r: Self)
        ensures
            r == (CreateWalletRequest { user_id, currency_id }),
    {
        CreateWalletRequest { user_id, currency_id }
    }
}

/// A request to add a wallet in another currency for a user who already
/// holds one.
#[derive(Clone, Copy, Debug, PartialEq, Eq, Structural)]
pub struct AddCurrencyRequest {
    pub user_id: i32,
    pub currency_id: i32,
}

impl AddCurrencyRequest {
    pub fn new(user_id: i32, currency_id: i32) -> (r: Self)
        ensures
            r == (AddCurrencyRequest { user_id, currency_id }),
    {
        AddCurrencyRequest { user_id, currency_id }
    }
}

/// A request to add a currency to the catalog.
#[derive(Clone, Debug)]
pub struct CreateCurrencyRequest {
    pub currency_code: String,
}

impl CreateCurrencyRequest {
    pub fn new(code: String) -> (r: Self)
        ensures
            r.currency_code == code,
    {
        CreateCurrencyRequest { currency_code: code }
    }
}

/// A request for a user's balance in the currency with a given code.
#[derive(Clone, Debug)]
pub struct BalanceRequest {
    pub wallet_id: i32,
    pub user_id: i32,
    pub currency_code: String,
}

/// A request to record a buy order.
#[derive(Clone, Copy, Debug, PartialEq, Eq, Structural)]
pub struct CreateBuyOrderRequest {
    pub issuer_id: i32,
    pub buy_amount: i32,
    pub buy_currency_id: i32,
    pub sell_currency_id: i32,
    pub expiry_days: i32,
}

impl CreateBuyOrderRequest {
    pub fn new(
        issuer_id: i32,
        buy_amount: i32,
        buy_currency_id: i32,
        sell_currency_id: i32,
        expiry_days: i32,
    ) -> (r: Self)
        ensures
            r == (CreateBuyOrderRequest {
                issuer_id,
                buy_amount,
                buy_currency_id,
                sell_currency_id,
                expiry_days,
            }),
    {
        CreateBuyOrderRequest { issuer_id, buy_amount, buy_currency_id, sell_currency_id, expiry_days }
    }
}

/// A request to record a sell order.
#[derive(Clone, Copy, Debug, PartialEq, Eq, Structural)]
pub struct CreateSellOrderRequest {
    pub issuer_id: i32,
    pub sell_amount: i32,
    pub sell_currency_id: i32,
    pub buy_currency_id: i32,
    pub expiry_days: i32,
}

impl CreateSellOrderRequest {
    pub fn new(
        issuer_id: i32,
        sell_amount: i32,
        sell_currency_id: i32,
        buy_currency_id: i32,
        expiry_days: i32,
    ) -> (r: Self)
        ensures
            r == (CreateSellOrderRequest {
                issuer_id,
                sell_amount,
                sell_currency_id,
                buy_currency_id,
                expiry_days,
            }),
    {
        CreateSellOrderRequest { issuer_id, sell_amount, sell_currency_id, buy_currency_id, expiry_days }
    }
}

/// How many buy orders to list.
#[derive(Clone, Copy, Debug, PartialEq, Eq, Structural)]
pub struct BuyOrderQueryParams {
    pub count: i64,
}

/// How many sell orders to list.
#[derive(Clone, Copy, Debug, PartialEq, Eq, Structural)]
pub struct SellOrderQueryParams {
    pub count: i64,
}

} // verus!
