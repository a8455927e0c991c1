use vstd::prelude::*;

verus! {

/// One wallet: the holding of one user in one currency.
#[derive(Clone, Copy, Debug, PartialEq, Eq, Structural)]
pub struct Wallet {
    pub wallet_id: i32,
    pub user_id: i32,
    pub currency_id: i32,
}

/// An entry of the currency catalog.
#[derive(Clone, Debug)]
pub struct Currency {
    pub currency_id: i32,
    pub currency_code: String,
}

/// The amount held on one balance row, if the row exists.
#[derive(Clone, Copy, Debug, PartialEq, Eq, Structural)]
pub struct CurrencyAmount {
    pub amount: Option<i32>,
}

/// A wallet of a user together with what it holds.
#[derive(Clone, Copy, Debug, PartialEq, Eq, Structural)]
pub struct CurrencyBalance {
    pub user_id: Option<i32>,
    pub wallet_id: Option<i32>,
    pub amount: Option<i32>,
    pub currency_id: Option<i32>,
}

/// The wallet that receives currency in an exchange.
#[derive(Clone, Debug)]
pub struct IncomingCurrencyWallet {
    pub wallet_id: Option<i32>,
    pub currency_id: Option<i32>,
    pub currency_code: Option<String>,
}

/// The wallet that pays in an exchange.
#[derive(Clone, Debug)]
pub struct OutgoingCurrencyWallet {
    pub wallet_id: Option<i32>,
    pub currency_id: Option<i32>,
    pub currency_code: Option<String>,
}

/// The receiving wallet of an exchange with its current balance.
#[derive(Clone, Debug)]
pub struct IncomingCurrencyWalletWithBalance {
    pub wallet_id: i32,
    pub currency_id: i32,
    pub currency_code: String,
    pub amount: i32,
}

/// The paying wallet of an exchange with its current balance.
#[derive(Clone, Debug)]
pub struct OutgoingCurrencyWalletWithBalance {
    pub wallet_id: i32,
    pub currency_id: i32,
    pub currency_code: String,
    pub amount: i32,
}

/// One balance row as the store reports it after an exchange.
#[derive(Clone, Copy, Debug, PartialEq, Eq, Structural)]
pub struct CurrencyAmountQuery {
    pub id: Option<i32>,
    pub amount: Option<i32>,
    pub currency_id: Option<i32>,
    pub wallet_id: Option<i32>,
}

/// The settlement record of one exchange: the paying wallet's new balance
/// and the two wallets involved.
#[derive(Clone, Copy, Debug, PartialEq, Eq, Structural)]
pub struct ExchangeResult {
    pub resulting_amount: i32,
    pub incoming_wallet_id: i32,
    pub outgoing_wallet_id: i32,
}

impl ExchangeResult {
    /// The balance row of the paying wallet that this settlement leaves.
    pub fn to_amount_query(&self, outgoing_currency_id: i32) -> (r: CurrencyAmountQuery)
        ensures
            r == (CurrencyAmountQuery {
                id: Some(self.outgoing_wallet_id),
                amount: Some(self.resulting_amount),
                currency_id: Some(outgoing_currency_id),
                wallet_id: Some(self.outgoing_wallet_id),
            }),
    {
        CurrencyAmountQuery {
            id: Some(self.outgoing_wallet_id),
            amount: Some(self.resulting_amount),
            currency_id: Some(outgoing_currency_id),
            wallet_id: Some(self.outgoing_wallet_id),
        }
    }
}

/// A standing intent to buy `buy_currency_amount` of one currency against
/// another. Times are Unix timestamps in seconds.
#[derive(Clone, Copy, Debug, PartialEq, Eq, Structural)]
pub struct BuyOrder {
    pub buy_order_id: i32,
    pub issuer_id: i32,
    pub buy_currency_amount: i32,
    pub created_at: i64,
    pub updated_at: i64,
    pub expires_at: i64,
    pub buy_currency_id: i32,
    pub sell_currency_id: i32,
}

/// A standing intent to sell `sell_currency_amount` of one currency against
/// another. Times are Unix timestamps in seconds.
#[derive(Clone, Copy, Debug, PartialEq, Eq, Structural)]
pub struct SellOrder {
    pub sell_order_id: i32,
    pub issuer_id: i32,
    pub sell_currency_amount: i32,
    pub created_at: i64,
    pub updated_at: i64,
    pub expires_at: i64,
    pub sell_currency_id: i32,
    pub buy_currency_id: i32,
}

impl BuyOrder {
    /// An order is inert once the current time is past its expiry.
    pub open spec fn is_expired_spec(&self, now: i64) -> bool {
        now > self.expires_at
    }

    pub fn is_expired(&self, now: i64) -> (r: bool)
        ensures
            r == self.is_expired_spec(now),
    {
        now > self.expires_at
    }
}

impl SellOrder {
    /// An order is inert once the current time is past its expiry.
    pub open spec fn is_expired_spec(&self, now: i64) -> bool {
        now > self.expires_at
    }

    pub fn is_expired(&self, now: i64) -> (r: bool)
        ensures
            r == self.is_expired_spec(now),
    {
        now > self.expires_at
    }
}

} // verus!
