use vstd::prelude::*;

verus! {

/// The answer when a user holds no wallet.
#[derive(Clone, Debug)]
pub struct WalletNotFoundResponse {
    message: String,
}

/// The answer when no currency has the requested code.
#[derive(Clone, Debug)]
pub struct CurrencyNotFoundResponse {
    message: String,
}

/// The answer when a user holds no wallet in the requested currency.
#[derive(Clone, Debug)]
pub struct BalanceNotFoundResponse {
    message: String,
}

/// The answer when a buy order cannot be recorded.
#[derive(Clone, Debug)]
pub struct CreateBuyOrderResponse {
    message: String,
}

/// The answer when a sell order cannot be recorded.
#[derive(Clone, Debug)]
pub struct CreateSellOrderResponse {
    message: String,
}

impl WalletNotFoundResponse {
    pub fn new(message: String) -> (r: Self)
        ensures
            r.message_spec() == message@,
    {
        WalletNotFoundResponse { message }
    }

    pub closed spec fn message_spec(&self) -> Seq<char> {
        self.message@
    }

    pub fn message(&self) -> (r: &String)
        ensures
            r@ == self.message_spec(),
    {
        &self.message
    }
}

impl CurrencyNotFoundResponse {
    pub fn new(message: String) -> (r: Self)
        ensures
            r.message_spec() == message@,
    {
        CurrencyNotFoundResponse { message }
    }

    pub closed spec fn message_spec(&self) -> Seq<char> {
        self.message@
    }

    pub fn message(&self) -> (r: &String)
        ensures
            r@ == self.message_spec(),
    {
        &self.message
    }
}

impl BalanceNotFoundResponse {
    pub fn new(message: String) -> (r: Self)
        ensures
            r.message_spec() == message@,
    {
        BalanceNotFoundResponse { message }
    }

    pub closed spec fn message_spec(&self) -> Seq<char> {
        self.message@
    }

    pub fn message(&self) -> (r: &String)
        ensures
            r@ == self.message_spec(),
    {
        &self.message
    }
}

impl CreateBuyOrderResponse {
    pub fn new(message: String) -> (r: Self)
        ensures
            r.message_spec() == message@,
    {
        CreateBuyOrderResponse { message }
    }

    pub closed spec fn message_spec(&self) -> Seq<char> {
        self.message@
    }

    pub fn message(&self) -> (r: &String)
        ensures
            r@ == self.message_spec(),
    {
        &self.message
    }
}

impl CreateSellOrderResponse {
    pub fn new(message: String) -> (r: Self)
        ensures
            r.message_spec() == message@,
    {
        CreateSellOrderResponse { message }
    }

    pub closed spec fn message_spec(&self) -> Seq<char> {
        self.message@
    }

    pub fn message(&self) -> (r: &String)
        ensures
            r@ == self.message_spec(),
    {
        &self.message
    }
}

} // verus!
