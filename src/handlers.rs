use vstd::prelude::*;
use vstd::string::StringExecFns;
use crate::api_models::{
    AddCurrencyRequest,
    BalanceRequest,
    CreateCurrencyRequest,
    CreateWalletRequest,
    BuyOrderQueryParams,
    CreateBuyOrderRequest,
    CreateSellOrderRequest,
    ExchangeCurrencyRequest,
    SellOrderQueryParams,
};
use crate::errors::DataError;
use crate::ledger::{add_currency_spec, create_wallet_spec, exchange_spec, BalanceLookup, Ledger};
use crate::models::{BuyOrder, Currency, ExchangeResult, SellOrder, Wallet};
use crate::orders::{create_buy_order_spec, create_sell_order_spec, first_n, OrderBook};
use crate::responses::{CreateBuyOrderResponse, CreateSellOrderResponse};
use crate::transaction::{BuyTransactionManager, SellTransactionManager, Transaction, TransactionType};

verus! {

/// How a request to exchange currencies is answered.
#[derive(Clone, Debug)]
pub enum ExchangeResponse {
    /// The exchange was settled.
    Settled(ExchangeResult),
    /// The caller is not authenticated as the issuer of the request.
    Unauthorized,
    /// The sum or the rate is not positive.
    Invalid,
    /// The engine refused or failed the exchange.
    Failed(DataError),
}

/// Why a listing of orders is refused.
#[derive(Clone, Copy, Debug, PartialEq, Eq, Structural)]
pub enum OrdersRefusal {
    /// The request carries no credentials.
    Unauthorized,
    /// The requested count is negative.
    NotFound,
}

/// Why an administrative request is refused.
#[derive(Clone, Debug)]
pub enum AdminRefusal {
    /// The request carries no credentials.
    MissingAuthorization,
    /// The caller asks on behalf of another user.
    IncorrectUserId,
    /// The ledger refused the change.
    Failed(DataError),
}

/// The answer to an administrative request from the right caller, given the
/// ledger's own outcome.
pub open spec fn admin_answer<T>(r: Result<T, AdminRefusal>, settled: Result<T, crate::errors::ErrorKind>) -> bool {
    match r {
        Ok(v) => settled == Ok::<T, crate::errors::ErrorKind>(v),
        Err(AdminRefusal::Failed(e)) => settled == Err::<T, crate::errors::ErrorKind>(e.kind_spec()),
        Err(_) => false,
    }
}

/// Answers a request to add a currency to the catalog.
pub fn create_currency(ledger: &mut Ledger, authorized: bool, request: &CreateCurrencyRequest) -> (r: Result<
    Currency,
    AdminRefusal,
>)
    requires
        old(ledger).wf(),
    ensures
        final(ledger).wf(),
        !authorized ==> final(ledger)@ == old(ledger)@ && r is Err && r->Err_0 is MissingAuthorization,
        authorized ==> (r is Ok <==> old(ledger)@.find_currency(request.currency_code@) is None
            && old(ledger)@.currencies.len() < i32::MAX),
        authorized && r is Ok ==> final(ledger)@.currencies == old(ledger)@.currencies.push(r->Ok_0)
            && r->Ok_0.currency_code@ == request.currency_code@,
        authorized && r is Err ==> final(ledger)@ == old(ledger)@ && r->Err_0 is Failed,
        authorized && old(ledger)@.find_currency(request.currency_code@) is Some ==> r is Err && r->Err_0
            is Failed && r->Err_0->Failed_0.kind_spec() == crate::errors::ErrorKind::DuplicateEntry,
{
    if !authorized {
        return Err(AdminRefusal::MissingAuthorization);
    }
    match ledger.create_currency(request) {
        Ok(c) => Ok(c),
        Err(e) => Err(AdminRefusal::Failed(e)),
    }
}

/// Answers a request to open a wallet; only for the caller's own user id.
pub fn create_wallet(ledger: &mut Ledger, caller_id: Option<i32>, request: &CreateWalletRequest) -> (r: Result<
    Wallet,
    AdminRefusal,
>)
    requires
        old(ledger).wf(),
    ensures
        final(ledger).wf(),
        caller_id is None ==> final(ledger)@ == old(ledger)@ && r is Err && r->Err_0 is MissingAuthorization,
        caller_id is Some && caller_id != Some(request.user_id) ==> final(ledger)@ == old(ledger)@ && r is Err
            && r->Err_0 is IncorrectUserId,
        caller_id == Some(request.user_id) ==> {
            let (next, settled) = create_wallet_spec(old(ledger)@, request.user_id as int, request.currency_id as int);
            final(ledger)@ == next && admin_answer(r, settled)
        },
{
    match caller_id {
        None => {
            return Err(AdminRefusal::MissingAuthorization);
        },
        Some(id) => {
            if id != request.user_id {
                return Err(AdminRefusal::IncorrectUserId);
            }
        },
    }
    match ledger.create_wallet(request) {
        Ok(w) => Ok(w),
        Err(e) => Err(AdminRefusal::Failed(e)),
    }
}

/// Answers a request to add a wallet in another currency; only for the
/// caller's own user id.
pub fn add_currency_to_wallet(ledger: &mut Ledger, caller_id: Option<i32>, request: &AddCurrencyRequest) -> (r:
    Result<Wallet, AdminRefusal>)
    requires
        old(ledger).wf(),
    ensures
        final(ledger).wf(),
        caller_id is None ==> final(ledger)@ == old(ledger)@ && r is Err && r->Err_0 is MissingAuthorization,
        caller_id is Some && caller_id != Some(request.user_id) ==> final(ledger)@ == old(ledger)@ && r is Err
            && r->Err_0 is IncorrectUserId,
        caller_id == Some(request.user_id) ==> {
            let (next, settled) = add_currency_spec(old(ledger)@, request.user_id as int, request.currency_id as int);
            final(ledger)@ == next && admin_answer(r, settled)
        },
{
    match caller_id {
        None => {
            return Err(AdminRefusal::MissingAuthorization);
        },
        Some(id) => {
            if id != request.user_id {
                return Err(AdminRefusal::IncorrectUserId);
            }
        },
    }
    match ledger.add_currency(request) {
        Ok(w) => Ok(w),
        Err(e) => Err(AdminRefusal::Failed(e)),
    }
}

/// Answers a request for the whole currency catalog; `None` without
/// credentials.
pub fn currencies(ledger: &Ledger, authorized: bool) -> (r: Option<Vec<Currency>>)
    requires
        ledger.wf(),
    ensures
        !authorized <==> r is None,
        r is Some ==> r->Some_0@ == ledger@.currencies,
{
    if !authorized {
        return None;
    }
    Some(ledger.all_currencies())
}

/// The answer of an exchange request from an authenticated caller, as the
/// engine settles it on `before`.
pub open spec fn exchange_answer(r: ExchangeResponse, before: crate::ledger::LedgerModel, request: ExchangeCurrencyRequest) -> bool {
    match r {
        ExchangeResponse::Settled(x) => exchange_spec(before, request).1 == Ok::<ExchangeResult, crate::errors::ErrorKind>(x),
        ExchangeResponse::Failed(e) => exchange_spec(before, request).1 == Err::<ExchangeResult, crate::errors::ErrorKind>(e.kind_spec()),
        _ => false,
    }
}

fn exchange_as(
    ledger: &mut Ledger,
    transaction_type: TransactionType,
    caller_id: Option<i32>,
    request: &ExchangeCurrencyRequest,
) -> (r: ExchangeResponse)
    requires
        old(ledger).wf(),
    ensures
        final(ledger).wf(),
        caller_id != Some(request.order_issuer_id) ==> r is Unauthorized && final(ledger)@ == old(ledger)@,
        caller_id == Some(request.order_issuer_id) && !request.is_valid() ==> r is Invalid && final(ledger)@
            == old(ledger)@,
        caller_id == Some(request.order_issuer_id) && request.is_valid() ==> {
            &&& final(ledger)@ == exchange_spec(old(ledger)@, *request).0
            &&& exchange_answer(r, old(ledger)@, *request)
        },
{
    match caller_id {
        Some(id) => {
            if id != request.order_issuer_id {
                return ExchangeResponse::Unauthorized;
            }
        },
        None => {
            return ExchangeResponse::Unauthorized;
        },
    }
    if request.sum <= 0 || request.rate.micros == 0 {
        return ExchangeResponse::Invalid;
    }
    let tx = Transaction::new(
        transaction_type,
        request.sum,
        request.rate,
        request.order_issuer_id,
        request.incoming_currency_id,
        request.outgoing_currency_id,
    );
    let result = match transaction_type {
        TransactionType::Buy => tx.process_buy_transaction(ledger),
        TransactionType::Sell => tx.process_sell_transaction(ledger),
    };
    match result {
        Ok(x) => ExchangeResponse::Settled(x),
        Err(e) => ExchangeResponse::Failed(e),
    }
}

/// Answers a request to buy currency. `caller_id` is the authenticated
/// user, `None` when the request carries no credentials; only the issuer of
/// the request may execute it.
pub fn buy_currency(ledger: &mut Ledger, caller_id: Option<i32>, request: &ExchangeCurrencyRequest) -> (r:
    ExchangeResponse)
    requires
        old(ledger).wf(),
    ensures
        final(ledger).wf(),
        caller_id != Some(request.order_issuer_id) ==> r is Unauthorized && final(ledger)@ == old(ledger)@,
        caller_id == Some(request.order_issuer_id) && !request.is_valid() ==> r is Invalid && final(ledger)@
            == old(ledger)@,
        caller_id == Some(request.order_issuer_id) && request.is_valid() ==> {
            &&& final(ledger)@ == exchange_spec(old(ledger)@, *request).0
            &&& exchange_answer(r, old(ledger)@, *request)
        },
{
    exchange_as(ledger, TransactionType::Buy, caller_id, request)
}

/// Answers a request to sell currency; settles exactly as a buy does.
pub fn sell_currency(ledger: &mut Ledger, caller_id: Option<i32>, request: &ExchangeCurrencyRequest) -> (r:
    ExchangeResponse)
    requires
        old(ledger).wf(),
    ensures
        final(ledger).wf(),
        caller_id != Some(request.order_issuer_id) ==> r is Unauthorized && final(ledger)@ == old(ledger)@,
        caller_id == Some(request.order_issuer_id) && !request.is_valid() ==> r is Invalid && final(ledger)@
            == old(ledger)@,
        caller_id == Some(request.order_issuer_id) && request.is_valid() ==> {
            &&& final(ledger)@ == exchange_spec(old(ledger)@, *request).0
            &&& exchange_answer(r, old(ledger)@, *request)
        },
{
    exchange_as(ledger, TransactionType::Sell, caller_id, request)
}

/// Answers a request to record a buy order at time `now`. Only the issuer
/// may record it.
pub fn create_buy_order(
    book: &mut OrderBook,
    caller_id: Option<i32>,
    request: &CreateBuyOrderRequest,
    now: i64,
) -> (r: Result<BuyOrder, CreateBuyOrderResponse>)
    requires
        old(book).wf(),
    ensures
        final(book).wf(),
        caller_id is None ==> final(book)@ == old(book)@ && r is Err && r->Err_0.message_spec()
            == "No Authorization Header"@,
        caller_id is Some && caller_id != Some(request.issuer_id) ==> final(book)@ == old(book)@ && r is Err
            && r->Err_0.message_spec() == "Invalid user id"@,
        caller_id == Some(request.issuer_id) ==> {
            let (next, created) = create_buy_order_spec(old(book)@, *request, now as int);
            &&& final(book)@ == next
            &&& match r {
                Ok(o) => created == Ok::<BuyOrder, crate::errors::ErrorKind>(o),
                Err(e) => created is Err && e.message_spec() == "Failed to create order"@,
            }
        },
{
    match caller_id {
        None => {
            return Err(CreateBuyOrderResponse::new(String::from_str("No Authorization Header")));
        },
        Some(id) => {
            if id != request.issuer_id {
                return Err(CreateBuyOrderResponse::new(String::from_str("Invalid user id")));
            }
        },
    }
    match book.create_buy_order_at(request, now) {
        Ok(o) => Ok(o),
        Err(_) => Err(CreateBuyOrderResponse::new(String::from_str("Failed to create order"))),
    }
}

/// Answers a request to record a sell order at time `now`. Only the issuer
/// may record it.
pub fn create_sell_order(
    book: &mut OrderBook,
    caller_id: Option<i32>,
    request: &CreateSellOrderRequest,
    now: i64,
) -> (r: Result<SellOrder, CreateSellOrderResponse>)
    requires
        old(book).wf(),
    ensures
        final(book).wf(),
        caller_id is None ==> final(book)@ == old(book)@ && r is Err && r->Err_0.message_spec()
            == "No Authorization Header"@,
        caller_id is Some && caller_id != Some(request.issuer_id) ==> final(book)@ == old(book)@ && r is Err
            && r->Err_0.message_spec() == "Invalid user id"@,
        caller_id == Some(request.issuer_id) ==> {
            let (next, created) = create_sell_order_spec(old(book)@, *request, now as int);
            &&& final(book)@ == next
            &&& match r {
                Ok(o) => created == Ok::<SellOrder, crate::errors::ErrorKind>(o),
                Err(e) => created is Err && e.message_spec() == "Failed to create order"@,
            }
        },
{
    match caller_id {
        None => {
            return Err(CreateSellOrderResponse::new(String::from_str("No Authorization Header")));
        },
        Some(id) => {
            if id != request.issuer_id {
                return Err(CreateSellOrderResponse::new(String::from_str("Invalid user id")));
            }
        },
    }
    match book.create_sell_order_at(request, now) {
        Ok(o) => Ok(o),
        Err(_) => Err(CreateSellOrderResponse::new(String::from_str("Failed to create order"))),
    }
}

/// Answers a request to list buy orders: up to `params.count` of them.
pub fn buy_orders(book: &OrderBook, authorized: bool, params: &BuyOrderQueryParams) -> (r: Result<
    Vec<BuyOrder>,
    OrdersRefusal,
>)
    ensures
        !authorized ==> r == Err::<Vec<BuyOrder>, OrdersRefusal>(OrdersRefusal::Unauthorized),
        authorized && params.count < 0 ==> r == Err::<Vec<BuyOrder>, OrdersRefusal>(OrdersRefusal::NotFound),
        authorized && params.count >= 0 ==> r is Ok && r->Ok_0@ == first_n(book@.buy_orders, params.count as int),
{
    if !authorized {
        return Err(OrdersRefusal::Unauthorized);
    }
    if params.count < 0 {
        return Err(OrdersRefusal::NotFound);
    }
    Ok(book.find_buy_orders(params.count))
}

/// Answers a request to list sell orders: up to `params.count` of them.
pub fn sell_orders(book: &OrderBook, authorized: bool, params: &SellOrderQueryParams) -> (r: Result<
    Vec<SellOrder>,
    OrdersRefusal,
>)
    ensures
        !authorized ==> r == Err::<Vec<SellOrder>, OrdersRefusal>(OrdersRefusal::Unauthorized),
        authorized && params.count < 0 ==> r == Err::<Vec<SellOrder>, OrdersRefusal>(OrdersRefusal::NotFound),
        authorized && params.count >= 0 ==> r is Ok && r->Ok_0@ == first_n(book@.sell_orders, params.count as int),
{
    if !authorized {
        return Err(OrdersRefusal::Unauthorized);
    }
    if params.count < 0 {
        return Err(OrdersRefusal::NotFound);
    }
    Ok(book.find_sell_orders(params.count))
}

/// Answers a request for the caller's balance in one currency; `None` when
/// the request carries no credentials. The balance looked up is that of the
/// authenticated caller.
pub fn currency_balance(ledger: &Ledger, caller_id: Option<i32>, request: &BalanceRequest) -> (r: Option<
    BalanceLookup,
>)
    requires
        ledger.wf(),
    ensures
        caller_id is None <==> r is None,
        caller_id is Some ==> ({
            let uid = caller_id->Some_0 as int;
            let found = ledger@.find_currency(request.currency_code@);
            let lookup = r->Some_0;
            &&& !ledger@.has_any_wallet(uid) <==> lookup is WalletNotFound
            &&& ledger@.has_any_wallet(uid) && found is None <==> lookup is CurrencyNotFound
            &&& lookup is BalanceNotFound <==> ledger@.has_any_wallet(uid) && found is Some
                && ledger@.find_wallet(uid, found->Some_0.currency_id as int) is None
            &&& lookup is Found ==> ({
                let w = ledger@.find_wallet(uid, found->Some_0.currency_id as int)->Some_0;
                lookup->Found_0 == crate::models::CurrencyBalance {
                    user_id: Some(uid as i32),
                    wallet_id: Some(w.wallet_id),
                    amount: Some(ledger@.balance_of(w.wallet_id as int) as i32),
                    currency_id: Some(found->Some_0.currency_id),
                }
            })
        }),
{
    match caller_id {
        None => None,
        Some(uid) => {
            let own = BalanceRequest {
                wallet_id: request.wallet_id,
                user_id: uid,
                currency_code: request.currency_code.clone(),
            };
            Some(ledger.currency_balance(&own))
        },
    }
}

} // verus!
