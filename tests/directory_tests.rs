use currency_exchange::api_models::{
    AddCurrencyRequest, BalanceRequest, BuyOrderQueryParams, CreateBuyOrderRequest,
    CreateCurrencyRequest, CreateSellOrderRequest, CreateUserRequest, CreateWalletRequest,
    ExchangeCurrencyRequest, LoginRequest, SellOrderQueryParams,
};
use currency_exchange::errors::{ErrorKind, ValidationErrors};
use currency_exchange::handlers::{
    buy_currency, buy_orders, create_buy_order, create_sell_order, currency_balance, sell_currency,
    sell_orders, ExchangeResponse, OrdersRefusal,
};
use currency_exchange::ledger::{BalanceLookup, Ledger};
use currency_exchange::orders::OrderBook;
use currency_exchange::rate::Rate;
use currency_exchange::repository::{CurrencyRepository, WalletRepository};
use currency_exchange::responses::{
    BalanceNotFoundResponse, CreateBuyOrderResponse, CreateSellOrderResponse,
    CurrencyNotFoundResponse, WalletNotFoundResponse,
};

#[test]
fn wallet_creation_refuses_duplicates() {
    let mut ledger = Ledger::new();
    let w = ledger.create_wallet(&CreateWalletRequest::new(1, 5)).unwrap();
    assert_eq!(w.wallet_id, 1);
    assert_eq!(w.user_id, 1);
    assert_eq!(w.currency_id, 5);
    let e = ledger.create_wallet(&CreateWalletRequest::new(1, 5)).unwrap_err();
    assert_eq!(e.kind(), ErrorKind::DuplicateEntry);
    let w2 = ledger.create_wallet(&CreateWalletRequest::new(2, 5)).unwrap();
    assert_eq!(w2.wallet_id, 2);
    assert_eq!(ledger.find_wallet(1, 5), Some(w));
}

#[test]
fn all_wallets_of_a_user() {
    let mut ledger = Ledger::new();
    let a = ledger.create_wallet(&CreateWalletRequest::new(1, 1)).unwrap();
    ledger.create_wallet(&CreateWalletRequest::new(2, 1)).unwrap();
    let c = ledger.add_currency(&AddCurrencyRequest::new(1, 3)).unwrap();
    assert_eq!(ledger.find_all_wallets(1), vec![a, c]);
    assert_eq!(ledger.find_all_wallets(2).len(), 1);
    assert!(ledger.find_all_wallets(5).is_empty());
}

#[test]
fn adding_currency_needs_an_existing_wallet() {
    let mut ledger = Ledger::new();
    let e = ledger.add_currency(&AddCurrencyRequest::new(4, 1)).unwrap_err();
    assert_eq!(e.kind(), ErrorKind::WalletNotFound);
    ledger.create_wallet(&CreateWalletRequest::new(4, 1)).unwrap();
    let w = ledger.add_currency(&AddCurrencyRequest::new(4, 2)).unwrap();
    assert_eq!(w.wallet_id, 2);
    let dup = ledger.add_currency(&AddCurrencyRequest::new(4, 2)).unwrap_err();
    assert_eq!(dup.kind(), ErrorKind::DuplicateEntry);
}

#[test]
fn funding_keeps_balances_in_range() {
    let mut ledger = Ledger::new();
    let w = ledger.create_wallet(&CreateWalletRequest::new(1, 1)).unwrap();
    assert_eq!(ledger.balance_of(w.wallet_id), 0);
    assert_eq!(ledger.apply_delta(w.wallet_id, 50).unwrap(), 50);
    let e = ledger.apply_delta(w.wallet_id, -51).unwrap_err();
    assert_eq!(e.kind(), ErrorKind::InsufficientFunds);
    assert_eq!(ledger.balance_of(w.wallet_id), 50);
    assert_eq!(ledger.apply_delta(w.wallet_id, -50).unwrap(), 0);
    let big = ledger.apply_delta(w.wallet_id, i32::MAX as i64 + 1).unwrap_err();
    assert_eq!(big.kind(), ErrorKind::CurrencyExchange);
    let missing = ledger.apply_delta(2, 1).unwrap_err();
    assert_eq!(missing.kind(), ErrorKind::WalletNotFound);
    assert_eq!(ledger.apply_delta(w.wallet_id, i64::MIN).unwrap_err().kind(), ErrorKind::InsufficientFunds);
}

#[test]
fn currency_catalog_codes_are_unique() {
    let mut ledger = Ledger::new();
    let usd = ledger.create_currency(&CreateCurrencyRequest::new("USD".to_string())).unwrap();
    assert_eq!(usd.currency_id, 1);
    assert_eq!(usd.currency_code, "USD");
    let e = ledger.create_currency(&CreateCurrencyRequest::new("USD".to_string())).unwrap_err();
    assert_eq!(e.kind(), ErrorKind::DuplicateEntry);
    assert_eq!(e.message(), "Currency with code=USD already exists");
    let eur = CurrencyRepository::create_currency(&mut ledger, &CreateCurrencyRequest::new("EUR".to_string())).unwrap();
    assert_eq!(eur.currency_id, 2);
    assert_eq!(ledger.find_currency(&"EUR".to_string()).unwrap().currency_id, 2);
    assert!(ledger.find_currency(&"GBP".to_string()).is_none());
    assert_eq!(ledger.find_currency_by_id(1).unwrap().currency_code, "USD");
    assert!(ledger.find_currency_by_id(3).is_none());
}

#[test]
fn balance_lookup_reports_each_case() {
    let mut ledger = Ledger::new();
    ledger.create_currency(&CreateCurrencyRequest::new("USD".to_string())).unwrap();
    ledger.create_currency(&CreateCurrencyRequest::new("EUR".to_string())).unwrap();
    let req = |code: &str| BalanceRequest { wallet_id: 0, user_id: 3, currency_code: code.to_string() };
    match ledger.currency_balance(&req("USD")) {
        BalanceLookup::WalletNotFound(r) => assert_eq!(r.message(), "Wallet for user not found"),
        other => panic!("unexpected {:?}", other),
    }
    let w = WalletRepository::create_wallet(&mut ledger, &CreateWalletRequest::new(3, 1)).unwrap();
    ledger.apply_delta(w.wallet_id, 42).unwrap();
    match ledger.currency_balance(&req("JPY")) {
        BalanceLookup::CurrencyNotFound(r) => assert_eq!(r.message(), "Currency with code JPY not found"),
        other => panic!("unexpected {:?}", other),
    }
    match ledger.get_currency_balance(&req("EUR")) {
        BalanceLookup::BalanceNotFound(r) => {
            assert_eq!(r.message(), "Balance for currency with code EUR not found")
        }
        other => panic!("unexpected {:?}", other),
    }
    match ledger.currency_balance(&req("USD")) {
        BalanceLookup::Found(b) => {
            assert_eq!(b.amount, Some(42));
            assert_eq!(b.wallet_id, Some(w.wallet_id));
            assert_eq!(b.currency_id, Some(1));
            assert_eq!(b.user_id, Some(3));
        }
        other => panic!("unexpected {:?}", other),
    }
}

#[test]
fn exchange_handlers_check_the_caller() {
    let mut ledger = Ledger::new();
    let a = ledger.create_wallet(&CreateWalletRequest::new(1, 1)).unwrap();
    ledger.add_currency(&AddCurrencyRequest::new(1, 2)).unwrap();
    ledger.apply_delta(a.wallet_id, 100).unwrap();
    let req = ExchangeCurrencyRequest::new(10, Rate::from_micros(1_000_000), 1, 2, 1);
    assert!(matches!(buy_currency(&mut ledger, None, &req), ExchangeResponse::Unauthorized));
    assert!(matches!(sell_currency(&mut ledger, Some(2), &req), ExchangeResponse::Unauthorized));
    let bad = ExchangeCurrencyRequest::new(0, Rate::from_micros(1_000_000), 1, 2, 1);
    assert!(matches!(buy_currency(&mut ledger, Some(1), &bad), ExchangeResponse::Invalid));
    assert_eq!(ledger.balance_of(a.wallet_id), 100);
    match buy_currency(&mut ledger, Some(1), &req) {
        ExchangeResponse::Settled(r) => assert_eq!(r.resulting_amount, 90),
        other => panic!("unexpected {:?}", other),
    }
    let big = ExchangeCurrencyRequest::new(91, Rate::from_micros(1_000_000), 1, 2, 1);
    match sell_currency(&mut ledger, Some(1), &big) {
        ExchangeResponse::Failed(e) => assert_eq!(e.kind(), ErrorKind::InsufficientFunds),
        other => panic!("unexpected {:?}", other),
    }
    assert!(currency_balance(&ledger, None, &BalanceRequest { wallet_id: 0, user_id: 1, currency_code: "X".to_string() }).is_none());
}

#[test]
fn zero_day_order_is_listed_but_inert() {
    let mut book = OrderBook::new();
    let ledger_before = Ledger::new();
    let req = CreateBuyOrderRequest::new(1, 500, 2, 1, 0);
    let order = book.create_buy_order_at(&req, 1_000).unwrap();
    assert_eq!(order.buy_order_id, 1);
    assert_eq!(order.created_at, 1_000);
    assert_eq!(order.expires_at, 1_000);
    let listed = book.find_buy_orders(10);
    assert_eq!(listed, vec![order]);
    assert!(!order.is_expired(1_000));
    assert!(order.is_expired(1_001));
    assert_eq!(ledger_before.balance_of(1), 0);
}

#[test]
fn order_expiry_counts_whole_days() {
    let mut book = OrderBook::new();
    let buy = book.create_buy_order_at(&CreateBuyOrderRequest::new(1, 5, 2, 1, 2), 10).unwrap();
    assert_eq!(buy.expires_at, 10 + 2 * 86_400);
    let sell = book.create_sell_order_at(&CreateSellOrderRequest::new(1, 5, 1, 2, 3), 20).unwrap();
    assert_eq!(sell.sell_order_id, 1);
    assert_eq!(sell.sell_currency_amount, 5);
    assert_eq!(sell.expires_at, 20 + 3 * 86_400);
    assert!(!sell.is_expired(20 + 3 * 86_400));
    assert!(sell.is_expired(21 + 3 * 86_400));
}

#[test]
fn order_creation_refuses_bad_expiry() {
    let mut book = OrderBook::new();
    let e = book.create_buy_order_at(&CreateBuyOrderRequest::new(1, 5, 2, 1, -1), 10).unwrap_err();
    assert_eq!(e.kind(), ErrorKind::OrderCreation);
    let late = book.create_sell_order_at(&CreateSellOrderRequest::new(1, 5, 1, 2, 1), i64::MAX - 10).unwrap_err();
    assert_eq!(late.kind(), ErrorKind::OrderCreation);
    assert!(book.find_buy_orders(5).is_empty());
    assert!(book.find_sell_orders(5).is_empty());
}

#[test]
fn orders_from_the_clock_are_recent() {
    let mut book = OrderBook::new();
    let buy = book.create_buy_order(&CreateBuyOrderRequest::new(1, 5, 2, 1, 1)).unwrap();
    assert!(buy.created_at > 1_600_000_000);
    assert_eq!(buy.expires_at, buy.created_at + 86_400);
    let sell = book.create_sell_order(&CreateSellOrderRequest::new(1, 5, 1, 2, 0)).unwrap();
    assert_eq!(sell.expires_at, sell.created_at);
}

#[test]
fn listing_respects_the_limit() {
    let mut book = OrderBook::new();
    for i in 0..5 {
        book.create_buy_order_at(&CreateBuyOrderRequest::new(1, 10 + i, 2, 1, 1), 100).unwrap();
        book.create_sell_order_at(&CreateSellOrderRequest::new(1, 10 + i, 1, 2, 1), 100).unwrap();
    }
    assert!(book.find_buy_orders(0).is_empty());
    assert_eq!(book.find_buy_orders(3).len(), 3);
    assert_eq!(book.find_buy_orders(3)[2].buy_currency_amount, 12);
    assert_eq!(book.find_buy_orders(9).len(), 5);
    assert_eq!(book.find_sell_orders(2).len(), 2);
    assert_eq!(buy_orders(&book, false, &BuyOrderQueryParams { count: 2 }), Err(OrdersRefusal::Unauthorized));
    assert_eq!(buy_orders(&book, true, &BuyOrderQueryParams { count: -1 }), Err(OrdersRefusal::NotFound));
    assert_eq!(buy_orders(&book, true, &BuyOrderQueryParams { count: 4 }).unwrap().len(), 4);
    assert_eq!(sell_orders(&book, true, &SellOrderQueryParams { count: 0 }).unwrap().len(), 0);
    assert_eq!(sell_orders(&book, false, &SellOrderQueryParams { count: 1 }), Err(OrdersRefusal::Unauthorized));
}

#[test]
fn order_handlers_check_the_caller() {
    let mut book = OrderBook::new();
    let req = CreateBuyOrderRequest::new(4, 5, 2, 1, 1);
    let e = create_buy_order(&mut book, None, &req, 0).unwrap_err();
    assert_eq!(e.message(), "No Authorization Header");
    let e = create_buy_order(&mut book, Some(5), &req, 0).unwrap_err();
    assert_eq!(e.message(), "Invalid user id");
    let o = create_buy_order(&mut book, Some(4), &req, 0).unwrap();
    assert_eq!(o.issuer_id, 4);
    let sell = CreateSellOrderRequest::new(4, 5, 1, 2, -3);
    let e = create_sell_order(&mut book, Some(4), &sell, 0).unwrap_err();
    assert_eq!(e.message(), "Failed to create order");
    assert_eq!(book.find_sell_orders(1).len(), 0);
}

#[test]
fn request_and_response_constructors_keep_fields() {
    let u = CreateUserRequest::new(
        "ann".to_string(),
        "a@x".to_string(),
        "pw".to_string(),
        "Ann".to_string(),
        None,
        "Lee".to_string(),
    );
    assert_eq!(u.username, "ann");
    assert_eq!(u.lastname, "Lee");
    let l = LoginRequest::new("ann".to_string(), "pw".to_string());
    assert_eq!(l.password, "pw");
    let s = CreateSellOrderRequest::new(1, 2, 3, 4, 5);
    assert_eq!((s.sell_currency_id, s.buy_currency_id, s.expiry_days), (3, 4, 5));
    assert_eq!(WalletNotFoundResponse::new("w".to_string()).message(), "w");
    assert_eq!(CurrencyNotFoundResponse::new("c".to_string()).message(), "c");
    assert_eq!(BalanceNotFoundResponse::new("b".to_string()).message(), "b");
    assert_eq!(CreateBuyOrderResponse::new("o".to_string()).message(), "o");
    assert_eq!(CreateSellOrderResponse::new("s".to_string()).message(), "s");
    assert_eq!(
        ValidationErrors::InsufficientProvidedCurrencyError.message(),
        "Unable to set up order. Wallet does not have enough funds"
    );
}
