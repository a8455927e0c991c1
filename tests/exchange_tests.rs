use currency_exchange::api_models::{
    AddCurrencyRequest, CreateCurrencyRequest, CreateWalletRequest, ExchangeCurrencyRequest,
};
use currency_exchange::errors::ErrorKind;
use currency_exchange::ledger::Ledger;
use currency_exchange::models::Wallet;
use currency_exchange::rate::{debit_for, Rate};
use currency_exchange::transaction::{
    BuyTransactionManager, SellTransactionManager, Transaction, TransactionType,
};

const USER: i32 = 7;
const X: i32 = 1;
const Y: i32 = 2;

fn one_to_one() -> Rate {
    Rate::from_micros(1_000_000)
}

/// A ledger with currencies X and Y, and wallets of USER in both, the
/// X wallet funded with `funds`.
fn funded_ledger(funds: i64) -> (Ledger, Wallet, Wallet) {
    let mut ledger = Ledger::new();
    ledger.create_currency(&CreateCurrencyRequest::new("XXX".to_string())).unwrap();
    ledger.create_currency(&CreateCurrencyRequest::new("YYY".to_string())).unwrap();
    let wx = ledger.create_wallet(&CreateWalletRequest::new(USER, X)).unwrap();
    let wy = ledger.add_currency(&AddCurrencyRequest::new(USER, Y)).unwrap();
    ledger.apply_delta(wx.wallet_id, funds).unwrap();
    (ledger, wx, wy)
}

fn pay_x_for_y(sum: i32) -> ExchangeCurrencyRequest {
    ExchangeCurrencyRequest::new(sum, one_to_one(), USER, Y, X)
}

#[test]
fn debit_within_balance_succeeds() {
    let (mut ledger, wx, wy) = funded_ledger(100);
    let r = ledger.exchange(&pay_x_for_y(80)).unwrap();
    assert_eq!(r.resulting_amount, 20);
    assert_eq!(r.outgoing_wallet_id, wx.wallet_id);
    assert_eq!(r.incoming_wallet_id, wy.wallet_id);
    assert_eq!(ledger.balance_of(wx.wallet_id), 20);
    assert_eq!(ledger.balance_of(wy.wallet_id), 80);
}

#[test]
fn second_debit_beyond_balance_fails() {
    let (mut ledger, wx, wy) = funded_ledger(100);
    ledger.exchange(&pay_x_for_y(80)).unwrap();
    let e = ledger.exchange(&pay_x_for_y(80)).unwrap_err();
    assert_eq!(e.kind(), ErrorKind::InsufficientFunds);
    assert_eq!(ledger.balance_of(wx.wallet_id), 20);
    assert_eq!(ledger.balance_of(wy.wallet_id), 80);
}

#[test]
fn exchange_without_wallet_fails() {
    let (mut ledger, wx, wy) = funded_ledger(100);
    let req = ExchangeCurrencyRequest::new(10, one_to_one(), USER, 3, X);
    let e = ledger.exchange(&req).unwrap_err();
    assert_eq!(e.kind(), ErrorKind::WalletNotFound);
    assert_eq!(ledger.balance_of(wx.wallet_id), 100);
    assert_eq!(ledger.balance_of(wy.wallet_id), 0);
    let other_user = ExchangeCurrencyRequest::new(10, one_to_one(), USER + 1, Y, X);
    assert_eq!(ledger.exchange(&other_user).unwrap_err().kind(), ErrorKind::WalletNotFound);
    assert_eq!(ledger.balance_of(wx.wallet_id), 100);
}

#[test]
fn two_debits_of_sixty_against_hundred() {
    let (mut ledger, wx, _) = funded_ledger(100);
    let first = ledger.exchange(&pay_x_for_y(60));
    let second = ledger.exchange(&pay_x_for_y(60));
    let successes = [first.is_ok(), second.is_ok()].iter().filter(|ok| **ok).count();
    assert_eq!(successes, 1);
    assert_eq!(second.unwrap_err().kind(), ErrorKind::InsufficientFunds);
    assert_eq!(ledger.balance_of(wx.wallet_id), 40);
}

#[test]
fn debits_summing_past_balance_never_all_succeed() {
    let (mut ledger, wx, _) = funded_ledger(100);
    let sums = [30, 50, 40, 20];
    let mut paid = 0;
    let mut failures = 0;
    for s in sums {
        match ledger.exchange(&pay_x_for_y(s)) {
            Ok(_) => paid += s,
            Err(e) => {
                assert_eq!(e.kind(), ErrorKind::InsufficientFunds);
                failures += 1;
            }
        }
    }
    assert_eq!(paid, 100);
    assert_eq!(failures, 1);
    assert_eq!(ledger.balance_of(wx.wallet_id), 0);
}

#[test]
fn conversion_rounds_half_up_and_conserves_value() {
    let (mut ledger, wx, wy) = funded_ledger(100);
    // 3 units at 1.5 cost 4.5, rounded half up to 5.
    let req = ExchangeCurrencyRequest::new(3, Rate::from_micros(1_500_000), USER, Y, X);
    let r = ledger.exchange(&req).unwrap();
    assert_eq!(r.resulting_amount, 95);
    assert_eq!(ledger.balance_of(wy.wallet_id), 3);
    // Value in rate units of X: before 100 * 1e6, after 95 * 1e6 + 3 * 1.5e6.
    let before: i64 = 100 * 1_000_000;
    let after: i64 = 95 * 1_000_000 + 3 * 1_500_000;
    assert_eq!(after - before, -500_000);
    assert_eq!(ledger.balance_of(wx.wallet_id), 95);
}

#[test]
fn debit_rounding_rule() {
    assert_eq!(debit_for(1, Rate::from_micros(500_000)), 1);
    assert_eq!(debit_for(1, Rate::from_micros(499_999)), 0);
    assert_eq!(debit_for(7, Rate::from_micros(1_000_000)), 7);
    assert_eq!(debit_for(10, Rate::from_micros(1_234_567)), 12);
    assert_eq!(debit_for(i32::MAX, Rate::from_micros(u64::MAX)), 39_614_081_238_685_424_720_915);
}

#[test]
fn credit_overflow_fails_without_change() {
    let (mut ledger, wx, wy) = funded_ledger(100);
    ledger.apply_delta(wy.wallet_id, i32::MAX as i64).unwrap();
    let e = ledger.exchange(&pay_x_for_y(1)).unwrap_err();
    assert_eq!(e.kind(), ErrorKind::CurrencyExchange);
    assert_eq!(ledger.balance_of(wx.wallet_id), 100);
    assert_eq!(ledger.balance_of(wy.wallet_id), i32::MAX);
}

#[test]
fn same_wallet_exchange_debits_then_credits() {
    let (mut ledger, wx, _) = funded_ledger(100);
    let req = ExchangeCurrencyRequest::new(10, Rate::from_micros(2_000_000), USER, X, X);
    let r = ledger.exchange(&req).unwrap();
    assert_eq!(r.resulting_amount, 90);
    assert_eq!(ledger.balance_of(wx.wallet_id), 90);
}

#[test]
fn reads_do_not_change_state() {
    let (ledger, wx, _) = funded_ledger(100);
    let a = ledger.find_wallet(USER, X);
    let b = ledger.find_wallet(USER, X);
    assert_eq!(a, b);
    assert_eq!(a, Some(wx));
    assert_eq!(ledger.balance_of(wx.wallet_id), ledger.balance_of(wx.wallet_id));
    assert_eq!(ledger.balance_of(wx.wallet_id), 100);
    assert_eq!(ledger.find_wallet(USER, 9), None);
    assert_eq!(ledger.balance_of(99), 0);
}

#[test]
fn buy_and_sell_settle_alike() {
    let (mut ledger, wx, wy) = funded_ledger(100);
    let buy = Transaction::new(TransactionType::Buy, 10, one_to_one(), USER, Y, X);
    let sell = Transaction::new(TransactionType::Sell, 10, one_to_one(), USER, Y, X);
    assert_eq!(buy.transaction_type(), TransactionType::Buy);
    assert_eq!(buy.request(), pay_x_for_y(10));
    let r1 = buy.process_buy_transaction(&mut ledger).unwrap();
    let r2 = sell.process_sell_transaction(&mut ledger).unwrap();
    assert_eq!(r1.resulting_amount, 90);
    assert_eq!(r2.resulting_amount, 80);
    assert_eq!(ledger.balance_of(wy.wallet_id), 20);
    assert_eq!(ledger.balance_of(wx.wallet_id), 80);
    let q = r2.to_amount_query(X);
    assert_eq!(q.amount, Some(80));
    assert_eq!(q.wallet_id, Some(wx.wallet_id));
    assert_eq!(q.currency_id, Some(X));
}

#[test]
fn transaction_reads_its_wallets() {
    let (mut ledger, wx, wy) = funded_ledger(100);
    let tx = Transaction::new(TransactionType::Buy, 200, one_to_one(), USER, Y, X);
    let incoming = tx.get_incoming_currency_wallet(&ledger).unwrap();
    assert_eq!(incoming.wallet_id, Some(wy.wallet_id));
    assert_eq!(incoming.currency_code, Some("YYY".to_string()));
    let outgoing = tx.get_outgoing_currency_wallet(&ledger).unwrap();
    assert_eq!(outgoing.wallet_id, Some(wx.wallet_id));
    assert_eq!(outgoing.currency_code, Some("XXX".to_string()));
    let e = tx.process_buy_transaction(&mut ledger).unwrap_err();
    assert_eq!(e.kind(), ErrorKind::InsufficientFunds);
    assert_eq!(e.message(), "Insufficient funds");
}
