use currency_exchange::api_models::{AddCurrencyRequest, CreateCurrencyRequest, CreateWalletRequest};
use currency_exchange::connector::DatabaseConnector;
use currency_exchange::errors::ErrorKind;
use currency_exchange::handlers::{add_currency_to_wallet, create_currency, create_wallet, currencies, AdminRefusal};
use currency_exchange::ledger::Ledger;
use currency_exchange::urls::{build_login_base_url, build_orders_api_base_url, build_user_api_base_url};

#[test]
fn base_urls_join_host_and_port() {
    assert_eq!(build_login_base_url("localhost", 8080), "localhost:8080");
    assert_eq!(build_user_api_base_url("10.0.0.2", 0), "10.0.0.2:0");
    assert_eq!(build_orders_api_base_url("orders", 65535), "orders:65535");
}

#[test]
fn connector_keeps_its_settings() {
    let c = DatabaseConnector::new("postgres://db/ledger".to_string(), 10);
    assert_eq!(c.database_url(), "postgres://db/ledger");
    assert_eq!(c.max_connections(), 10);
}

#[test]
fn admin_handlers_check_the_caller() {
    let mut ledger = Ledger::new();
    let usd = CreateCurrencyRequest::new("USD".to_string());
    assert!(matches!(create_currency(&mut ledger, false, &usd), Err(AdminRefusal::MissingAuthorization)));
    assert_eq!(create_currency(&mut ledger, true, &usd).unwrap().currency_id, 1);
    match create_currency(&mut ledger, true, &usd) {
        Err(AdminRefusal::Failed(e)) => assert_eq!(e.kind(), ErrorKind::DuplicateEntry),
        other => panic!("unexpected {:?}", other),
    }
    let open = CreateWalletRequest::new(3, 1);
    assert!(matches!(create_wallet(&mut ledger, None, &open), Err(AdminRefusal::MissingAuthorization)));
    assert!(matches!(create_wallet(&mut ledger, Some(4), &open), Err(AdminRefusal::IncorrectUserId)));
    assert_eq!(create_wallet(&mut ledger, Some(3), &open).unwrap().wallet_id, 1);
    let add = AddCurrencyRequest::new(3, 2);
    assert!(matches!(add_currency_to_wallet(&mut ledger, Some(9), &add), Err(AdminRefusal::IncorrectUserId)));
    assert_eq!(add_currency_to_wallet(&mut ledger, Some(3), &add).unwrap().wallet_id, 2);
    let stranger = AddCurrencyRequest::new(8, 2);
    match add_currency_to_wallet(&mut ledger, Some(8), &stranger) {
        Err(AdminRefusal::Failed(e)) => assert_eq!(e.kind(), ErrorKind::WalletNotFound),
        other => panic!("unexpected {:?}", other),
    }
    assert!(currencies(&ledger, false).is_none());
    let all = currencies(&ledger, true).unwrap();
    assert_eq!(all.len(), 1);
    assert_eq!(all[0].currency_code, "USD");
}
