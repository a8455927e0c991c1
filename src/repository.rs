use vstd::prelude::*;
use crate::api_models::{AddCurrencyRequest, BalanceRequest, CreateCurrencyRequest, CreateWalletRequest};
use crate::errors::{DataError, ErrorKind};
use crate::ledger::{add_currency_spec, create_wallet_spec, outcome, BalanceLookup, Ledger, LedgerModel};
use crate::models::{Currency, CurrencyBalance, Wallet};

verus! {

/// The wallet directory: opening wallets and reading balances.
pub trait WalletRepository {
    spec fn ledger_model(&self) -> LedgerModel;

    fn create_wallet(&mut self, request: &CreateWalletRequest) -> (r: Result<Wallet, DataError>)
        requires
            old(self).ledger_model().wf(),
        ensures
            final(self).ledger_model().wf(),
            (final(self).ledger_model(), outcome(r)) == create_wallet_spec(
                old(self).ledger_model(),
                request.user_id as int,
                request.currency_id as int,
            ),
    ;

    fn add_currency(&mut self, request: &AddCurrencyRequest) -> (r: Result<Wallet, DataError>)
        requires
            old(self).ledger_model().wf(),
        ensures
            final(self).ledger_model().wf(),
            (final(self).ledger_model(), outcome(r)) == add_currency_spec(
                old(self).ledger_model(),
                request.user_id as int,
                request.currency_id as int,
            ),
    ;

    fn get_currency_balance(&self, request: &BalanceRequest) -> (r: BalanceLookup)
        requires
            self.ledger_model().wf(),
        ensures
            !self.ledger_model().has_any_wallet(request.user_id as int) <==> r is WalletNotFound,
            self.ledger_model().has_any_wallet(request.user_id as int) && self.ledger_model().find_currency(
                request.currency_code@,
            ) is None <==> r is CurrencyNotFound,
            r is BalanceNotFound <==> ({
                let m = self.ledger_model();
                &&& m.has_any_wallet(request.user_id as int)
                &&& m.find_currency(request.currency_code@) is Some
                &&& m.find_wallet(
                    request.user_id as int,
                    m.find_currency(request.currency_code@)->Some_0.currency_id as int,
                ) is None
            }),
            r is Found ==> ({
                let m = self.ledger_model();
                let c = m.find_currency(request.currency_code@)->Some_0;
                let w = m.find_wallet(request.user_id as int, c.currency_id as int)->Some_0;
                r->Found_0 == CurrencyBalance {
                    user_id: Some(request.user_id),
                    wallet_id: Some(w.wallet_id),
                    amount: Some(m.balance_of(w.wallet_id as int) as i32),
                    currency_id: Some(c.currency_id),
                }
            }),
    ;
}

/// The currency catalog.
pub trait CurrencyRepository {
    spec fn ledger_model(&self) -> LedgerModel;

    fn create_currency(&mut self, request: &CreateCurrencyRequest) -> (r: Result<Currency, DataError>)
        requires
            old(self).ledger_model().wf(),
        ensures
            final(self).ledger_model().wf(),
            r is Ok <==> old(self).ledger_model().find_currency(request.currency_code@) is None
                && old(self).ledger_model().currencies.len() < i32::MAX,
            r is Ok ==> final(self).ledger_model().currencies == old(self).ledger_model().currencies.push(
                r->Ok_0,
            ),
            r is Ok ==> r->Ok_0.currency_code@ == request.currency_code@,
            r is Err ==> final(self).ledger_model() == old(self).ledger_model(),
            r is Err && old(self).ledger_model().find_currency(request.currency_code@) is Some
                ==> r->Err_0.kind_spec() == ErrorKind::DuplicateEntry,
    ;
}

impl WalletRepository for Ledger {
    open spec fn ledger_model(&self) -> LedgerModel {
        self@
    }

    fn create_wallet(&mut self, request: &CreateWalletRequest) -> (r: Result<Wallet, DataError>) {
        Ledger::create_wallet(self, request)
    }

    fn add_currency(&mut self, request: &AddCurrencyRequest) -> (r: Result<Wallet, DataError>) {
        Ledger::add_currency(self, request)
    }

    fn get_currency_balance(&self, request: &BalanceRequest) -> (r: BalanceLookup) {
        self.currency_balance(request)
    }
}

impl CurrencyRepository for Ledger {
    open spec fn ledger_model(&self) -> LedgerModel {
        self@
    }

    fn create_currency(&mut self, request: &CreateCurrencyRequest) -> (r: Result<Currency, DataError>) {
        Ledger::create_currency(self, request)
    }
}

} // verus!
