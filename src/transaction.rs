use vstd::prelude::*;
use crate::api_models::ExchangeCurrencyRequest;
use crate::errors::DataError;
use crate::ledger::{exchange_spec, outcome, Ledger, LedgerModel};
use crate::models::{Currency, ExchangeResult, IncomingCurrencyWallet, OutgoingCurrencyWallet, Wallet};
use crate::rate::Rate;

verus! {

/// Which side of the market a transaction was requested from. Both sides
/// settle through the same exchange step.
#[derive(Clone, Copy, Debug, PartialEq, Eq, Structural)]
pub enum TransactionType {
    Buy,
    Sell,
}

/// Settles a buy request against the ledger.
pub trait BuyTransactionManager {
    spec fn exchange_request(&self) -> ExchangeCurrencyRequest;

    fn process_buy_transaction(&self, ledger: &mut Ledger) -> (r: Result<ExchangeResult, DataError>)
        requires
            old(ledger).wf(),
            self.exchange_request().is_valid(),
        ensures
            final(ledger).wf(),
            (final(ledger)@, outcome(r)) == exchange_spec(old(ledger)@, self.exchange_request()),
    ;
}

/// Settles a sell request against the ledger.
pub trait SellTransactionManager {
    spec fn exchange_request(&self) -> ExchangeCurrencyRequest;

    fn process_sell_transaction(&self, ledger: &mut Ledger) -> (r: Result<ExchangeResult, DataError>)
        requires
            old(ledger).wf(),
            self.exchange_request().is_valid(),
        ensures
            final(ledger).wf(),
            (final(ledger)@, outcome(r)) == exchange_spec(old(ledger)@, self.exchange_request()),
    ;
}

/// One requested exchange: the parameters of a single in-flight request.
pub struct Transaction {
    transaction_type: TransactionType,
    sum: i32,
    rate: Rate,
    order_issuer_id: i32,
    incoming_currency_id: i32,
    outgoing_currency_id: i32,
}

/// The catalog code of a currency, if the catalog holds it.
pub open spec fn code_of(c: Option<Currency>) -> Option<Seq<char>> {
    match c {
        Some(c) => Some(c.currency_code@),
        None => None,
    }
}

impl Transaction {
    pub closed spec fn request_spec(&self) -> ExchangeCurrencyRequest {
        ExchangeCurrencyRequest {
            sum: self.sum,
            rate: self.rate,
            order_issuer_id: self.order_issuer_id,
            incoming_currency_id: self.incoming_currency_id,
            outgoing_currency_id: self.outgoing_currency_id,
        }
    }

    pub closed spec fn transaction_type_spec(&self) -> TransactionType {
        self.transaction_type
    }

    pub fn new(
        transaction_type: TransactionType,
        sum: i32,
        rate: Rate,
        order_issuer_id: i32,
        incoming_currency_id: i32,
        outgoing_currency_id: i32,
    ) -> (r: Self)
        ensures
            r.transaction_type_spec() == transaction_type,
            r.request_spec() == (ExchangeCurrencyRequest {
                sum,
                rate,
                order_issuer_id,
                incoming_currency_id,
                outgoing_currency_id,
            }),
    {
        Transaction {
            transaction_type,
            sum,
            rate,
            order_issuer_id,
            incoming_currency_id,
            outgoing_currency_id,
        }
    }

    /// The exchange this transaction asks for.
    pub fn request(&self) -> (r: ExchangeCurrencyRequest)
        ensures
            r == self.request_spec(),
    {
        ExchangeCurrencyRequest {
            sum: self.sum,
            rate: self.rate,
            order_issuer_id: self.order_issuer_id,
            incoming_currency_id: self.incoming_currency_id,
            outgoing_currency_id: self.outgoing_currency_id,
        }
    }

    /// The side this transaction was requested from.
    pub fn transaction_type(&self) -> (r: TransactionType)
        ensures
            r == self.transaction_type_spec(),
    {
        self.transaction_type
    }

    /// The issuer's wallet in the incoming currency, with its catalog code.
    pub fn get_incoming_currency_wallet(&self, ledger: &Ledger) -> (r: Option<IncomingCurrencyWallet>)
        requires
            ledger.wf(),
        ensures
            r is Some <==> ledger@.find_wallet(self.request_spec().order_issuer_id as int, self.request_spec().incoming_currency_id as int) is Some,
            r is Some ==> ({
                let w = ledger@.find_wallet(self.request_spec().order_issuer_id as int, self.request_spec().incoming_currency_id as int)->Some_0;
                let found = r->Some_0;
                &&& found.wallet_id == Some(w.wallet_id)
                &&& found.currency_id == Some(w.currency_id)
                &&& code_of_string(found.currency_code) == code_of(ledger@.currency_by_id(w.currency_id as int))
            }),
    {
        match ledger.find_wallet(self.order_issuer_id, self.incoming_currency_id) {
            Some(w) => Some(
                IncomingCurrencyWallet {
                    wallet_id: Some(w.wallet_id),
                    currency_id: Some(w.currency_id),
                    currency_code: catalog_code(ledger, w),
                },
            ),
            None => None,
        }
    }

    /// The issuer's wallet in the outgoing currency, with its catalog code.
    pub fn get_outgoing_currency_wallet(&self, ledger: &Ledger) -> (r: Option<OutgoingCurrencyWallet>)
        requires
            ledger.wf(),
        ensures
            r is Some <==> ledger@.find_wallet(self.request_spec().order_issuer_id as int, self.request_spec().outgoing_currency_id as int) is Some,
            r is Some ==> ({
                let w = ledger@.find_wallet(self.request_spec().order_issuer_id as int, self.request_spec().outgoing_currency_id as int)->Some_0;
                let found = r->Some_0;
                &&& found.wallet_id == Some(w.wallet_id)
                &&& found.currency_id == Some(w.currency_id)
                &&& code_of_string(found.currency_code) == code_of(ledger@.currency_by_id(w.currency_id as int))
            }),
    {
        match ledger.find_wallet(self.order_issuer_id, self.outgoing_currency_id) {
            Some(w) => Some(
                OutgoingCurrencyWallet {
                    wallet_id: Some(w.wallet_id),
                    currency_id: Some(w.currency_id),
                    currency_code: catalog_code(ledger, w),
                },
            ),
            None => None,
        }
    }

    /// Both wallets of the exchange exist; fails with `WalletNotFoundError`
    /// otherwise.
    fn has_wallets(&self, ledger: &Ledger) -> (r: Result<bool, DataError>)
        requires
            ledger.wf(),
        ensures
            r is Ok <==> ({
                &&& ledger@.find_wallet(self.request_spec().order_issuer_id as int, self.request_spec().incoming_currency_id as int) is Some
                &&& ledger@.find_wallet(self.request_spec().order_issuer_id as int, self.request_spec().outgoing_currency_id as int) is Some
            }),
            r is Ok ==> r->Ok_0,
            r is Err ==> r->Err_0.kind_spec() == crate::errors::ErrorKind::WalletNotFound,
    {
        let incoming = self.get_incoming_currency_wallet(ledger);
        let outgoing = self.get_outgoing_currency_wallet(ledger);
        if incoming.is_none() || outgoing.is_none() {
            return Err(DataError::WalletNotFoundError("Wallet not found".to_string()));
        }
        Ok(true)
    }

    /// The one code path of both sides: checks the wallets, then settles the
    /// exchange as a single step on the ledger.
    fn execute(&self, ledger: &mut Ledger) -> (r: Result<ExchangeResult, DataError>)
        requires
            old(ledger).wf(),
            self.request_spec().is_valid(),
        ensures
            final(ledger).wf(),
            (final(ledger)@, outcome(r)) == exchange_spec(old(ledger)@, self.request_spec()),
    {
        match self.has_wallets(ledger) {
            Ok(_) => {},
            Err(e) => {
                return Err(e);
            },
        }
        let request = self.request();
        ledger.exchange(&request)
    }
}

/// The code of a currency's catalog entry, as text that may be absent.
pub open spec fn code_of_string(c: Option<String>) -> Option<Seq<char>> {
    match c {
        Some(s) => Some(s@),
        None => None,
    }
}

fn catalog_code(ledger: &Ledger, w: Wallet) -> (r: Option<String>)
    requires
        ledger.wf(),
    ensures
        code_of_string(r) == code_of(ledger@.currency_by_id(w.currency_id as int)),
{
    match ledger.find_currency_by_id(w.currency_id) {
        Some(c) => Some(c.currency_code),
        None => None,
    }
}

impl BuyTransactionManager for Transaction {
    open spec fn exchange_request(&self) -> ExchangeCurrencyRequest {
        self.request_spec()
    }

    fn process_buy_transaction(&self, ledger: &mut Ledger) -> (r: Result<ExchangeResult, DataError>) {
        self.execute(ledger)
    }
}

impl SellTransactionManager for Transaction {
    open spec fn exchange_request(&self) -> ExchangeCurrencyRequest {
        self.request_spec()
    }

    fn process_sell_transaction(&self, ledger: &mut Ledger) -> (r: Result<ExchangeResult, DataError>) {
        self.execute(ledger)
    }
}

} // verus!
