use vstd::prelude::*;
use vstd::string::StringExecFns;
use crate::api_models::{AddCurrencyRequest, BalanceRequest, CreateCurrencyRequest, CreateWalletRequest, ExchangeCurrencyRequest};
use crate::errors::{DataError, ErrorKind};
use crate::models::{Currency, CurrencyBalance, ExchangeResult, Wallet};
use crate::responses::{BalanceNotFoundResponse, CurrencyNotFoundResponse, WalletNotFoundResponse};
use crate::rate::{debit_for, debit_spec};

verus! {

/// The abstract state of the ledger: every wallet, the balance of each
/// wallet (by position), and the currency catalog.
pub struct LedgerModel {
    pub wallets: Seq<Wallet>,
    pub balances: Seq<int>,
    pub currencies: Seq<Currency>,
}

impl LedgerModel {
    /// Wallet identifiers are issued in order from 1, every (user, currency)
    /// pair has at most one wallet, every balance is a non-negative `i32`,
    /// and currency codes are unique.
    pub open spec fn wf(self) -> bool {
        &&& self.wallets.len() == self.balances.len()
        &&& self.wallets.len() <= i32::MAX
        &&& self.currencies.len() <= i32::MAX
        &&& forall|i: int| 0 <= i < self.wallets.len() ==> #[trigger] self.wallets[i].wallet_id == i + 1
        &&& forall|i: int, j: int|
            0 <= i < self.wallets.len() && 0 <= j < self.wallets.len() && i != j
                && #[trigger] self.wallets[i].user_id == #[trigger] self.wallets[j].user_id
                ==> self.wallets[i].currency_id != self.wallets[j].currency_id
        &&& forall|i: int| 0 <= i < self.balances.len() ==> 0 <= #[trigger] self.balances[i] <= i32::MAX
        &&& forall|i: int| 0 <= i < self.currencies.len() ==> #[trigger] self.currencies[i].currency_id == i + 1
        &&& forall|i: int, j: int|
            0 <= i < self.currencies.len() && 0 <= j < self.currencies.len() && i != j
                ==> #[trigger] self.currencies[i].currency_code@ != #[trigger] self.currencies[j].currency_code@
    }

    /// The wallet of `user_id` for `currency_id`, if there is one.
    pub open spec fn find_wallet(self, user_id: int, currency_id: int) -> Option<Wallet> {
        wallet_in(self.wallets, user_id, currency_id)
    }

    /// The catalog entry with identifier `currency_id`, if there is one.
    pub open spec fn currency_by_id(self, currency_id: int) -> Option<Currency> {
        if 1 <= currency_id <= self.currencies.len() {
            Some(self.currencies[currency_id - 1])
        } else {
            None
        }
    }

    /// Whether `user_id` holds any wallet.
    pub open spec fn has_any_wallet(self, user_id: int) -> bool {
        exists|i: int| 0 <= i < self.wallets.len() && #[trigger] self.wallets[i].user_id == user_id
    }

    /// The balance of a wallet; 0 for an identifier that names no wallet.
    pub open spec fn balance_of(self, wallet_id: int) -> int {
        if 1 <= wallet_id <= self.balances.len() {
            self.balances[wallet_id - 1]
        } else {
            0
        }
    }

    pub open spec fn with_balance(self, wallet_id: int, amount: int) -> LedgerModel {
        LedgerModel {
            wallets: self.wallets,
            balances: self.balances.update(wallet_id - 1, amount),
            currencies: self.currencies,
        }
    }

    /// The state after a new wallet of `user_id` for `currency_id` is added.
    pub open spec fn with_new_wallet(self, user_id: int, currency_id: int) -> LedgerModel {
        LedgerModel {
            wallets: self.wallets.push(
                Wallet {
                    wallet_id: (self.wallets.len() + 1) as i32,
                    user_id: user_id as i32,
                    currency_id: currency_id as i32,
                },
            ),
            balances: self.balances.push(0),
            currencies: self.currencies,
        }
    }

    /// The catalog entry with code `code`, if there is one.
    pub open spec fn find_currency(self, code: Seq<char>) -> Option<Currency> {
        if exists|i: int| 0 <= i < self.currencies.len() && #[trigger] self.currencies[i].currency_code@ == code {
            Some(
                self.currencies[choose|i: int|
                    0 <= i < self.currencies.len() && #[trigger] self.currencies[i].currency_code@ == code],
            )
        } else {
            None
        }
    }
}

/// The wallet at position `i` belongs to `user_id` and holds `currency_id`.
pub open spec fn wallet_holds(wallets: Seq<Wallet>, i: int, user_id: int, currency_id: int) -> bool {
    &&& 0 <= i < wallets.len()
    &&& wallets[i].user_id == user_id
    &&& wallets[i].currency_id == currency_id
}

/// The wallet of `user_id` for `currency_id` among `wallets`, if there is one.
pub open spec fn wallet_in(wallets: Seq<Wallet>, user_id: int, currency_id: int) -> Option<Wallet> {
    if exists|i: int| #[trigger] wallet_holds(wallets, i, user_id, currency_id) {
        Some(wallets[choose|i: int| #[trigger] wallet_holds(wallets, i, user_id, currency_id)])
    } else {
        None
    }
}

/// The outcome of a request, with the failure reduced to its kind.
pub open spec fn outcome<T>(r: Result<T, DataError>) -> Result<T, ErrorKind> {
    match r {
        Ok(v) => Ok(v),
        Err(e) => Err(e.kind_spec()),
    }
}

/// One exchange as a single step on the ledger state.
///
/// Both wallets of the issuer are resolved first; the debit is the sum times
/// the rate rounded half up; it must not exceed the paying wallet's balance;
/// then the paying wallet is debited and the receiving wallet credited with
/// the sum. On any failure the state is returned unchanged.
pub open spec fn exchange_spec(m: LedgerModel, req: ExchangeCurrencyRequest) -> (
    LedgerModel,
    Result<ExchangeResult, ErrorKind>,
) {
    let incoming = m.find_wallet(req.order_issuer_id as int, req.incoming_currency_id as int);
    let outgoing = m.find_wallet(req.order_issuer_id as int, req.outgoing_currency_id as int);
    match (incoming, outgoing) {
        (Some(iw), Some(ow)) => {
            let debit = debit_spec(req.sum as int, req.rate.micros as int);
            let paying = m.balance_of(ow.wallet_id as int);
            if debit > paying {
                (m, Err(ErrorKind::InsufficientFunds))
            } else {
                let debited = m.with_balance(ow.wallet_id as int, paying - debit);
                let credited_amount = debited.balance_of(iw.wallet_id as int) + req.sum;
                if credited_amount > i32::MAX {
                    (m, Err(ErrorKind::CurrencyExchange))
                } else {
                    let settled = debited.with_balance(iw.wallet_id as int, credited_amount);
                    (
                        settled,
                        Ok(
                            ExchangeResult {
                                resulting_amount: settled.balance_of(ow.wallet_id as int) as i32,
                                incoming_wallet_id: iw.wallet_id,
                                outgoing_wallet_id: ow.wallet_id,
                            },
                        ),
                    )
                }
            }
        },
        _ => (m, Err(ErrorKind::WalletNotFound)),
    }
}

/// Opening a wallet: refused for a (user, currency) pair that already has
/// one, and once every wallet identifier has been issued.
pub open spec fn create_wallet_spec(m: LedgerModel, user_id: int, currency_id: int) -> (
    LedgerModel,
    Result<Wallet, ErrorKind>,
) {
    if m.find_wallet(user_id, currency_id) is Some {
        (m, Err(ErrorKind::DuplicateEntry))
    } else if m.wallets.len() >= i32::MAX {
        (m, Err(ErrorKind::WalletCreation))
    } else {
        (
            m.with_new_wallet(user_id, currency_id),
            Ok(
                Wallet {
                    wallet_id: (m.wallets.len() + 1) as i32,
                    user_id: user_id as i32,
                    currency_id: currency_id as i32,
                },
            ),
        )
    }
}

/// Adding a currency to a user's holdings: the user must already hold some
/// wallet; then as `create_wallet_spec`.
pub open spec fn add_currency_spec(m: LedgerModel, user_id: int, currency_id: int) -> (
    LedgerModel,
    Result<Wallet, ErrorKind>,
) {
    if !m.has_any_wallet(user_id) {
        (m, Err(ErrorKind::WalletNotFound))
    } else {
        create_wallet_spec(m, user_id, currency_id)
    }
}

/// Funding or withdrawing: the new amount must stay within `0..=i32::MAX`.
pub open spec fn apply_delta_spec(m: LedgerModel, wallet_id: int, delta: int) -> (
    LedgerModel,
    Result<i32, ErrorKind>,
) {
    if !(1 <= wallet_id <= m.wallets.len()) {
        (m, Err(ErrorKind::WalletNotFound))
    } else {
        let amount = m.balance_of(wallet_id) + delta;
        if amount < 0 {
            (m, Err(ErrorKind::InsufficientFunds))
        } else if amount > i32::MAX {
            (m, Err(ErrorKind::CurrencyExchange))
        } else {
            (m.with_balance(wallet_id, amount), Ok(amount as i32))
        }
    }
}

/// The answer to a balance request, as each outcome is reported.
#[derive(Clone, Debug)]
pub enum BalanceLookup {
    Found(CurrencyBalance),
    WalletNotFound(WalletNotFoundResponse),
    CurrencyNotFound(CurrencyNotFoundResponse),
    BalanceNotFound(BalanceNotFoundResponse),
}

/// A matching position determines the wallet found for its owner and currency.
pub proof fn lemma_find_wallet_at(m: LedgerModel, i: int, user_id: int, currency_id: int)
    requires
        m.wf(),
        wallet_holds(m.wallets, i, user_id, currency_id),
    ensures
        m.find_wallet(user_id, currency_id) == Some(m.wallets[i]),
{
    let j = choose|j: int| #[trigger] wallet_holds(m.wallets, j, user_id, currency_id);
    assert(wallet_holds(m.wallets, j, user_id, currency_id));
    if i != j {
        assert(m.wallets[i].user_id == m.wallets[j].user_id);
    }
}

/// Opening a wallet for one (user, currency) pair leaves the wallet found
/// for every other pair as it was.
pub proof fn lemma_find_wallet_after_open(
    m: LedgerModel,
    user_id: i32,
    currency_id: i32,
    other_user: int,
    other_currency: int,
)
    requires
        m.wf(),
        m.find_wallet(user_id as int, currency_id as int) is None,
        !(other_user == user_id && other_currency == currency_id),
    ensures
        m.with_new_wallet(user_id as int, currency_id as int).find_wallet(other_user, other_currency) == m.find_wallet(
            other_user,
            other_currency,
        ),
{
    let next = m.with_new_wallet(user_id as int, currency_id as int);
    let ext = next.wallets;
    if exists|i: int| #[trigger] wallet_holds(m.wallets, i, other_user, other_currency) {
        let i = choose|i: int| #[trigger] wallet_holds(m.wallets, i, other_user, other_currency);
        assert(wallet_holds(ext, i, other_user, other_currency));
        let j = choose|j: int| #[trigger] wallet_holds(ext, j, other_user, other_currency);
        assert(wallet_holds(ext, j, other_user, other_currency));
        assert(j < m.wallets.len());
        assert(ext[j] == m.wallets[j]);
        if i != j {
            assert(m.wallets[i].user_id == m.wallets[j].user_id);
        }
    } else {
        if exists|j: int| #[trigger] wallet_holds(ext, j, other_user, other_currency) {
            let j = choose|j: int| #[trigger] wallet_holds(ext, j, other_user, other_currency);
            assert(j < m.wallets.len());
            assert(ext[j] == m.wallets[j]);
            assert(wallet_holds(m.wallets, j, other_user, other_currency));
        }
    }
}

/// A wallet that is found sits at the position its identifier names.
pub proof fn lemma_found_wallet_position(m: LedgerModel, user_id: int, currency_id: int)
    requires
        m.wf(),
        m.find_wallet(user_id, currency_id) is Some,
    ensures
        ({
            let w = m.find_wallet(user_id, currency_id)->Some_0;
            &&& 1 <= w.wallet_id <= m.wallets.len()
            &&& m.wallets[w.wallet_id - 1] == w
            &&& w.user_id == user_id
            &&& w.currency_id == currency_id
        }),
{
    let j = choose|j: int| #[trigger] wallet_holds(m.wallets, j, user_id, currency_id);
    assert(wallet_holds(m.wallets, j, user_id, currency_id));
    assert(m.wallets[j].wallet_id == j + 1);
}

/// The in-memory ledger store: wallets, their balances and the currency
/// catalog. Every change goes through a method that takes `&mut self`, so a
/// check and the change it guards form one indivisible step.
pub struct Ledger {
    wallets: Vec<Wallet>,
    balances: Vec<i32>,
    currencies: Vec<Currency>,
}

impl View for Ledger {
    type V = LedgerModel;

    closed spec fn view(&self) -> LedgerModel {
        LedgerModel {
            wallets: self.wallets@,
            balances: self.balances@.map_values(|b: i32| b as int),
            currencies: self.currencies@,
        }
    }
}

impl Ledger {
    pub open spec fn wf(&self) -> bool {
        self@.wf()
    }

    /// An empty ledger.
    pub fn new() -> (r: Ledger)
        ensures
            r.wf(),
            r@.wallets.len() == 0,
            r@.currencies.len() == 0,
    {
        let r = Ledger { wallets: Vec::new(), balances: Vec::new(), currencies: Vec::new() };
        assert(r@.balances.len() == 0);
        r
    }

    /// The position of the wallet of `user_id` for `currency_id`.
    fn wallet_index(&self, user_id: i32, currency_id: i32) -> (r: Option<usize>)
        requires
            self.wf(),
        ensures
            match r {
                Some(i) => {
                    &&& wallet_holds(self@.wallets, i as int, user_id as int, currency_id as int)
                    &&& self@.find_wallet(user_id as int, currency_id as int) == Some(self@.wallets[i as int])
                },
                None => self@.find_wallet(user_id as int, currency_id as int) is None,
            },
    {
        let mut i: usize = 0;
        while i < self.wallets.len()
            invariant
                self.wf(),
                0 <= i <= self.wallets@.len(),
                forall|k: int| 0 <= k < i ==> !#[trigger] wallet_holds(self@.wallets, k, user_id as int, currency_id as int),
            decreases self.wallets@.len() - i,
        {
            let w = self.wallets[i];
            if w.user_id == user_id && w.currency_id == currency_id {
                proof {
                    lemma_find_wallet_at(self@, i as int, user_id as int, currency_id as int);
                }
                return Some(i);
            }
            i = i + 1;
        }
        None
    }

    /// The wallet of `user_id` for `currency_id`, if there is one. A pure read.
    pub fn find_wallet(&self, user_id: i32, currency_id: i32) -> (r: Option<Wallet>)
        requires
            self.wf(),
        ensures
            r == self@.find_wallet(user_id as int, currency_id as int),
    {
        match self.wallet_index(user_id, currency_id) {
            Some(i) => Some(self.wallets[i]),
            None => None,
        }
    }

    /// The balance of wallet `wallet_id`; 0 when no wallet has that
    /// identifier. A pure read.
    pub fn balance_of(&self, wallet_id: i32) -> (r: i32)
        requires
            self.wf(),
        ensures
            r as int == self@.balance_of(wallet_id as int),
            r >= 0,
    {
        if 1 <= wallet_id && (wallet_id as usize) <= self.balances.len() {
            self.balances[(wallet_id - 1) as usize]
        } else {
            0
        }
    }

    /// Every wallet of `user_id`, in identifier order. A pure read.
    pub fn find_all_wallets(&self, user_id: i32) -> (r: Vec<Wallet>)
        requires
            self.wf(),
        ensures
            r@ == self@.wallets.filter(|w: Wallet| w.user_id == user_id),
    {
        let ghost owned = |w: Wallet| w.user_id == user_id;
        let mut out: Vec<Wallet> = Vec::new();
        let mut i: usize = 0;
        while i < self.wallets.len()
            invariant
                0 <= i <= self.wallets@.len(),
                owned == (|w: Wallet| w.user_id == user_id),
                out@ == self.wallets@.take(i as int).filter(owned),
            decreases self.wallets@.len() - i,
        {
            let w = self.wallets[i];
            proof {
                reveal(Seq::filter);
                assert(self.wallets@.take(i + 1).drop_last() =~= self.wallets@.take(i as int));
                assert(self.wallets@.take(i + 1).last() == w);
            }
            if w.user_id == user_id {
                out.push(w);
            }
            i = i + 1;
        }
        assert(self.wallets@.take(i as int) =~= self.wallets@);
        out
    }

    /// Whether `user_id` holds any wallet.
    pub fn has_any_wallet(&self, user_id: i32) -> (r: bool)
        requires
            self.wf(),
        ensures
            r == self@.has_any_wallet(user_id as int),
    {
        let mut i: usize = 0;
        while i < self.wallets.len()
            invariant
                0 <= i <= self.wallets@.len(),
                forall|k: int| 0 <= k < i ==> #[trigger] self.wallets@[k].user_id != user_id,
            decreases self.wallets@.len() - i,
        {
            if self.wallets[i].user_id == user_id {
                assert(0 <= i < self@.wallets.len() && self@.wallets[i as int].user_id == user_id);
                return true;
            }
            i = i + 1;
        }
        false
    }

    fn open_wallet(&mut self, user_id: i32, currency_id: i32) -> (r: Result<Wallet, DataError>)
        requires
            old(self).wf(),
        ensures
            final(self).wf(),
            (final(self)@, outcome(r)) == create_wallet_spec(old(self)@, user_id as int, currency_id as int),
            r is Ok ==> final(self)@.find_wallet(user_id as int, currency_id as int) == Some(r->Ok_0),
            r is Ok ==> forall|u: int, c: int|
                !(u == user_id && c == currency_id) ==> #[trigger] final(self)@.find_wallet(u, c) == old(
                    self,
                )@.find_wallet(u, c),
    {
        let ghost m = self@;
        if self.wallet_index(user_id, currency_id).is_some() {
            return Err(DataError::EntryAlreadyExists("Wallet already exists for this user and currency".to_string()));
        }
        if self.wallets.len() >= i32::MAX as usize {
            return Err(DataError::WalletCreationError("Unable to create wallet".to_string()));
        }
        let w = Wallet { wallet_id: (self.wallets.len() + 1) as i32, user_id, currency_id };
        self.wallets.push(w);
        self.balances.push(0);
        proof {
            let next = m.with_new_wallet(user_id as int, currency_id as int);
            assert(self@.balances =~= next.balances);
            assert(self@.wallets =~= next.wallets);
            assert forall|i: int| 0 <= i < m.wallets.len() implies !(#[trigger] m.wallets[i].user_id == user_id
                && m.wallets[i].currency_id == currency_id) by {
                if m.wallets[i].user_id == user_id && m.wallets[i].currency_id == currency_id {
                    assert(wallet_holds(m.wallets, i, user_id as int, currency_id as int));
                }
            }
            lemma_find_wallet_at(self@, m.wallets.len() as int, user_id as int, currency_id as int);
            assert forall|u: int, c: int| !(u == user_id && c == currency_id) implies #[trigger] self@.find_wallet(
                u,
                c,
            ) == m.find_wallet(u, c) by {
                lemma_find_wallet_after_open(m, user_id, currency_id, u, c);
            }
        }
        Ok(w)
    }

    /// Opens the wallet of a user in one currency. Fails with
    /// `EntryAlreadyExists` when that wallet exists, never overwriting it.
    pub fn create_wallet(&mut self, request: &CreateWalletRequest) -> (r: Result<Wallet, DataError>)
        requires
            old(self).wf(),
        ensures
            final(self).wf(),
            (final(self)@, outcome(r)) == create_wallet_spec(
                old(self)@,
                request.user_id as int,
                request.currency_id as int,
            ),
            r is Ok ==> final(self)@.find_wallet(request.user_id as int, request.currency_id as int) == Some(
                r->Ok_0,
            ),
            r is Ok ==> forall|u: int, c: int|
                !(u == request.user_id && c == request.currency_id) ==> #[trigger] final(self)@.find_wallet(u, c)
                    == old(self)@.find_wallet(u, c),
    {
        self.open_wallet(request.user_id, request.currency_id)
    }

    /// Adds a wallet in another currency for a user who already holds one;
    /// fails with `WalletNotFoundError` for a user without any wallet.
    pub fn add_currency(&mut self, request: &AddCurrencyRequest) -> (r: Result<Wallet, DataError>)
        requires
            old(self).wf(),
        ensures
            final(self).wf(),
            (final(self)@, outcome(r)) == add_currency_spec(
                old(self)@,
                request.user_id as int,
                request.currency_id as int,
            ),
            r is Ok ==> final(self)@.find_wallet(request.user_id as int, request.currency_id as int) == Some(
                r->Ok_0,
            ),
            r is Ok ==> forall|u: int, c: int|
                !(u == request.user_id && c == request.currency_id) ==> #[trigger] final(self)@.find_wallet(u, c)
                    == old(self)@.find_wallet(u, c),
    {
        if !self.has_any_wallet(request.user_id) {
            return Err(DataError::WalletNotFoundError("Wallet for user not found".to_string()));
        }
        self.open_wallet(request.user_id, request.currency_id)
    }

    /// Adds `delta` (negative to withdraw) to a wallet's balance. Fails with
    /// `WalletBalanceError` when the balance would go negative. A funding
    /// operation: an exchange never goes through it.
    pub fn apply_delta(&mut self, wallet_id: i32, delta: i64) -> (r: Result<i32, DataError>)
        requires
            old(self).wf(),
        ensures
            final(self).wf(),
            (final(self)@, outcome(r)) == apply_delta_spec(old(self)@, wallet_id as int, delta as int),
    {
        let ghost m = self@;
        if !(1 <= wallet_id && (wallet_id as usize) <= self.balances.len()) {
            return Err(DataError::WalletNotFoundError("Wallet not found".to_string()));
        }
        let i = (wallet_id - 1) as usize;
        let amount: i128 = self.balances[i] as i128 + delta as i128;
        if amount < 0 {
            return Err(DataError::WalletBalanceError("Insufficient funds".to_string()));
        }
        if amount > i32::MAX as i128 {
            return Err(DataError::CurrencyExchangeError("Amount out of range".to_string()));
        }
        self.balances[i] = amount as i32;
        proof {
            assert(self@.balances =~= apply_delta_spec(m, wallet_id as int, delta as int).0.balances);
        }
        Ok(amount as i32)
    }

    fn currency_index(&self, code: &String) -> (r: Option<usize>)
        requires
            self.wf(),
        ensures
            match r {
                Some(i) => {
                    &&& 0 <= i < self@.currencies.len()
                    &&& self@.find_currency(code@) == Some(self@.currencies[i as int])
                },
                None => self@.find_currency(code@) is None,
            },
    {
        let mut i: usize = 0;
        while i < self.currencies.len()
            invariant
                self.wf(),
                0 <= i <= self.currencies@.len(),
                forall|k: int| 0 <= k < i ==> #[trigger] self@.currencies[k].currency_code@ != code@,
            decreases self.currencies@.len() - i,
        {
            if self.currencies[i].currency_code == *code {
                assert(0 <= i < self@.currencies.len() && self@.currencies[i as int].currency_code@ == code@);
                return Some(i);
            }
            i = i + 1;
        }
        None
    }

    /// The catalog entry with code `code`, if there is one.
    pub fn find_currency(&self, code: &String) -> (r: Option<Currency>)
        requires
            self.wf(),
        ensures
            r == self@.find_currency(code@),
    {
        match self.currency_index(code) {
            Some(i) => {
                let c = &self.currencies[i];
                Some(Currency { currency_id: c.currency_id, currency_code: c.currency_code.clone() })
            },
            None => None,
        }
    }

    /// The catalog entry with identifier `currency_id`, if there is one.
    pub fn find_currency_by_id(&self, currency_id: i32) -> (r: Option<Currency>)
        requires
            self.wf(),
        ensures
            r == self@.currency_by_id(currency_id as int),
    {
        if 1 <= currency_id && (currency_id as usize) <= self.currencies.len() {
            let c = &self.currencies[(currency_id - 1) as usize];
            Some(Currency { currency_id: c.currency_id, currency_code: c.currency_code.clone() })
        } else {
            None
        }
    }

    /// Every catalog entry, in identifier order. A pure read.
    pub fn all_currencies(&self) -> (r: Vec<Currency>)
        requires
            self.wf(),
        ensures
            r@ == self@.currencies,
    {
        let mut out: Vec<Currency> = Vec::new();
        let mut i: usize = 0;
        while i < self.currencies.len()
            invariant
                0 <= i <= self.currencies@.len(),
                out@ == self.currencies@.take(i as int),
            decreases self.currencies@.len() - i,
        {
            let c = &self.currencies[i];
            out.push(Currency { currency_id: c.currency_id, currency_code: c.currency_code.clone() });
            i = i + 1;
            assert(out@ =~= self.currencies@.take(i as int));
        }
        assert(self.currencies@.take(i as int) =~= self.currencies@);
        out
    }

    /// Adds a currency to the catalog; fails with `EntryAlreadyExists` for a
    /// code already there.
    pub fn create_currency(&mut self, request: &CreateCurrencyRequest) -> (r: Result<Currency, DataError>)
        requires
            old(self).wf(),
        ensures
            final(self).wf(),
            final(self)@.wallets == old(self)@.wallets,
            final(self)@.balances == old(self)@.balances,
            match r {
                Ok(c) => {
                    &&& old(self)@.find_currency(request.currency_code@) is None
                    &&& old(self)@.currencies.len() < i32::MAX
                    &&& c.currency_id == old(self)@.currencies.len() + 1
                    &&& c.currency_code@ == request.currency_code@
                    &&& final(self)@.currencies == old(self)@.currencies.push(c)
                },
                Err(e) => {
                    &&& final(self)@ == old(self)@
                    &&& e.kind_spec() == (if old(self)@.find_currency(request.currency_code@) is Some {
                        ErrorKind::DuplicateEntry
                    } else {
                        ErrorKind::CurrencyCreation
                    })
                    &&& old(self)@.find_currency(request.currency_code@) is None ==> old(self)@.currencies.len()
                        >= i32::MAX
                },
            },
    {
        let ghost m = self@;
        if self.currency_index(&request.currency_code).is_some() {
            let mut message = String::from_str("Currency with code=");
            message.append(request.currency_code.as_str());
            message.append(" already exists");
            return Err(DataError::EntryAlreadyExists(message));
        }
        if self.currencies.len() >= i32::MAX as usize {
            return Err(DataError::CurrencyCreationError("Unable to create currency".to_string()));
        }
        let c = Currency {
            currency_id: (self.currencies.len() + 1) as i32,
            currency_code: request.currency_code.clone(),
        };
        let returned = Currency { currency_id: c.currency_id, currency_code: c.currency_code.clone() };
        self.currencies.push(c);
        proof {
            assert(self@.balances =~= m.balances);
            assert forall|i: int, j: int|
                0 <= i < self@.currencies.len() && 0 <= j < self@.currencies.len() && i != j
                implies #[trigger] self@.currencies[i].currency_code@ != #[trigger] self@.currencies[j].currency_code@ by {
                if i < m.currencies.len() && j < m.currencies.len() {
                    assert(self@.currencies[i] == m.currencies[i]);
                    assert(self@.currencies[j] == m.currencies[j]);
                } else if i < m.currencies.len() {
                    assert(self@.currencies[i] == m.currencies[i]);
                } else {
                    assert(self@.currencies[j] == m.currencies[j]);
                }
            }
        }
        Ok(returned)
    }

    /// A user's balance in the currency named by its code. Reports a user
    /// without any wallet, an unknown code, and a user without a wallet in
    /// that currency, in that order. A pure read.
    pub fn currency_balance(&self, request: &BalanceRequest) -> (r: BalanceLookup)
        requires
            self.wf(),
        ensures
            !self@.has_any_wallet(request.user_id as int) <==> r is WalletNotFound,
            self@.has_any_wallet(request.user_id as int) && self@.find_currency(request.currency_code@) is None
                <==> r is CurrencyNotFound,
            r is BalanceNotFound <==> ({
                &&& self@.has_any_wallet(request.user_id as int)
                &&& self@.find_currency(request.currency_code@) is Some
                &&& self@.find_wallet(
                    request.user_id as int,
                    self@.find_currency(request.currency_code@)->Some_0.currency_id as int,
                ) is None
            }),
            r is Found ==> ({
                let c = self@.find_currency(request.currency_code@)->Some_0;
                let w = self@.find_wallet(request.user_id as int, c.currency_id as int)->Some_0;
                r->Found_0 == CurrencyBalance {
                    user_id: Some(request.user_id),
                    wallet_id: Some(w.wallet_id),
                    amount: Some(self@.balance_of(w.wallet_id as int) as i32),
                    currency_id: Some(c.currency_id),
                }
            }),
    {
        if !self.has_any_wallet(request.user_id) {
            return BalanceLookup::WalletNotFound(WalletNotFoundResponse::new("Wallet for user not found".to_string()));
        }
        let currency = self.find_currency(&request.currency_code);
        if currency.is_none() {
            let mut message = String::from_str("Currency with code ");
            message.append(request.currency_code.as_str());
            message.append(" not found");
            return BalanceLookup::CurrencyNotFound(CurrencyNotFoundResponse::new(message));
        }
        let currency_id = currency.unwrap().currency_id;
        match self.find_wallet(request.user_id, currency_id) {
            Some(w) => {
                let amount = self.balance_of(w.wallet_id);
                BalanceLookup::Found(CurrencyBalance {
                    user_id: Some(request.user_id),
                    wallet_id: Some(w.wallet_id),
                    amount: Some(amount),
                    currency_id: Some(currency_id),
                })
            },
            None => {
                let mut message = String::from_str("Balance for currency with code ");
                message.append(request.currency_code.as_str());
                message.append(" not found");
                BalanceLookup::BalanceNotFound(BalanceNotFoundResponse::new(message))
            },
        }
    }

    /// Executes one exchange as a single indivisible step: resolves both
    /// wallets of the issuer, re-reads the paying balance, checks the debit
    /// against it, then debits and credits together. On failure nothing
    /// changes.
    pub fn exchange(&mut self, req: &ExchangeCurrencyRequest) -> (r: Result<ExchangeResult, DataError>)
        requires
            old(self).wf(),
            req.is_valid(),
        ensures
            final(self).wf(),
            (final(self)@, outcome(r)) == exchange_spec(old(self)@, *req),
    {
        let ghost m = self@;
        let incoming = self.wallet_index(req.order_issuer_id, req.incoming_currency_id);
        let outgoing = self.wallet_index(req.order_issuer_id, req.outgoing_currency_id);
        if incoming.is_none() || outgoing.is_none() {
            return Err(DataError::WalletNotFoundError("Wallet not found".to_string()));
        }
        let ii = incoming.unwrap();
        let oi = outgoing.unwrap();
        proof {
            lemma_found_wallet_position(m, req.order_issuer_id as int, req.incoming_currency_id as int);
            lemma_found_wallet_position(m, req.order_issuer_id as int, req.outgoing_currency_id as int);
        }
        let debit = debit_for(req.sum, req.rate);
        let paying = self.balances[oi];
        if debit > paying as u128 {
            return Err(DataError::WalletBalanceError("Insufficient funds".to_string()));
        }
        let debited: i32 = (paying as u128 - debit) as i32;
        let receiving: i32 = if ii == oi {
            debited
        } else {
            self.balances[ii]
        };
        if receiving > i32::MAX - req.sum {
            return Err(DataError::CurrencyExchangeError("Error during currency exchange".to_string()));
        }
        let credited: i32 = receiving + req.sum;
        self.balances[oi] = debited;
        self.balances[ii] = credited;
        let resulting_amount = self.balances[oi];
        let incoming_wallet_id = self.wallets[ii].wallet_id;
        let outgoing_wallet_id = self.wallets[oi].wallet_id;
        proof {
            let spec_next = exchange_spec(m, *req).0;
            assert(self@.balances =~= spec_next.balances);
        }
        Ok(ExchangeResult { resulting_amount, incoming_wallet_id, outgoing_wallet_id })
    }
}

} // verus!
