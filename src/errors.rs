use vstd::prelude::*;

verus! {

/// The stable, machine-readable kind of a failure.
#[derive(Clone, Copy, Debug, PartialEq, Eq, Structural)]
pub enum ErrorKind {
    /// A user, currency or wallet with the same key already exists.
    DuplicateEntry,
    /// No further wallet identifier can be issued.
    WalletCreation,
    /// No further currency identifier can be issued.
    CurrencyCreation,
    /// A wallet needed by the operation does not exist.
    WalletNotFound,
    /// The paying wallet holds less than the amount to debit.
    InsufficientFunds,
    /// The atomic unit failed after validation passed (a stored amount
    /// would leave its representable range).
    CurrencyExchange,
    /// An order could not be recorded (negative expiry, clock out of range,
    /// identifiers exhausted).
    OrderCreation,
}

/// A typed failure together with a human-readable message.
#[derive(Clone, Debug)]
pub enum DataError {
    EntryAlreadyExists(String),
    WalletCreationError(String),
    CurrencyCreationError(String),
    WalletNotFoundError(String),
    WalletBalanceError(String),
    CurrencyExchangeError(String),
    OrderCreationError(String),
}

impl DataError {
    pub open spec fn kind_spec(&self) -> ErrorKind {
        match self {
            DataError::EntryAlreadyExists(_) => ErrorKind::DuplicateEntry,
            DataError::WalletCreationError(_) => ErrorKind::WalletCreation,
            DataError::CurrencyCreationError(_) => ErrorKind::CurrencyCreation,
            DataError::WalletNotFoundError(_) => ErrorKind::WalletNotFound,
            DataError::WalletBalanceError(_) => ErrorKind::InsufficientFunds,
            DataError::CurrencyExchangeError(_) => ErrorKind::CurrencyExchange,
            DataError::OrderCreationError(_) => ErrorKind::OrderCreation,
        }
    }

    /// The kind of this failure.
    pub fn kind(&self) -> (r: ErrorKind)
        ensures
            r == self.kind_spec(),
    {
        match self {
            DataError::EntryAlreadyExists(_) => ErrorKind::DuplicateEntry,
            DataError::WalletCreationError(_) => ErrorKind::WalletCreation,
            DataError::CurrencyCreationError(_) => ErrorKind::CurrencyCreation,
            DataError::WalletNotFoundError(_) => ErrorKind::WalletNotFound,
            DataError::WalletBalanceError(_) => ErrorKind::InsufficientFunds,
            DataError::CurrencyExchangeError(_) => ErrorKind::CurrencyExchange,
            DataError::OrderCreationError(_) => ErrorKind::OrderCreation,
        }
    }

    pub open spec fn message_spec(&self) -> Seq<char> {
        match self {
            DataError::EntryAlreadyExists(m) => m@,
            DataError::WalletCreationError(m) => m@,
            DataError::CurrencyCreationError(m) => m@,
            DataError::WalletNotFoundError(m) => m@,
            DataError::WalletBalanceError(m) => m@,
            DataError::CurrencyExchangeError(m) => m@,
            DataError::OrderCreationError(m) => m@,
        }
    }

    /// The human-readable message of this failure.
    pub fn message(&self) -> (r: &String)
        ensures
            r@ == self.message_spec(),
    {
        match self {
            DataError::EntryAlreadyExists(m) => m,
            DataError::WalletCreationError(m) => m,
            DataError::CurrencyCreationError(m) => m,
            DataError::WalletNotFoundError(m) => m,
            DataError::WalletBalanceError(m) => m,
            DataError::CurrencyExchangeError(m) => m,
            DataError::OrderCreationError(m) => m,
        }
    }
}

/// Failures found while validating an order against the issuer's wallet.
#[derive(Clone, Copy, Debug, PartialEq, Eq, Structural)]
pub enum ValidationErrors {
    InsufficientProvidedCurrencyError,
}

impl ValidationErrors {
    /// The human-readable message of this failure.
    pub fn message(&self) -> (r: &'static str)
        ensures
            r@ == "Unable to set up order. Wallet does not have enough funds"@,
    {
        "Unable to set up order. Wallet does not have enough funds"
    }
}

} // verus!
