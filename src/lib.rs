//! Multi-currency wallets, an order book, and an exchange engine that moves
//! funds between two wallets of one user as a single indivisible step.
pub mod errors;
pub mod rate;
pub mod models;
pub mod api_models;
pub mod ledger;
pub mod responses;
pub mod laws;
pub mod clock;
pub mod orders;
pub mod transaction;
pub mod handlers;
pub mod repository;
pub mod urls;
pub mod connector;
