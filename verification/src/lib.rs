//! Accounts, transactions and balances of a small bank and its ATM.
pub mod account;
pub mod clock;
pub mod currency;
pub mod error;
pub mod ids;
pub mod machine;
pub mod password;
pub mod transaction;
pub mod web;
