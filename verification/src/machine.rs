//! The ATM machine's own records: transactions as the machine keeps them,
//! accounts that it stores encrypted under their owner's password, and the
//! keys of its terminal.
pub mod bank;
pub mod term;
pub mod transaction;
