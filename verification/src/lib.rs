pub mod amount;
pub mod balance;
pub mod balances;
pub mod errors;
pub mod history;
pub mod laws;
pub mod processor;
