//! Build-time checking of SQL queries against a database's own description
//! of them, and planning of the code that binds arguments and decodes rows.

pub mod types;
pub mod registry;
pub mod postgres;
pub mod error;
pub mod args;
pub mod search;
pub mod ident;
pub mod names;
pub mod output;
pub mod expand;
pub mod laws;
