//! Reporting of a wallet's native balance and fungible-token holdings.
//!
//! The library holds the rules of the report: which command-line arguments
//! are accepted, when an address is valid, how a balance is written, which
//! token accounts are shown and under which name. Talking to the network is
//! left to the caller, who hands over the decoded answers.

pub mod account;
pub mod address;
pub mod balance;
pub mod binary;
pub mod cli;
pub mod decimal;
pub mod json;
pub mod metadata;
pub mod report;
pub mod request;
pub mod rounding;
pub mod text;
