//! Credential lifecycle of a single-user wallet: recovery phrases, sealed
//! keystore entries, time-based one-time passwords, the staged account
//! builder, the account directory and the store that enforces a single
//! primary account.
pub mod error;
pub mod words;
pub mod address;
pub mod totp;
pub mod keystore;
pub mod account;
pub mod directory;
pub mod user;
pub mod dispatch;
pub mod assets;
