use vstd::prelude::*;

verus! {

/// A field that the account builder needs before it can commit.
#[derive(Debug, Clone, Copy, PartialEq, Eq, Structural)]
pub enum BuilderField {
    Passphrase,
    Mnemonic,
    Totp,
}

/// Every failure that the wallet's operations report.
#[derive(Debug, Clone, Copy, PartialEq, Eq, Structural)]
pub enum WalletError {
    /// No account directory is loaded.
    NotAuthenticated,
    /// Signup was asked for while a primary account is loaded.
    PrimaryAlreadyExists,
    /// A signup step was asked for before `signup_start`.
    SignupNotStarted,
    /// The builder was asked to commit before the field was staged.
    IncompleteBuilder { missing_field: BuilderField },
    /// The builder has already committed its account.
    AlreadyBuilt,
    /// A sealed entry did not open with the passphrase given.
    AuthenticationFailed,
    /// A one-time code did not match.
    InvalidTotp,
    /// A sealed entry, a directory or a primary account is absent.
    NotFound,
    /// Reading or writing storage failed.
    IoError,
    /// A cryptographic step could not be carried out.
    CryptoError,
    /// A phrase length other than 12, 18 or 24 words.
    InvalidWordCount,
}

} // verus!
