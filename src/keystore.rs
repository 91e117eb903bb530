//! Sealing secrets to disk under a passphrase, and deriving signing keys
//! from recovery phrases.
use vstd::prelude::*;

use vstd::string::StringExecFns;
use zeroize::Zeroize;

use crate::error::WalletError;

verus! {

/// Bytes in a private signing key.
pub const KEY_BYTES: usize = 32;

/// Bytes in a public address.
pub const ADDRESS_BYTES: usize = 20;

/// The 20-byte address of the key that ethers-signers derives from a
/// recovery phrase (English list, path m/44'/60'/0'/0/0).
pub uninterp spec fn derived_address(phrase: Seq<char>) -> Seq<u8>;

/// `dir`, a slash, then `name`.
pub open spec fn joined(dir: Seq<char>, name: Seq<char>) -> Seq<char> {
    dir + seq!['/'] + name
}

/// The failures that writing a sealed entry may report.
pub open spec fn is_seal_error(e: WalletError) -> bool {
    e == WalletError::IoError || e == WalletError::CryptoError
}

/// Relies on eth_keystore::encrypt_key: derives a key from `passphrase`
/// (scrypt), encrypts `secret` in memory (AES-128-CTR, Keccak-256 MAC), then
/// writes one file into `dir` named by a fresh UUID and returns that name.
/// I/O failures come back as `IoError`, the others as `CryptoError`.
#[verifier::external_body]
fn encrypt_to_dir(dir: &str, secret: &[u8], passphrase: &str) -> (r: Result<String, WalletError>)
    ensures
        r is Err ==> is_seal_error(r->Err_0),
{
    match eth_keystore::encrypt_key(dir, &mut rand::thread_rng(), secret, passphrase, None) {
        Ok(name) => Ok(name),
        Err(eth_keystore::KeystoreError::StdIo(_)) => Err(WalletError::IoError),
        Err(_) => Err(WalletError::CryptoError),
    }
}

/// Relies on ethers_signers::MnemonicBuilder with the English list and the
/// default path m/44'/60'/0'/0/0, given the phrase as text (never as a file
/// path), then Wallet::signer().to_bytes() and Signer::address: the derived
/// 32-byte private key and its 20-byte address. None when the phrase is not
/// accepted or the derivation fails.
#[verifier::external_body]
pub(crate) fn derive_wallet(phrase: &str) -> (r: Option<(Vec<u8>, Vec<u8>)>)
    ensures
        r is Some ==> r.unwrap().0@.len() == KEY_BYTES && r.unwrap().1@.len() == ADDRESS_BYTES,
        r is Some ==> r.unwrap().1@ == derived_address(phrase@),
{
    let text = ethers_core::types::PathOrString::String(phrase.to_string());
    let builder = ethers_signers::MnemonicBuilder::<ethers_signers::coins_bip39::English>::default();
    match builder.phrase(text).build() {
        Ok(wallet) => Some(
            (
                wallet.signer().to_bytes().to_vec(),
                ethers_signers::Signer::address(&wallet).as_bytes().to_vec(),
            ),
        ),
        Err(_) => None,
    }
}

/// Relies on zeroize's Zeroize for Vec<u8>: overwrites every byte, spare
/// capacity included, with zero, then clears the vector.
#[verifier::external_body]
pub(crate) fn scrub_bytes(b: &mut Vec<u8>)
    ensures
        final(b)@.len() == 0,
    opens_invariants none
    no_unwind
{
    b.zeroize();
}

/// Relies on zeroize's Zeroize for String: overwrites every byte of the
/// buffer with zero, then clears the string.
#[verifier::external_body]
pub(crate) fn scrub_string(s: &mut String)
    ensures
        final(s)@.len() == 0,
    opens_invariants none
    no_unwind
{
    s.zeroize();
}

/// The path of `name` inside `dir`.
pub fn join_path(dir: &str, name: &str) -> (r: String)
    ensures
        r@ == joined(dir@, name@),
{
    let mut path = String::from_str(dir);
    path.append("/");
    path.append(name);
    proof {
        reveal_strlit("/");
    }
    assert(path@ =~= joined(dir@, name@));
    path
}

/// Encrypt `secret` under `passphrase`, write it into `directory` as one
/// file, and return the file's new identifier.
pub fn seal(directory: &str, secret: &[u8], passphrase: &str) -> (r: Result<String, WalletError>)
    ensures
        r is Err ==> is_seal_error(r->Err_0),
{
    encrypt_to_dir(directory, secret, passphrase)
}

} // verus!
