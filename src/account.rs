//! The staged builder that creates the primary account.
use vstd::prelude::*;

use vstd::utf8::encode_utf8;

use crate::address::{address_text, format_address, hex_of};
use crate::error::{BuilderField, WalletError};
use crate::keystore::{derive_wallet, derived_address, is_seal_error, scrub_bytes, scrub_string, seal};
use crate::totp::{accepts, check, new_secret, otpauth_url, provisioning_url, DIGITS, SECRET_BYTES, STEP};
use crate::words::{bip39_phrase, words_in, word_count_of, WordCount};

verus! {

/// Account name written into the enrollment URI.
pub const TOTP_ACCOUNT: &'static str = "metamask";

/// Issuer written into the enrollment URI.
pub const TOTP_ISSUER: &'static str = "metamask.io";

/// Words in the local passphrase.
pub const PASSPHRASE_WORDS: u16 = 12;

/// Words in the recovery phrase.
pub const MNEMONIC_WORDS: u16 = 24;

/// The key bytes of a TOTP secret: the UTF-8 encoding of its text.
pub open spec fn key_bytes(secret: Seq<char>) -> Seq<u8> {
    encode_utf8(secret)
}

/// The enrollment URI that the builder stages for `secret`.
pub open spec fn staged_url(secret: Seq<char>) -> Seq<char> {
    otpauth_url(key_bytes(secret), DIGITS, STEP, TOTP_ACCOUNT@, TOTP_ISSUER@)
}

/// What `build` refuses with before it touches storage: a builder that has
/// committed, then the first field that is not staged.
pub open spec fn build_refusal(m: BuilderModel) -> Option<WalletError> {
    if m.done {
        Some(WalletError::AlreadyBuilt)
    } else if m.passphrase is None {
        Some(WalletError::IncompleteBuilder { missing_field: BuilderField::Passphrase })
    } else if m.mnemonic is None {
        Some(WalletError::IncompleteBuilder { missing_field: BuilderField::Mnemonic })
    } else if m.totp is None {
        Some(WalletError::IncompleteBuilder { missing_field: BuilderField::Totp })
    } else {
        None
    }
}

/// A builder that has committed refuses to commit again; one with a field
/// not yet staged refuses as incomplete; after `finish` nothing is staged,
/// so a builder that has not committed refuses as incomplete.
pub proof fn lemma_build_sequencing(m: BuilderModel)
    ensures
        build_refusal(BuilderModel { done: true, ..m }) == Some(WalletError::AlreadyBuilt),
        !m.done && (m.passphrase is None || m.mnemonic is None || m.totp is None) ==> (
        build_refusal(m) matches Some(WalletError::IncompleteBuilder { .. })),
        build_refusal(empty_model(false)) == Some(
            WalletError::IncompleteBuilder { missing_field: BuilderField::Passphrase },
        ),
        build_refusal(empty_model(true)) == Some(WalletError::AlreadyBuilt),
{
}

/// A staged TOTP secret and its enrollment URI.
pub struct Totp {
    pub(crate) url: String,
    pub(crate) secret: String,
}

/// What a builder holds: the staged fields and whether it has committed.
pub struct BuilderModel {
    pub passphrase: Option<Seq<char>>,
    pub mnemonic: Option<Seq<char>>,
    /// The secret, then the enrollment URI.
    pub totp: Option<(Seq<char>, Seq<char>)>,
    pub done: bool,
}

/// The model of a builder with nothing staged.
pub open spec fn empty_model(done: bool) -> BuilderModel {
    BuilderModel { passphrase: None, mnemonic: None, totp: None, done }
}

/// Stages a passphrase, a recovery phrase and a TOTP secret, then commits
/// them to disk once. Staged secrets are wiped by `finish`.
pub struct AccountBuilder {
    passphrase: Option<String>,
    mnemonic: Option<String>,
    totp: Option<Totp>,
    done: bool,
    language: bip39::Language,
}

impl View for AccountBuilder {
    type V = BuilderModel;

    closed spec fn view(&self) -> BuilderModel {
        BuilderModel {
            passphrase: match self.passphrase {
                Some(p) => Some(p@),
                None => None,
            },
            mnemonic: match self.mnemonic {
                Some(m) => Some(m@),
                None => None,
            },
            totp: match self.totp {
                Some(t) => Some((t.secret@, t.url@)),
                None => None,
            },
            done: self.done,
        }
    }
}

/// Wipe a staged string, if there is one.
fn scrub_option(s: &mut Option<String>)
    ensures
        *final(s) == Option::<String>::None,
    opens_invariants none
    no_unwind
{
    match s {
        Some(text) => scrub_string(text),
        None => {},
    }
    *s = None;
}

impl AccountBuilder {
    /// A builder with nothing staged, drawing words from `language`.
    pub fn new(language: bip39::Language) -> (r: AccountBuilder)
        ensures
            r@ == empty_model(false),
    {
        AccountBuilder { passphrase: None, mnemonic: None, totp: None, done: false, language }
    }

    /// Generate and stage the local passphrase (12 words), replacing and
    /// wiping any earlier one; returns it for display.
    pub fn passphrase(&mut self) -> (r: Result<String, WalletError>)
        ensures
            r is Ok,
            word_count_of(r.unwrap()@) == PASSPHRASE_WORDS,
            bip39_phrase(r.unwrap()@),
            final(self)@ == (BuilderModel { passphrase: Some(r.unwrap()@), ..old(self)@ }),
    {
        let generated = words_in(self.language, WordCount::Short(PASSPHRASE_WORDS));
        match generated {
            Ok(phrase) => {
                scrub_option(&mut self.passphrase);
                self.passphrase = Some(phrase.clone());
                Ok(phrase)
            },
            Err(e) => Err(e),
        }
    }

    /// Generate and stage the recovery phrase (24 words), replacing and
    /// wiping any earlier one; returns it for backup.
    pub fn mnemonic(&mut self) -> (r: Result<String, WalletError>)
        ensures
            r is Ok,
            word_count_of(r.unwrap()@) == MNEMONIC_WORDS,
            bip39_phrase(r.unwrap()@),
            final(self)@ == (BuilderModel { mnemonic: Some(r.unwrap()@), ..old(self)@ }),
    {
        let generated = words_in(self.language, WordCount::Long(MNEMONIC_WORDS));
        match generated {
            Ok(phrase) => {
                scrub_option(&mut self.mnemonic);
                self.mnemonic = Some(phrase.clone());
                Ok(phrase)
            },
            Err(e) => Err(e),
        }
    }

    /// Generate and stage a fresh TOTP secret with its enrollment URI,
    /// replacing and wiping any earlier one; returns the URI.
    pub fn totp(&mut self) -> (r: Result<String, WalletError>)
        ensures
            r is Ok,
            final(self)@.passphrase == old(self)@.passphrase,
            final(self)@.mnemonic == old(self)@.mnemonic,
            final(self)@.done == old(self)@.done,
            final(self)@.totp is Some,
            final(self)@.totp.unwrap().1 == r.unwrap()@,
            r.unwrap()@ == staged_url(final(self)@.totp.unwrap().0),
            final(self)@.totp.unwrap().0.len() == 2 * SECRET_BYTES,
            exists|b: Seq<u8>|
                b.len() == SECRET_BYTES && #[trigger] hex_of(b) == final(self)@.totp.unwrap().0,
    {
        let secret = new_secret();
        proof {
            reveal_strlit("metamask");
        }
        assert(!TOTP_ACCOUNT@.contains(':'));
        let url = provisioning_url(secret.as_str().as_bytes(), TOTP_ACCOUNT, TOTP_ISSUER);
        match url {
            Some(url) => {
                if let Some(mut old) = self.totp.take() {
                    scrub_string(&mut old.secret);
                    scrub_string(&mut old.url);
                }
                self.totp = Some(Totp { url: url.clone(), secret });
                Ok(url)
            },
            None => Err(WalletError::CryptoError),
        }
    }

    /// Whether `token` is the code of the staged secret for the time step
    /// that holds `now`; fails when no secret is staged. Changes nothing.
    pub fn verify(&self, token: &str, now: u64) -> (r: Result<bool, WalletError>)
        ensures
            self@.totp is None ==> r == Err::<bool, WalletError>(
                WalletError::IncompleteBuilder { missing_field: BuilderField::Totp },
            ),
            self@.totp is Some ==> r == Ok::<bool, WalletError>(
                accepts(key_bytes(self@.totp.unwrap().0), token@, now as int),
            ),
    {
        match &self.totp {
            None => Err(WalletError::IncompleteBuilder { missing_field: BuilderField::Totp }),
            Some(totp) => Ok(check(totp.secret.as_str().as_bytes(), token, now)),
        }
    }

    /// Commit the staged account: derive the signing key from the recovery
    /// phrase (nothing is written when that fails), seal the TOTP secret into
    /// `totp_dir` and the key into `keystore_dir`, both under the passphrase,
    /// then wipe the key and the staged TOTP secret. Returns the address, the
    /// key's identifier and the TOTP secret's identifier.
    pub fn build(&mut self, keystore_dir: &str, totp_dir: &str) -> (r: Result<
        (String, String, String),
        WalletError,
    >)
        ensures
            build_refusal(old(self)@) is Some ==> r == Err::<(String, String, String), WalletError>(
                build_refusal(old(self)@).unwrap(),
            ),
            r is Ok ==> build_refusal(old(self)@) is None && final(self)@ == (BuilderModel {
                done: true,
                totp: None,
                ..old(self)@
            }),
            r is Ok ==> r.unwrap().0@ == address_text(derived_address(old(self)@.mnemonic.unwrap())),
            r is Err ==> final(self)@ == old(self)@,
            r is Err && build_refusal(old(self)@) is None ==> is_seal_error(r->Err_0),
    {
        if self.done {
            return Err(WalletError::AlreadyBuilt);
        }
        let passphrase = match &self.passphrase {
            Some(p) => p,
            None => {
                return Err(WalletError::IncompleteBuilder { missing_field: BuilderField::Passphrase })
            },
        };
        let mnemonic = match &self.mnemonic {
            Some(m) => m,
            None => {
                return Err(WalletError::IncompleteBuilder { missing_field: BuilderField::Mnemonic })
            },
        };
        let totp = match &self.totp {
            Some(t) => t,
            None => {
                return Err(WalletError::IncompleteBuilder { missing_field: BuilderField::Totp })
            },
        };
        let (key, address) = match derive_wallet(mnemonic.as_str()) {
            Some(pair) => pair,
            None => return Err(WalletError::CryptoError),
        };
        let mut key = key;
        let totp_id = match seal(totp_dir, totp.secret.as_str().as_bytes(), passphrase.as_str()) {
            Ok(id) => id,
            Err(e) => {
                scrub_bytes(&mut key);
                return Err(e);
            },
        };
        let sealed = seal(keystore_dir, key.as_slice(), passphrase.as_str());
        scrub_bytes(&mut key);
        let key_id = match sealed {
            Ok(id) => id,
            Err(e) => return Err(e),
        };
        let address = format_address(address.as_slice());
        match &mut self.totp {
            Some(staged) => {
                scrub_string(&mut staged.secret);
                scrub_string(&mut staged.url);
            },
            None => {},
        }
        self.totp = None;
        self.done = true;
        Ok((address, key_id, totp_id))
    }

    /// Wipe every staged field and leave nothing staged.
    pub fn finish(&mut self)
        ensures
            final(self)@ == empty_model(old(self)@.done),
        opens_invariants none
        no_unwind
    {
        scrub_option(&mut self.passphrase);
        scrub_option(&mut self.mnemonic);
        match &mut self.totp {
            Some(staged) => {
                scrub_string(&mut staged.secret);
                scrub_string(&mut staged.url);
            },
            None => {},
        }
        self.totp = None;
    }
}

impl Drop for AccountBuilder {
    /// Staged secrets are wiped whenever a builder goes away.
    fn drop(&mut self)
        opens_invariants none
        no_unwind
    {
        self.finish();
    }
}

} // verus!
