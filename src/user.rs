//! The user store: the session's account directory, the signup builder,
//! and authentication.
use vstd::prelude::*;

use crate::account::{build_refusal, empty_model, key_bytes, staged_url, AccountBuilder, BuilderModel};
use crate::address::address_text;
use crate::directory::{
    has_primary, primary_count, AccountKind, AccountView, DirectoryModel, UserData, ViewModel,
};
use crate::error::WalletError;
use crate::keystore::{derive_wallet, derived_address, is_seal_error, join_path, joined, scrub_bytes, seal};
use crate::address::format_address;
use crate::totp::{accepts, check};
use crate::words::{bip39_phrase, is_valid_phrase, word_count_of};

verus! {

/// Directory of sealed private keys, under the storage root.
pub const KEYSTORE: &'static str = "keystore";

/// Directory of sealed TOTP secrets, under the storage root.
pub const TOTP: &'static str = "totp";

/// What a store holds.
pub struct StoreModel {
    /// The authenticated session's directory, if any.
    pub session: Option<DirectoryModel>,
    /// The signup builder, while a signup is under way.
    pub builder: Option<BuilderModel>,
    /// The storage root.
    pub storage: Seq<char>,
}

/// Whether `v` is the record of a primary account of `d`.
pub open spec fn is_primary_record(d: DirectoryModel, v: ViewModel) -> bool {
    exists|i: int|
        0 <= i < d.accounts.len() && d.accounts[i].1.kind == AccountKind::Primary && #[trigger] d.accounts[i].1
            == v
}

/// The user's store. At most one account of its directory is primary.
pub struct User {
    user_data: Option<UserData>,
    account_builder: Option<AccountBuilder>,
    storage: String,
    language: bip39::Language,
}

impl View for User {
    type V = StoreModel;

    closed spec fn view(&self) -> StoreModel {
        StoreModel {
            session: match self.user_data {
                Some(d) => Some(d@),
                None => None,
            },
            builder: match self.account_builder {
                Some(b) => Some(b@),
                None => None,
            },
            storage: self.storage@,
        }
    }
}

/// A login whose passphrase opened both sealed entries and that waits for
/// the one-time code: the directory read from disk, its primary record and
/// the opened TOTP secret.
pub struct PendingLogin {
    data: UserData,
    account: AccountView,
    secret: Vec<u8>,
}

impl PendingLogin {
    /// The directory that becomes the session once the code is accepted.
    pub closed spec fn directory(&self) -> DirectoryModel {
        self.data@
    }

    /// The primary record that the login returns.
    pub closed spec fn account(&self) -> ViewModel {
        self.account@
    }

    /// The opened TOTP secret.
    pub closed spec fn secret(&self) -> Seq<u8> {
        self.secret@
    }

    /// The directory is well-formed.
    pub closed spec fn wf(&self) -> bool {
        self.data.wf()
    }
}

impl Drop for PendingLogin {
    /// The opened TOTP secret is wiped whenever a pending login goes away.
    fn drop(&mut self)
        opens_invariants none
        no_unwind
    {
        scrub_bytes(&mut self.secret);
    }
}

/// How a login goes on once the primary key has been opened.
pub enum LoginStep {
    /// No second factor is configured: the session is established.
    Authenticated(AccountView),
    /// The TOTP secret sealed at this path is to be opened with the same
    /// passphrase, and the result handed to `login_after_secret`.
    UnsealTotp(String),
}

/// The login step is the session established with record `v`.
pub open spec fn authenticated_as(r: Result<LoginStep, WalletError>, v: ViewModel) -> bool {
    match r {
        Ok(LoginStep::Authenticated(a)) => a@ == v,
        _ => false,
    }
}

/// The login step asks for the TOTP secret sealed at `path`.
pub open spec fn unseal_totp_at(r: Result<LoginStep, WalletError>, path: Seq<char>) -> bool {
    match r {
        Ok(LoginStep::UnsealTotp(p)) => p@ == path,
        _ => false,
    }
}

/// A directory made by signup: the account at `address` alone, as
/// primary, and a TOTP secret sealed under the TOTP directory.
pub open spec fn is_signup_directory(d: DirectoryModel, address: Seq<char>) -> bool {
    &&& d.accounts.len() == 1
    &&& d.accounts[0].1 == (ViewModel { address, kind: AccountKind::Primary })
    &&& d.totp is Some
    &&& exists|totp_id: Seq<char>| #[trigger] joined(TOTP@, totp_id) == d.totp.unwrap()
}

/// `after` is `before` with record `v` added to the session's directory
/// under a new identifier.
pub open spec fn appended(before: StoreModel, after: StoreModel, v: ViewModel) -> bool {
    &&& before.session is Some
    &&& after.session is Some
    &&& after.builder == before.builder
    &&& after.storage == before.storage
    &&& after.session.unwrap().totp == before.session.unwrap().totp
    &&& after.session.unwrap().accounts.len() == before.session.unwrap().accounts.len() + 1
    &&& after.session.unwrap().accounts.drop_last() == before.session.unwrap().accounts
    &&& after.session.unwrap().accounts.last().1 == v
}

impl User {
    /// Every loaded directory is well-formed: distinct identifiers, at most
    /// one primary account.
    pub closed spec fn wf(&self) -> bool {
        match self.user_data {
            Some(d) => d.wf(),
            None => true,
        }
    }

    /// A store rooted at `storage`, with no session and no signup.
    pub fn new(storage: String, language: bip39::Language) -> (r: User)
        ensures
            r.wf(),
            r@ == (StoreModel { session: None, builder: None, storage: storage@ }),
    {
        User { user_data: None, account_builder: None, storage, language }
    }

    /// The directory of sealed private keys.
    pub fn keystore(&self) -> (r: String)
        ensures
            r@ == joined(self@.storage, KEYSTORE@),
    {
        join_path(self.storage.as_str(), KEYSTORE)
    }

    /// The directory of sealed TOTP secrets.
    pub fn totp(&self) -> (r: String)
        ensures
            r@ == joined(self@.storage, TOTP@),
    {
        join_path(self.storage.as_str(), TOTP)
    }

    /// The session's directory, for saving.
    pub fn user_data(&self) -> (r: Option<&UserData>)
        ensures
            r is Some <==> self@.session is Some,
            r is Some ==> r.unwrap()@ == self@.session.unwrap(),
            r is Some && self.wf() ==> r.unwrap().wf(),
    {
        match &self.user_data {
            Some(d) => Some(d),
            None => None,
        }
    }

    /// Whether the session's directory holds a primary account.
    pub fn primary_exists(&self) -> (r: Result<bool, WalletError>)
        ensures
            self@.session is None ==> r == Err::<bool, WalletError>(WalletError::NotAuthenticated),
            self@.session is Some ==> r == Ok::<bool, WalletError>(
                has_primary(self@.session.unwrap()),
            ),
    {
        match &self.user_data {
            None => Err(WalletError::NotAuthenticated),
            Some(d) => Ok(d.primary_index().is_some()),
        }
    }

    /// Start a signup with a fresh builder, wiping any earlier one. Refused
    /// while the session holds a primary account.
    pub fn signup_start(&mut self) -> (r: Result<(), WalletError>)
        requires
            old(self).wf(),
        ensures
            final(self).wf(),
            r is Err <==> (old(self)@.session is Some && has_primary(old(self)@.session.unwrap())),
            r is Err ==> r == Err::<(), WalletError>(WalletError::PrimaryAlreadyExists) && final(self)@ == old(self)@,
            r is Ok ==> final(self)@ == (StoreModel {
                builder: Some(empty_model(false)),
                ..old(self)@
            }),
    {
        let has = match &self.user_data {
            Some(d) => d.primary_index().is_some(),
            None => false,
        };
        if has {
            return Err(WalletError::PrimaryAlreadyExists);
        }
        match &mut self.account_builder {
            Some(b) => b.finish(),
            None => {},
        }
        self.account_builder = Some(AccountBuilder::new(self.language));
        Ok(())
    }

    /// Stage a fresh passphrase in the active builder and return it.
    pub fn signup_passphrase(&mut self) -> (r: Result<String, WalletError>)
        requires
            old(self).wf(),
        ensures
            final(self).wf(),
            old(self)@.builder is None ==> r == Err::<String, WalletError>(
                WalletError::SignupNotStarted,
            ) && final(self)@ == old(self)@,
            old(self)@.builder is Some ==> r is Ok && word_count_of(r.unwrap()@) == 12
                && final(self)@ == (StoreModel {
                builder: Some(
                    BuilderModel { passphrase: Some(r.unwrap()@), ..old(self)@.builder.unwrap() },
                ),
                ..old(self)@
            }),
    {
        match &mut self.account_builder {
            Some(b) => b.passphrase(),
            None => Err(WalletError::SignupNotStarted),
        }
    }

    /// Stage a fresh recovery phrase in the active builder and return it.
    pub fn signup_mnemonic(&mut self) -> (r: Result<String, WalletError>)
        requires
            old(self).wf(),
        ensures
            final(self).wf(),
            old(self)@.builder is None ==> r == Err::<String, WalletError>(
                WalletError::SignupNotStarted,
            ) && final(self)@ == old(self)@,
            old(self)@.builder is Some ==> r is Ok && word_count_of(r.unwrap()@) == 24
                && final(self)@ == (StoreModel {
                builder: Some(
                    BuilderModel { mnemonic: Some(r.unwrap()@), ..old(self)@.builder.unwrap() },
                ),
                ..old(self)@
            }),
    {
        match &mut self.account_builder {
            Some(b) => b.mnemonic(),
            None => Err(WalletError::SignupNotStarted),
        }
    }

    /// Stage a fresh TOTP secret in the active builder and return its
    /// enrollment URI.
    pub fn signup_totp(&mut self) -> (r: Result<String, WalletError>)
        requires
            old(self).wf(),
        ensures
            final(self).wf(),
            old(self)@.builder is None ==> r == Err::<String, WalletError>(
                WalletError::SignupNotStarted,
            ) && final(self)@ == old(self)@,
            old(self)@.builder is Some ==> {
                &&& r is Ok
                &&& final(self)@.session == old(self)@.session
                &&& final(self)@.storage == old(self)@.storage
                &&& final(self)@.builder is Some
                &&& final(self)@.builder.unwrap().passphrase == old(self)@.builder.unwrap().passphrase
                &&& final(self)@.builder.unwrap().mnemonic == old(self)@.builder.unwrap().mnemonic
                &&& final(self)@.builder.unwrap().done == old(self)@.builder.unwrap().done
                &&& final(self)@.builder.unwrap().totp is Some
                &&& final(self)@.builder.unwrap().totp.unwrap().1 == r.unwrap()@
                &&& r.unwrap()@ == staged_url(final(self)@.builder.unwrap().totp.unwrap().0)
            },
    {
        match &mut self.account_builder {
            Some(b) => b.totp(),
            None => Err(WalletError::SignupNotStarted),
        }
    }

    /// Whether `token` is the staged secret's code at `now`.
    pub fn signup_verify(&self, token: &str, now: u64) -> (r: Result<bool, WalletError>)
        ensures
            self@.builder is None ==> r == Err::<bool, WalletError>(WalletError::SignupNotStarted),
            self@.builder is Some && self@.builder.unwrap().totp is None ==> r == Err::<
                bool,
                WalletError,
            >(WalletError::IncompleteBuilder { missing_field: crate::error::BuilderField::Totp }),
            self@.builder is Some && self@.builder.unwrap().totp is Some ==> r == Ok::<
                bool,
                WalletError,
            >(accepts(key_bytes(self@.builder.unwrap().totp.unwrap().0), token@, now as int)),
    {
        match &self.account_builder {
            Some(b) => b.verify(token, now),
            None => Err(WalletError::SignupNotStarted),
        }
    }

    /// Commit the signup: seal the staged secrets under the storage root and
    /// make a fresh directory that holds the new account alone, as primary.
    /// The directory replaces the session's; the caller saves it.
    pub fn signup_build(&mut self) -> (r: Result<AccountView, WalletError>)
        requires
            old(self).wf(),
        ensures
            final(self).wf(),
            old(self)@.builder is None ==> r == Err::<AccountView, WalletError>(
                WalletError::SignupNotStarted,
            ),
            old(self)@.builder is Some && build_refusal(old(self)@.builder.unwrap()) is Some ==> r
                == Err::<AccountView, WalletError>(build_refusal(old(self)@.builder.unwrap()).unwrap()),
            old(self)@.builder is Some && build_refusal(old(self)@.builder.unwrap()) is None && r is Err
                ==> is_seal_error(r->Err_0),
            r is Err ==> final(self)@ == old(self)@,
            r is Ok ==> {
                &&& old(self)@.builder is Some
                &&& build_refusal(old(self)@.builder.unwrap()) is None
                &&& r.unwrap()@.kind == AccountKind::Primary
                &&& r.unwrap()@.address == address_text(
                    derived_address(old(self)@.builder.unwrap().mnemonic.unwrap()),
                )
                &&& final(self)@.builder == Some(
                    BuilderModel { done: true, totp: None, ..old(self)@.builder.unwrap() },
                )
                &&& final(self)@.storage == old(self)@.storage
                &&& final(self)@.session is Some
                &&& is_signup_directory(final(self)@.session.unwrap(), r.unwrap()@.address)
            },
    {
        let keystore = self.keystore();
        let totp_dir = self.totp();
        let built = match &mut self.account_builder {
            Some(b) => b.build(keystore.as_str(), totp_dir.as_str()),
            None => return Err(WalletError::SignupNotStarted),
        };
        let (address, key_id, totp_id) = match built {
            Ok(t) => t,
            Err(e) => return Err(e),
        };
        let account = AccountView::new(address, AccountKind::Primary);
        let mut data = UserData::new();
        let inserted = data.insert(key_id, account.duplicate());
        data.set_totp_path(Some(join_path(TOTP, totp_id.as_str())));
        assert(inserted);
        assert(data@.accounts =~= seq![(key_id@, account@)]);
        assert(joined(TOTP@, totp_id@) == data@.totp.unwrap());
        self.user_data = Some(data);
        Ok(account)
    }

    /// Wipe and discard the signup builder, if there is one.
    pub fn signup_finish(&mut self) -> (r: Result<(), WalletError>)
        requires
            old(self).wf(),
        ensures
            final(self).wf(),
            r is Ok,
            final(self)@ == (StoreModel { builder: None, ..old(self)@ }),
    {
        match &mut self.account_builder {
            Some(b) => b.finish(),
            None => {},
        }
        self.account_builder = None;
        Ok(())
    }

    /// Derive an account from `mnemonic`, seal its key under `passphrase`
    /// and add it to the session's directory as `kind`.
    fn import(&mut self, mnemonic: &str, passphrase: &str, kind: AccountKind) -> (r: Result<
        AccountView,
        WalletError,
    >)
        requires
            old(self).wf(),
        ensures
            final(self).wf(),
            old(self)@.session is None ==> r == Err::<AccountView, WalletError>(
                WalletError::NotAuthenticated,
            ),
            old(self)@.session is Some && kind == AccountKind::Primary && has_primary(
                old(self)@.session.unwrap(),
            ) ==> r == Err::<AccountView, WalletError>(WalletError::PrimaryAlreadyExists),
            r is Err ==> final(self)@ == old(self)@,
            old(self)@.session is Some && !(kind == AccountKind::Primary && has_primary(
                old(self)@.session.unwrap(),
            )) && !bip39_phrase(mnemonic@) ==> r == Err::<AccountView, WalletError>(
                WalletError::CryptoError,
            ),
            r is Err && old(self)@.session is Some && !(kind == AccountKind::Primary && has_primary(
                old(self)@.session.unwrap(),
            )) ==> is_seal_error(r->Err_0),
            r is Ok ==> {
                &&& bip39_phrase(mnemonic@)
                &&& r.unwrap()@.kind == kind
                &&& r.unwrap()@.address == address_text(derived_address(mnemonic@))
                &&& appended(old(self)@, final(self)@, r.unwrap()@)
            },
    {
        let keystore = self.keystore();
        let data = match &mut self.user_data {
            Some(d) => d,
            None => return Err(WalletError::NotAuthenticated),
        };
        if kind == AccountKind::Primary && data.primary_index().is_some() {
            return Err(WalletError::PrimaryAlreadyExists);
        }
        if !is_valid_phrase(mnemonic) {
            return Err(WalletError::CryptoError);
        }
        let (key, address) = match derive_wallet(mnemonic) {
            Some(pair) => pair,
            None => return Err(WalletError::CryptoError),
        };
        let mut key = key;
        let sealed = seal(keystore.as_str(), key.as_slice(), passphrase);
        scrub_bytes(&mut key);
        let id = match sealed {
            Ok(id) => id,
            Err(e) => return Err(e),
        };
        let account = AccountView::new(format_address(address.as_slice()), kind);
        let ghost before = data@;
        if !data.insert(id, account.duplicate()) {
            return Err(WalletError::CryptoError);
        }
        assert(data@.accounts.drop_last() =~= before.accounts);
        Ok(account)
    }

    /// Restore an account from its recovery phrase and add it to the
    /// session's directory, as primary or as imported; returns its address.
    pub fn recover(&mut self, mnemonic: &str, passphrase: &str, is_primary: bool) -> (r: Result<
        String,
        WalletError,
    >)
        requires
            old(self).wf(),
        ensures
            final(self).wf(),
            old(self)@.session is None ==> r == Err::<String, WalletError>(
                WalletError::NotAuthenticated,
            ),
            old(self)@.session is Some && is_primary && has_primary(old(self)@.session.unwrap())
                ==> r == Err::<String, WalletError>(WalletError::PrimaryAlreadyExists),
            old(self)@.session is Some && !(is_primary && has_primary(old(self)@.session.unwrap()))
                && !bip39_phrase(mnemonic@) ==> r == Err::<String, WalletError>(
                WalletError::CryptoError,
            ),
            r is Err ==> final(self)@ == old(self)@,
            r is Ok ==> r.unwrap()@ == address_text(derived_address(mnemonic@)),
            r is Ok ==> appended(
                old(self)@,
                final(self)@,
                ViewModel {
                    address: r.unwrap()@,
                    kind: if is_primary {
                        AccountKind::Primary
                    } else {
                        AccountKind::Imported
                    },
                },
            ),
    {
        let kind = if is_primary {
            AccountKind::Primary
        } else {
            AccountKind::Imported
        };
        match self.import(mnemonic, passphrase, kind) {
            Ok(account) => Ok(account.address()),
            Err(e) => Err(e),
        }
    }

    /// Add an imported account derived from `mnemonic`, leaving the primary
    /// account as it is.
    pub fn add_account(&mut self, mnemonic: &str, passphrase: &str) -> (r: Result<
        AccountView,
        WalletError,
    >)
        requires
            old(self).wf(),
        ensures
            final(self).wf(),
            old(self)@.session is None ==> r == Err::<AccountView, WalletError>(
                WalletError::NotAuthenticated,
            ),
            r is Err ==> final(self)@ == old(self)@,
            r is Err && old(self)@.session is Some ==> is_seal_error(r->Err_0),
            old(self)@.session is Some && !bip39_phrase(mnemonic@) ==> r == Err::<
                AccountView,
                WalletError,
            >(WalletError::CryptoError),
            r is Ok ==> r.unwrap()@.address == address_text(derived_address(mnemonic@)),
            r is Ok ==> r.unwrap()@.kind == AccountKind::Imported && appended(
                old(self)@,
                final(self)@,
                r.unwrap()@,
            ),
    {
        self.import(mnemonic, passphrase, AccountKind::Imported)
    }

    /// The first step of a login with `data`, the directory read from disk:
    /// the index of its primary account and the path of that account's sealed
    /// key, which the caller opens with the passphrase.
    pub fn login_key_path(&self, data: &UserData) -> (r: Result<(usize, String), WalletError>)
        ensures
            !has_primary(data@) ==> r == Err::<(usize, String), WalletError>(WalletError::NotFound),
            has_primary(data@) ==> r is Ok,
            r is Ok ==> r.unwrap().0 < data@.accounts.len() && data@.accounts[r.unwrap().0 as int].1.kind
                == AccountKind::Primary && r.unwrap().1@ == joined(
                joined(self@.storage, KEYSTORE@),
                data@.accounts[r.unwrap().0 as int].0,
            ),
    {
        let index = match data.primary_index() {
            Some(i) => i,
            None => return Err(WalletError::NotFound),
        };
        let (id, _account) = data.entry_at(index);
        let keystore = self.keystore();
        Ok((index, join_path(keystore.as_str(), id.as_str())))
    }

    /// The second step: `key` is what opening the primary key gave. A
    /// failure is passed on and nothing changes. Without a second factor the
    /// directory becomes the session; with one, the login asks for the TOTP
    /// secret under the storage root. The opened key is wiped.
    pub fn login_after_key(
        &mut self,
        data: &UserData,
        index: usize,
        key: Result<Vec<u8>, WalletError>,
    ) -> (r: Result<LoginStep, WalletError>)
        requires
            old(self).wf(),
            data.wf(),
            index < data@.accounts.len(),
            data@.accounts[index as int].1.kind == AccountKind::Primary,
        ensures
            final(self).wf(),
            key is Err ==> r == Err::<LoginStep, WalletError>(key->Err_0) && final(self)@ == old(
                self,
            )@,
            key is Ok && data@.totp is None ==> authenticated_as(r, data@.accounts[index as int].1)
                && final(self)@ == (StoreModel { session: Some(data@), ..old(self)@ }),
            key is Ok && data@.totp is Some ==> unseal_totp_at(
                r,
                joined(old(self)@.storage, data@.totp.unwrap()),
            ) && final(self)@ == old(self)@,
    {
        match key {
            Err(e) => Err(e),
            Ok(opened) => {
                let mut opened = opened;
                scrub_bytes(&mut opened);
                match data.totp_path() {
                    None => {
                        let (_id, account) = data.entry_at(index);
                        self.user_data = Some(data.reloaded());
                        Ok(LoginStep::Authenticated(account))
                    },
                    Some(path) => Ok(
                        LoginStep::UnsealTotp(join_path(self.storage.as_str(), path.as_str())),
                    ),
                }
            },
        }
    }

    /// The third step, with a second factor: `secret` is what opening the
    /// TOTP secret gave. A failure is passed on; otherwise the login waits
    /// for a code against exactly that secret.
    pub fn login_after_secret(
        &self,
        data: &UserData,
        index: usize,
        secret: Result<Vec<u8>, WalletError>,
    ) -> (r: Result<PendingLogin, WalletError>)
        requires
            data.wf(),
            index < data@.accounts.len(),
            data@.accounts[index as int].1.kind == AccountKind::Primary,
        ensures
            secret is Err ==> r is Err && r->Err_0 == secret->Err_0,
            secret is Ok ==> r is Ok && r.unwrap().wf() && r.unwrap().directory() == data@
                && r.unwrap().account() == data@.accounts[index as int].1 && r.unwrap().secret()
                == secret.unwrap()@,
    {
        match secret {
            Err(e) => Err(e),
            Ok(secret) => {
                let (_id, account) = data.entry_at(index);
                Ok(PendingLogin { data: data.reloaded(), account, secret })
            },
        }
    }

    /// Finish a login that waits for a code. Without a code (the prompt was
    /// cancelled) nothing happens; a code that is not the secret's code at
    /// `now` is refused; otherwise the directory becomes the session. The
    /// secret is wiped in every case.
    pub fn login_finish(&mut self, pending: PendingLogin, code: Option<&str>, now: u64) -> (r:
        Result<Option<AccountView>, WalletError>)
        requires
            old(self).wf(),
            pending.wf(),
        ensures
            final(self).wf(),
            code is None ==> r == Ok::<Option<AccountView>, WalletError>(None) && final(self)@ == old(self)@,
            code is Some && !accepts(pending.secret(), code.unwrap()@, now as int) ==> r == Err::<
                Option<AccountView>,
                WalletError,
            >(WalletError::InvalidTotp) && final(self)@ == old(self)@,
            code is Some && accepts(pending.secret(), code.unwrap()@, now as int) ==> r is Ok
                && r.unwrap() is Some && r.unwrap().unwrap()@ == pending.account() && final(self)@
                == (StoreModel { session: Some(pending.directory()), ..old(self)@ }),
    {
        let mut pending = pending;
        let accepted = match code {
            None => {
                scrub_bytes(&mut pending.secret);
                return Ok(None);
            },
            Some(c) => check(pending.secret.as_slice(), c, now),
        };
        scrub_bytes(&mut pending.secret);
        if !accepted {
            return Err(WalletError::InvalidTotp);
        }
        let mut data = UserData::new();
        core::mem::swap(&mut data, &mut pending.data);
        let account = pending.account.duplicate();
        self.user_data = Some(data);
        Ok(Some(account))
    }

    /// End the session; what is on disk stays.
    pub fn logout(&mut self) -> (r: Result<(), WalletError>)
        requires
            old(self).wf(),
        ensures
            final(self).wf(),
            r is Ok,
            final(self)@ == (StoreModel { session: None, ..old(self)@ }),
    {
        self.user_data = None;
        Ok(())
    }

    /// Every account record of the session's directory.
    pub fn list_accounts(&self) -> (r: Result<Vec<AccountView>, WalletError>)
        ensures
            self@.session is None ==> r == Err::<Vec<AccountView>, WalletError>(
                WalletError::NotAuthenticated,
            ),
            self@.session is Some ==> r is Ok && r.unwrap()@.len()
                == self@.session.unwrap().accounts.len() && forall|i: int|
                0 <= i < r.unwrap()@.len() ==> #[trigger] r.unwrap()@[i]@
                    == self@.session.unwrap().accounts[i].1,
    {
        match &self.user_data {
            None => Err(WalletError::NotAuthenticated),
            Some(d) => Ok(d.views()),
        }
    }
}

/// Whatever sequence of operations a store goes through, its directory
/// holds at most one primary account.
pub proof fn lemma_single_primary(u: &User)
    requires
        u.wf(),
    ensures
        u@.session is Some ==> primary_count(u@.session.unwrap().accounts) <= 1,
{
}

} // verus!
