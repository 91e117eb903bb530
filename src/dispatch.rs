//! Named remote-procedure commands and their dispatch onto the user store.
use vstd::prelude::*;

use vstd::string::StringExecFns;

use crate::account::{build_refusal, empty_model, key_bytes, staged_url, BuilderModel};
use crate::keystore::is_seal_error;
use crate::directory::{has_primary, AccountKind, AccountView, Entry};
use crate::error::{BuilderField, WalletError};
use crate::totp::accepts;
use crate::user::{is_signup_directory, StoreModel, User};

verus! {

/// A command that a front end may send.
#[derive(Debug, Clone, Copy, PartialEq, Eq, Structural)]
pub enum Command {
    AccountExists,
    SignupStart,
    SignupPassphrase,
    SignupMnemonic,
    SignupTotp,
    SignupVerify,
    SignupBuild,
    SignupFinish,
    AccountLogin,
    AccountLogout,
    AccountList,
}

/// The command that a method name names, if any.
pub open spec fn command_of(m: Seq<char>) -> Option<Command> {
    if m == "Account.exists"@ {
        Some(Command::AccountExists)
    } else if m == "Signup.start"@ {
        Some(Command::SignupStart)
    } else if m == "Signup.passphrase"@ {
        Some(Command::SignupPassphrase)
    } else if m == "Signup.mnemonic"@ {
        Some(Command::SignupMnemonic)
    } else if m == "Signup.totp"@ {
        Some(Command::SignupTotp)
    } else if m == "Signup.verify"@ {
        Some(Command::SignupVerify)
    } else if m == "Signup.build"@ {
        Some(Command::SignupBuild)
    } else if m == "Signup.finish"@ {
        Some(Command::SignupFinish)
    } else if m == "Account.login"@ {
        Some(Command::AccountLogin)
    } else if m == "Account.logout"@ {
        Some(Command::AccountLogout)
    } else if m == "Account.list"@ {
        Some(Command::AccountList)
    } else {
        None
    }
}

/// Whether two strings hold the same characters.
fn same_text(a: &str, b: &str) -> (r: bool)
    ensures
        r == (a@ == b@),
{
    String::from_str(a) == String::from_str(b)
}

impl Command {
    /// The command named `method`; none for a method that is not handled.
    pub fn from_method(method: &str) -> (r: Option<Command>)
        ensures
            r == command_of(method@),
    {
        if same_text(method, "Account.exists") {
            Some(Command::AccountExists)
        } else if same_text(method, "Signup.start") {
            Some(Command::SignupStart)
        } else if same_text(method, "Signup.passphrase") {
            Some(Command::SignupPassphrase)
        } else if same_text(method, "Signup.mnemonic") {
            Some(Command::SignupMnemonic)
        } else if same_text(method, "Signup.totp") {
            Some(Command::SignupTotp)
        } else if same_text(method, "Signup.verify") {
            Some(Command::SignupVerify)
        } else if same_text(method, "Signup.build") {
            Some(Command::SignupBuild)
        } else if same_text(method, "Signup.finish") {
            Some(Command::SignupFinish)
        } else if same_text(method, "Account.login") {
            Some(Command::AccountLogin)
        } else if same_text(method, "Account.logout") {
            Some(Command::AccountLogout)
        } else if same_text(method, "Account.list") {
            Some(Command::AccountList)
        } else {
            None
        }
    }
}

/// The success payload of a command.
pub enum Reply {
    /// A yes or no answer.
    Flag(bool),
    /// No payload.
    Empty,
    /// A passphrase, a phrase or an enrollment URI.
    Text(String),
    /// One account record.
    Account(AccountView),
    /// Every account record.
    Accounts(Vec<AccountView>),
    /// Logging in needs the passphrase, and possibly a code, from the user:
    /// the caller prompts and runs the steps from `login_key_path` on.
    LoginPrompt,
}

/// The command stages a field of the signup builder.
pub open spec fn is_staging(c: Command) -> bool {
    c == Command::SignupPassphrase || c == Command::SignupMnemonic || c == Command::SignupTotp
}

/// The reply is the flag `b`.
pub open spec fn flag_is(r: Result<Reply, WalletError>, b: bool) -> bool {
    match r {
        Ok(Reply::Flag(x)) => x == b,
        _ => false,
    }
}

/// The reply carries no payload.
pub open spec fn is_empty_reply(r: Result<Reply, WalletError>) -> bool {
    match r {
        Ok(Reply::Empty) => true,
        _ => false,
    }
}

/// The reply asks the caller to prompt for a login.
pub open spec fn is_login_prompt(r: Result<Reply, WalletError>) -> bool {
    match r {
        Ok(Reply::LoginPrompt) => true,
        _ => false,
    }
}

/// The text of a text reply.
pub open spec fn text_of(r: Result<Reply, WalletError>) -> Seq<char> {
    match r {
        Ok(Reply::Text(s)) => s@,
        _ => Seq::empty(),
    }
}

/// The reply is text.
pub open spec fn is_text_reply(r: Result<Reply, WalletError>) -> bool {
    match r {
        Ok(Reply::Text(_)) => true,
        _ => false,
    }
}

/// The reply lists the records of `accounts`, in order.
pub open spec fn accounts_reply(r: Result<Reply, WalletError>, accounts: Seq<Entry>) -> bool {
    match r {
        Ok(Reply::Accounts(v)) => v@.len() == accounts.len() && forall|i: int|
            0 <= i < v@.len() ==> #[trigger] v@[i]@ == accounts[i].1,
        _ => false,
    }
}

/// A successful reply is the new primary record, and the session is the
/// directory that signup made for it.
pub open spec fn built_reply(r: Result<Reply, WalletError>, after: StoreModel) -> bool {
    match r {
        Ok(Reply::Account(v)) => v@.kind == AccountKind::Primary && after.session is Some
            && is_signup_directory(after.session.unwrap(), v@.address),
        Ok(_) => false,
        Err(_) => true,
    }
}

impl User {
    /// Run `command` on this store. `token` is the code that `SignupVerify`
    /// checks at `now`; the other commands ignore both. `AccountLogin`
    /// changes nothing and replies `LoginPrompt`.
    pub fn dispatch(&mut self, command: Command, token: &str, now: u64) -> (r: Result<
        Reply,
        WalletError,
    >)
        requires
            old(self).wf(),
        ensures
            final(self).wf(),
            r is Err ==> final(self)@ == old(self)@,
            command == Command::AccountExists ==> final(self)@ == old(self)@,
            command == Command::AccountExists && old(self)@.session is None ==> r == Err::<
                Reply,
                WalletError,
            >(WalletError::NotAuthenticated),
            command == Command::AccountExists && old(self)@.session is Some ==> flag_is(
                r,
                has_primary(old(self)@.session.unwrap()),
            ),
            command == Command::SignupStart ==> (r is Err <==> (old(self)@.session is Some
                && has_primary(old(self)@.session.unwrap()))),
            command == Command::SignupStart && r is Err ==> r == Err::<Reply, WalletError>(
                WalletError::PrimaryAlreadyExists,
            ),
            command == Command::SignupStart && r is Ok ==> is_empty_reply(r) && final(self)@ == (
            StoreModel { builder: Some(empty_model(false)), ..old(self)@ }),
            is_staging(command) && old(self)@.builder is None ==> r == Err::<Reply, WalletError>(
                WalletError::SignupNotStarted,
            ),
            is_staging(command) && old(self)@.builder is Some ==> is_text_reply(r),
            command == Command::SignupPassphrase && old(self)@.builder is Some ==> final(self)@ == (
            StoreModel {
                builder: Some(
                    BuilderModel { passphrase: Some(text_of(r)), ..old(self)@.builder.unwrap() },
                ),
                ..old(self)@
            }),
            command == Command::SignupMnemonic && old(self)@.builder is Some ==> final(self)@ == (
            StoreModel {
                builder: Some(
                    BuilderModel { mnemonic: Some(text_of(r)), ..old(self)@.builder.unwrap() },
                ),
                ..old(self)@
            }),
            command == Command::SignupTotp && old(self)@.builder is Some ==> {
                &&& final(self)@.session == old(self)@.session
                &&& final(self)@.storage == old(self)@.storage
                &&& final(self)@.builder is Some
                &&& final(self)@.builder.unwrap().passphrase == old(self)@.builder.unwrap().passphrase
                &&& final(self)@.builder.unwrap().mnemonic == old(self)@.builder.unwrap().mnemonic
                &&& final(self)@.builder.unwrap().done == old(self)@.builder.unwrap().done
                &&& final(self)@.builder.unwrap().totp is Some
                &&& final(self)@.builder.unwrap().totp.unwrap().1 == text_of(r)
                &&& text_of(r) == staged_url(final(self)@.builder.unwrap().totp.unwrap().0)
            },
            command == Command::SignupVerify ==> final(self)@ == old(self)@,
            command == Command::SignupVerify && old(self)@.builder is None ==> r == Err::<
                Reply,
                WalletError,
            >(WalletError::SignupNotStarted),
            command == Command::SignupVerify && old(self)@.builder is Some && old(
                self,
            )@.builder.unwrap().totp is None ==> r == Err::<Reply, WalletError>(
                WalletError::IncompleteBuilder { missing_field: BuilderField::Totp },
            ),
            command == Command::SignupVerify && old(self)@.builder is Some && old(
                self,
            )@.builder.unwrap().totp is Some ==> flag_is(
                r,
                accepts(key_bytes(old(self)@.builder.unwrap().totp.unwrap().0), token@, now as int),
            ),
            command == Command::SignupBuild && old(self)@.builder is None ==> r == Err::<
                Reply,
                WalletError,
            >(WalletError::SignupNotStarted),
            command == Command::SignupBuild ==> built_reply(r, final(self)@),
            command == Command::SignupBuild && old(self)@.builder is Some && build_refusal(
                old(self)@.builder.unwrap(),
            ) is Some ==> r == Err::<Reply, WalletError>(
                build_refusal(old(self)@.builder.unwrap()).unwrap(),
            ),
            command == Command::SignupBuild && old(self)@.builder is Some && build_refusal(
                old(self)@.builder.unwrap(),
            ) is None && r is Err ==> is_seal_error(r->Err_0),
            command == Command::SignupBuild && r is Ok ==> final(self)@.builder == Some(
                BuilderModel { done: true, totp: None, ..old(self)@.builder.unwrap() },
            ),
            command == Command::AccountLogin ==> is_login_prompt(r) && final(self)@ == old(self)@,
            command == Command::SignupFinish ==> is_empty_reply(r) && final(self)@ == (StoreModel {
                builder: None,
                ..old(self)@
            }),
            command == Command::AccountLogout ==> is_empty_reply(r) && final(self)@ == (StoreModel {
                session: None,
                ..old(self)@
            }),
            command == Command::AccountList ==> final(self)@ == old(self)@,
            command == Command::AccountList && old(self)@.session is None ==> r == Err::<
                Reply,
                WalletError,
            >(WalletError::NotAuthenticated),
            command == Command::AccountList && old(self)@.session is Some ==> accounts_reply(
                r,
                old(self)@.session.unwrap().accounts,
            ),
    {
        match command {
            Command::AccountExists => match self.primary_exists() {
                Ok(b) => Ok(Reply::Flag(b)),
                Err(e) => Err(e),
            },
            Command::SignupStart => match self.signup_start() {
                Ok(()) => Ok(Reply::Empty),
                Err(e) => Err(e),
            },
            Command::SignupPassphrase => match self.signup_passphrase() {
                Ok(s) => Ok(Reply::Text(s)),
                Err(e) => Err(e),
            },
            Command::SignupMnemonic => match self.signup_mnemonic() {
                Ok(s) => Ok(Reply::Text(s)),
                Err(e) => Err(e),
            },
            Command::SignupTotp => match self.signup_totp() {
                Ok(s) => Ok(Reply::Text(s)),
                Err(e) => Err(e),
            },
            Command::SignupVerify => match self.signup_verify(token, now) {
                Ok(b) => Ok(Reply::Flag(b)),
                Err(e) => Err(e),
            },
            Command::SignupBuild => match self.signup_build() {
                Ok(v) => Ok(Reply::Account(v)),
                Err(e) => Err(e),
            },
            Command::SignupFinish => match self.signup_finish() {
                Ok(()) => Ok(Reply::Empty),
                Err(e) => Err(e),
            },
            Command::AccountLogout => match self.logout() {
                Ok(()) => Ok(Reply::Empty),
                Err(e) => Err(e),
            },
            Command::AccountList => match self.list_accounts() {
                Ok(v) => Ok(Reply::Accounts(v)),
                Err(e) => Err(e),
            },
            Command::AccountLogin => Ok(Reply::LoginPrompt),
        }
    }
}

} // verus!
