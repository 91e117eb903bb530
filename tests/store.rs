use std::time::{SystemTime, UNIX_EPOCH};

use metamask::account::AccountBuilder;
use metamask::directory::{AccountKind, AccountView, UserData};
use metamask::error::{BuilderField, WalletError};
use metamask::keystore::seal;
use metamask::totp::code_for;
use metamask::user::{LoginStep, User};
use metamask::words::is_valid_phrase;

const PHRASE: &str =
    "abandon abandon abandon abandon abandon abandon abandon abandon abandon abandon abandon about";
const PHRASE_ADDRESS: &str = "0x9858effd232b4033e47d90003d41ec34ecaeda94";

fn now() -> u64 {
    SystemTime::now().duration_since(UNIX_EPOCH).unwrap().as_secs()
}

/// A temporary storage root with its keystore and TOTP directories; all
/// three are removed when the value is dropped.
struct Storage {
    root: tempfile::TempDir,
    _keystore: tempfile::TempDir,
    _totp: tempfile::TempDir,
}

impl Storage {
    fn root(&self) -> String {
        self.root.path().to_str().unwrap().to_string()
    }

    fn keystore(&self) -> String {
        format!("{}/keystore", self.root())
    }

    fn totp(&self) -> String {
        format!("{}/totp", self.root())
    }
}

fn storage() -> Storage {
    let root = tempfile::tempdir().unwrap();
    let sub = |name: &str| {
        tempfile::Builder::new().prefix(name).rand_bytes(0).tempdir_in(root.path()).unwrap()
    };
    let keystore = sub("keystore");
    let totp = sub("totp");
    Storage { root, _keystore: keystore, _totp: totp }
}

/// The TOTP secret bytes carried by an enrollment URI.
fn secret_of(url: &str) -> Vec<u8> {
    let totp = totp_rs::Totp::from_url(url).unwrap();
    totp.secret().as_bytes().to_vec()
}

/// Opens a sealed entry the way the desktop front end does.
fn unseal_path(path: &str, passphrase: &str) -> Result<Vec<u8>, WalletError> {
    match eth_keystore::decrypt_key(path, passphrase) {
        Ok(secret) => Ok(secret),
        Err(eth_keystore::KeystoreError::MacMismatch) => Err(WalletError::AuthenticationFailed),
        Err(eth_keystore::KeystoreError::StdIo(_)) => Err(WalletError::NotFound),
        Err(_) => Err(WalletError::CryptoError),
    }
}

fn unseal(dir: &str, id: &str, passphrase: &str) -> Result<Vec<u8>, WalletError> {
    unseal_path(&format!("{}/{}", dir, id), passphrase)
}

/// Runs the login steps with `passphrase` and, where asked for, `code`.
fn login(
    user: &mut User,
    data: &UserData,
    passphrase: &str,
    code: Option<&str>,
    now: u64,
) -> Result<Option<AccountView>, WalletError> {
    let (index, key_path) = user.login_key_path(data)?;
    let key = unseal_path(&key_path, passphrase);
    match user.login_after_key(data, index, key)? {
        LoginStep::Authenticated(v) => Ok(Some(v)),
        LoginStep::UnsealTotp(path) => {
            let secret = unseal_path(&path, passphrase);
            let pending = user.login_after_secret(data, index, secret)?;
            user.login_finish(pending, code, now)
        }
    }
}

fn reload(user: &User) -> UserData {
    let data = user.user_data().unwrap();
    UserData::from_entries(data.entries(), data.totp_path()).unwrap()
}

#[test]
fn seal_then_unseal_returns_secret() {
    let store = storage();
    let dir = store.keystore();
    let secret = b"a secret worth keeping".to_vec();
    let id = seal(&dir, &secret, "correct horse").unwrap();
    assert_eq!(unseal(&dir, &id, "correct horse").unwrap(), secret);
    assert_eq!(unseal(&dir, &id, "wrong horse"), Err(WalletError::AuthenticationFailed));
    assert_eq!(unseal(&dir, "no-such-entry", "correct horse"), Err(WalletError::NotFound));
}

#[test]
fn seal_into_missing_directory_is_io_error() {
    let id = seal("/tmp/metamask-no-such-dir/nested", b"x", "pass");
    assert_eq!(id, Err(WalletError::IoError));
}

#[test]
fn build_before_staging_is_incomplete() {
    let mut b = AccountBuilder::new(bip39::Language::English);
    assert_eq!(
        b.build("/tmp", "/tmp"),
        Err(WalletError::IncompleteBuilder { missing_field: BuilderField::Passphrase })
    );
    b.passphrase().unwrap();
    assert_eq!(
        b.build("/tmp", "/tmp"),
        Err(WalletError::IncompleteBuilder { missing_field: BuilderField::Mnemonic })
    );
    b.mnemonic().unwrap();
    assert_eq!(
        b.build("/tmp", "/tmp"),
        Err(WalletError::IncompleteBuilder { missing_field: BuilderField::Totp })
    );
    assert_eq!(
        b.verify("123456", now()),
        Err(WalletError::IncompleteBuilder { missing_field: BuilderField::Totp })
    );
}

#[test]
fn second_build_is_already_built() {
    let store = storage();
    let mut b = AccountBuilder::new(bip39::Language::English);
    let passphrase = b.passphrase().unwrap();
    assert_eq!(passphrase.split(' ').count(), 12);
    assert!(is_valid_phrase(&passphrase));
    let mnemonic = b.mnemonic().unwrap();
    assert_eq!(mnemonic.split(' ').count(), 24);
    assert!(is_valid_phrase(&mnemonic));
    let url = b.totp().unwrap();
    let t = now();
    let code = code_for(&secret_of(&url), t);
    assert_eq!(b.verify(&code, t), Ok(true));
    assert_eq!(b.verify(&code, t + 30), Ok(false));
    let keystore = store.keystore();
    let totp = store.totp();
    let (address, key_id, totp_id) = b.build(&keystore, &totp).unwrap();
    assert_eq!(address.len(), 42);
    assert!(address.starts_with("0x"));
    assert_ne!(key_id, totp_id);
    assert_eq!(b.build(&keystore, &totp), Err(WalletError::AlreadyBuilt));
    // The TOTP secret is no longer held once the account is built.
    assert_eq!(
        b.verify(&code, t),
        Err(WalletError::IncompleteBuilder { missing_field: BuilderField::Totp })
    );
}

#[test]
fn finish_clears_staged_fields() {
    let mut b = AccountBuilder::new(bip39::Language::English);
    b.passphrase().unwrap();
    b.mnemonic().unwrap();
    b.totp().unwrap();
    b.finish();
    assert_eq!(
        b.build("/tmp", "/tmp"),
        Err(WalletError::IncompleteBuilder { missing_field: BuilderField::Passphrase })
    );
    assert_eq!(
        b.verify("123456", now()),
        Err(WalletError::IncompleteBuilder { missing_field: BuilderField::Totp })
    );
}

#[test]
fn steps_before_start_are_refused() {
    let store = storage();
    let mut user = User::new(store.root(), bip39::Language::English);
    assert_eq!(user.primary_exists(), Err(WalletError::NotAuthenticated));
    assert_eq!(user.signup_passphrase(), Err(WalletError::SignupNotStarted));
    assert_eq!(user.signup_mnemonic(), Err(WalletError::SignupNotStarted));
    assert_eq!(user.signup_totp(), Err(WalletError::SignupNotStarted));
    assert_eq!(user.signup_verify("123456", now()), Err(WalletError::SignupNotStarted));
    assert!(matches!(user.signup_build(), Err(WalletError::SignupNotStarted)));
    assert_eq!(user.signup_finish(), Ok(()));
    assert!(matches!(user.list_accounts(), Err(WalletError::NotAuthenticated)));
    assert_eq!(user.recover(PHRASE, "pass", false), Err(WalletError::NotAuthenticated));
}

#[test]
fn signup_then_login_round_trip() {
    let store = storage();
    let root = store.root();
    let mut user = User::new(root.clone(), bip39::Language::English);
    assert_eq!(user.signup_start(), Ok(()));
    let passphrase = user.signup_passphrase().unwrap();
    let mnemonic = user.signup_mnemonic().unwrap();
    assert_eq!(mnemonic.split(' ').count(), 24);
    let url = user.signup_totp().unwrap();
    let secret = secret_of(&url);
    let t = now();
    assert_eq!(user.signup_verify(&code_for(&secret, t), t), Ok(true));
    let account = user.signup_build().unwrap();
    assert_eq!(account.kind(), AccountKind::Primary);
    assert_eq!(user.signup_finish(), Ok(()));
    assert_eq!(user.primary_exists(), Ok(true));
    assert_eq!(user.signup_start(), Err(WalletError::PrimaryAlreadyExists));

    let stored = reload(&user);
    let totp_path = stored.totp_path().unwrap();
    assert!(totp_path.starts_with("totp/"));
    assert_eq!(unseal(&root, &totp_path, &passphrase).unwrap(), secret);

    assert_eq!(user.logout(), Ok(()));
    assert_eq!(user.primary_exists(), Err(WalletError::NotAuthenticated));
    assert_eq!(user.signup_start(), Ok(()));
    assert_eq!(user.signup_finish(), Ok(()));

    // Wrong passphrase: refused, still logged out.
    let wrong = login(&mut user, &stored, "not the passphrase", Some("000000"), now());
    assert!(matches!(wrong, Err(WalletError::AuthenticationFailed)));
    assert_eq!(user.primary_exists(), Err(WalletError::NotAuthenticated));

    // Wrong code: refused, still logged out.
    let t = now();
    let bad = if code_for(&secret, t) == "000000" { "111111" } else { "000000" };
    assert!(matches!(login(&mut user, &stored, &passphrase, Some(bad), t), Err(WalletError::InvalidTotp)));
    assert_eq!(user.primary_exists(), Err(WalletError::NotAuthenticated));

    // Cancelled prompt: no response, still logged out.
    assert!(matches!(login(&mut user, &stored, &passphrase, None, now()), Ok(None)));
    assert_eq!(user.primary_exists(), Err(WalletError::NotAuthenticated));

    // Right passphrase and code: the same account, session established.
    let t = now();
    let back = login(&mut user, &stored, &passphrase, Some(&code_for(&secret, t)), t).unwrap().unwrap();
    assert_eq!(back.address(), account.address());
    assert_eq!(back.kind(), AccountKind::Primary);
    assert_eq!(user.primary_exists(), Ok(true));
    let listed = user.list_accounts().unwrap();
    assert_eq!(listed.len(), 1);
    assert_eq!(listed[0].address(), account.address());
}


#[test]
fn login_without_stored_directory_is_not_found() {
    let store = storage();
    let mut user = User::new(store.root(), bip39::Language::English);
    let empty = UserData::new();
    assert!(matches!(user.login_key_path(&empty), Err(WalletError::NotFound)));
    assert!(matches!(login(&mut user, &empty, "pass", None, now()), Err(WalletError::NotFound)));
}

#[test]
fn login_without_second_factor_needs_passphrase_only() {
    let store = storage();
    let root = store.root();
    let keystore = store.keystore();
    let id = seal(&keystore, &[7u8; 32], "pass").unwrap();
    let mut stored = UserData::new();
    assert!(stored.insert(id, AccountView::new(PHRASE_ADDRESS.to_string(), AccountKind::Primary)));
    let mut user = User::new(root, bip39::Language::English);
    let (index, path) = user.login_key_path(&stored).unwrap();
    match user.login_after_key(&stored, index, unseal_path(&path, "pass")).unwrap() {
        LoginStep::Authenticated(v) => assert_eq!(v.address(), PHRASE_ADDRESS),
        LoginStep::UnsealTotp(_) => panic!("no second factor is configured"),
    }
    assert_eq!(user.primary_exists(), Ok(true));
}

#[test]
fn recovered_accounts_keep_a_single_primary() {
    let store = storage();
    let root = store.root();
    let keystore = store.keystore();
    let id = seal(&keystore, &[7u8; 32], "pass").unwrap();
    let mut stored = UserData::new();
    assert!(stored.insert(id, AccountView::new("0x01".to_string(), AccountKind::Imported)));
    let mut user = User::new(root, bip39::Language::English);
    match login(&mut user, &stored, "pass", None, now()) {
        Err(WalletError::NotFound) => {}
        _ => panic!("a directory without a primary account cannot log in"),
    }
    let mut stored = UserData::new();
    let id = seal(&keystore, &[7u8; 32], "pass").unwrap();
    assert!(stored.insert(id, AccountView::new("0x02".to_string(), AccountKind::Primary)));
    assert!(matches!(login(&mut user, &stored, "pass", None, now()), Ok(Some(_))));

    assert_eq!(user.recover(PHRASE, "pass", true), Err(WalletError::PrimaryAlreadyExists));
    assert_eq!(user.recover(PHRASE, "pass", false), Ok(PHRASE_ADDRESS.to_string()));
    let added = user.add_account(PHRASE, "pass").unwrap();
    assert_eq!(added.kind(), AccountKind::Imported);
    assert_eq!(added.address(), PHRASE_ADDRESS);
    let listed = user.list_accounts().unwrap();
    assert_eq!(listed.len(), 3);
    let primaries = listed.iter().filter(|v| v.kind() == AccountKind::Primary).count();
    assert_eq!(primaries, 1);
    assert_eq!(user.recover("not a phrase", "pass", false), Err(WalletError::CryptoError));
    assert!(is_valid_phrase(PHRASE));
    assert!(!is_valid_phrase("abandon abandon abandon"));
}

#[test]
fn directory_reload_keeps_content() {
    let mut data = UserData::new();
    assert!(data.insert("a".to_string(), AccountView::new("0xaa".to_string(), AccountKind::Primary)));
    assert!(data.insert("b".to_string(), AccountView::new("0xbb".to_string(), AccountKind::Imported)));
    data.set_totp_path(Some("totp/t".to_string()));
    let again = UserData::from_entries(data.entries(), data.totp_path()).unwrap();
    let before: Vec<(String, String, AccountKind)> =
        data.entries().iter().map(|(k, v)| (k.clone(), v.address(), v.kind())).collect();
    let after: Vec<(String, String, AccountKind)> =
        again.entries().iter().map(|(k, v)| (k.clone(), v.address(), v.kind())).collect();
    assert_eq!(before, after);
    assert_eq!(again.totp_path(), Some("totp/t".to_string()));
    let copy = data.reloaded();
    let copied: Vec<(String, String, AccountKind)> =
        copy.entries().iter().map(|(k, v)| (k.clone(), v.address(), v.kind())).collect();
    assert_eq!(before, copied);
    assert_eq!(copy.totp_path(), Some("totp/t".to_string()));
}

#[test]
fn directory_refuses_second_primary_and_repeated_ids() {
    let mut data = UserData::new();
    assert!(data.insert("a".to_string(), AccountView::new("0xaa".to_string(), AccountKind::Primary)));
    assert!(!data.insert("b".to_string(), AccountView::new("0xbb".to_string(), AccountKind::Primary)));
    assert!(!data.insert("a".to_string(), AccountView::new("0xcc".to_string(), AccountKind::Imported)));
    assert_eq!(data.entries().len(), 1);
    let two_primaries = vec![
        ("a".to_string(), AccountView::new("0xaa".to_string(), AccountKind::Primary)),
        ("b".to_string(), AccountView::new("0xbb".to_string(), AccountKind::Primary)),
    ];
    assert!(matches!(UserData::from_entries(two_primaries, None), Err(WalletError::IoError)));
    let repeated = vec![
        ("a".to_string(), AccountView::new("0xaa".to_string(), AccountKind::Imported)),
        ("a".to_string(), AccountView::new("0xbb".to_string(), AccountKind::Imported)),
    ];
    assert!(matches!(UserData::from_entries(repeated, None), Err(WalletError::IoError)));
}

#[test]
fn signup_start_gives_a_fresh_builder() {
    let store = storage();
    let mut user = User::new(store.root(), bip39::Language::English);
    assert_eq!(user.signup_start(), Ok(()));
    user.signup_passphrase().unwrap();
    user.signup_mnemonic().unwrap();
    user.signup_totp().unwrap();
    assert_eq!(user.signup_start(), Ok(()));
    assert!(matches!(
        user.signup_build(),
        Err(WalletError::IncompleteBuilder { missing_field: BuilderField::Passphrase })
    ));
    assert_eq!(
        user.signup_verify("123456", now()),
        Err(WalletError::IncompleteBuilder { missing_field: BuilderField::Totp })
    );
}
