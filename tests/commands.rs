use metamask::assets::Assets;
use metamask::dispatch::{Command, Reply};
use metamask::error::WalletError;
use metamask::user::User;

#[test]
fn method_names_map_to_commands() {
    assert_eq!(Command::from_method("Account.exists"), Some(Command::AccountExists));
    assert_eq!(Command::from_method("Signup.start"), Some(Command::SignupStart));
    assert_eq!(Command::from_method("Signup.passphrase"), Some(Command::SignupPassphrase));
    assert_eq!(Command::from_method("Signup.mnemonic"), Some(Command::SignupMnemonic));
    assert_eq!(Command::from_method("Signup.totp"), Some(Command::SignupTotp));
    assert_eq!(Command::from_method("Signup.verify"), Some(Command::SignupVerify));
    assert_eq!(Command::from_method("Signup.build"), Some(Command::SignupBuild));
    assert_eq!(Command::from_method("Signup.finish"), Some(Command::SignupFinish));
    assert_eq!(Command::from_method("Account.login"), Some(Command::AccountLogin));
    assert_eq!(Command::from_method("Account.logout"), Some(Command::AccountLogout));
    assert_eq!(Command::from_method("Account.list"), Some(Command::AccountList));
    assert_eq!(Command::from_method("Browser.open"), None);
    assert_eq!(Command::from_method("account.exists"), None);
    assert_eq!(Command::from_method(""), None);
}

#[test]
fn dispatch_runs_the_named_operation() {
    let mut user = User::new("/tmp".to_string(), bip39::Language::English);
    assert!(matches!(
        user.dispatch(Command::AccountExists, "", 0),
        Err(WalletError::NotAuthenticated)
    ));
    assert!(matches!(
        user.dispatch(Command::SignupPassphrase, "", 0),
        Err(WalletError::SignupNotStarted)
    ));
    assert!(matches!(user.dispatch(Command::SignupStart, "", 0), Ok(Reply::Empty)));
    match user.dispatch(Command::SignupPassphrase, "", 0) {
        Ok(Reply::Text(p)) => assert_eq!(p.split(' ').count(), 12),
        _ => panic!("a passphrase was expected"),
    }
    assert!(matches!(
        user.dispatch(Command::SignupVerify, "123456", 0),
        Err(WalletError::IncompleteBuilder { .. })
    ));
    match user.dispatch(Command::SignupTotp, "", 0) {
        Ok(Reply::Text(url)) => assert!(url.starts_with("otpauth://totp/")),
        _ => panic!("an enrollment URI was expected"),
    }
    assert!(matches!(user.dispatch(Command::SignupVerify, "abcdef", 0), Ok(Reply::Flag(false))));
    assert!(matches!(user.dispatch(Command::SignupFinish, "", 0), Ok(Reply::Empty)));
    assert!(matches!(
        user.dispatch(Command::SignupMnemonic, "", 0),
        Err(WalletError::SignupNotStarted)
    ));
    assert!(matches!(user.dispatch(Command::AccountLogin, "", 0), Ok(Reply::LoginPrompt)));
    assert!(matches!(user.dispatch(Command::AccountLogout, "", 0), Ok(Reply::Empty)));
    assert!(matches!(
        user.dispatch(Command::AccountList, "", 0),
        Err(WalletError::NotAuthenticated)
    ));
}

#[test]
fn asset_paths() {
    assert_eq!(Assets::path_for("/"), "index.html");
    assert_eq!(Assets::path_for("/app.js"), "app.js");
    assert_eq!(Assets::path_for("//css/site.css"), "css/site.css");
    assert_eq!(Assets::path_for("plain.txt"), "plain.txt");
    assert_eq!(Assets::path_for(""), "");
}
