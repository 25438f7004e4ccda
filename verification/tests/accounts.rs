use rats::reply::{FlashKind, Notice, Reply, Target};
use rats::user::{account_row, account_stored, credentials_accepted, login, logout, new_account, AccountForm};

fn form(email: &str, password: &str, repeat: &str) -> AccountForm {
    AccountForm {
        email: email.to_string(),
        firstname: "Ada".to_string(),
        lastname: "Lovelace".to_string(),
        password: password.to_string(),
        repeat_password: repeat.to_string(),
    }
}

fn refusal(f: AccountForm) -> Reply {
    match new_account(f) {
        Err(r) => r,
        Ok(_) => panic!("form was accepted"),
    }
}

#[test]
fn signup_refuses_incomplete_forms_in_order() {
    assert_eq!(refusal(form("", "", "x")), Reply::Flash(FlashKind::Error, Target::SignupPage, Notice::EmptyEmail));
    assert_eq!(refusal(form("a@b.c", "", "x")), Reply::Flash(FlashKind::Error, Target::SignupPage, Notice::EmptyPassword));
    assert_eq!(refusal(form("a@b.c", "x", "")), Reply::Flash(FlashKind::Error, Target::SignupPage, Notice::EmptyPassword));
    assert_eq!(refusal(form("a@b.c", "secret", "secreT")), Reply::Flash(FlashKind::Error, Target::SignupPage, Notice::PasswordsDiffer));
    assert_eq!(Notice::PasswordsDiffer.text(), "Passwörter stimmen nicht überein");
}

#[test]
fn signed_up_password_opens_the_account() {
    let account = match new_account(form("a@b.c", "hunter42", "hunter42")) {
        Ok(Some(a)) => a,
        _ => panic!("account was not made"),
    };
    assert_eq!(account.id, None);
    assert_eq!(account.email, "a@b.c");
    assert_eq!(account.firstname, "Ada");
    assert_eq!(account.lastname, "Lovelace");
    assert!(account.password.starts_with("$argon2id$"));
    assert!(!account.password.contains("hunter42"));
    assert_eq!(credentials_accepted(Some(&account.password), "hunter42"), Some(true));
    assert_eq!(credentials_accepted(Some(&account.password), "hunter43"), Some(false));
}

#[test]
fn same_salt_gives_same_hash() {
    let a = account_row(form("a@b.c", "pw", "pw"), "c2FsdHNhbHRzYWx0").unwrap();
    let b = account_row(form("x@y.z", "pw", "pw"), "c2FsdHNhbHRzYWx0").unwrap();
    assert_eq!(a.password, b.password);
    let prefix = "$argon2id$v=19$m=4096,t=3,p=1$c2FsdHNhbHRzYWx0$";
    assert!(a.password.starts_with(prefix));
    assert_eq!(a.password.len(), prefix.len() + 43);
    assert!(account_row(form("a@b.c", "pw", "pw"), "no").is_none());
}

#[test]
fn unknown_or_malformed_accounts() {
    assert_eq!(credentials_accepted(None, "anything"), Some(false));
    assert_eq!(credentials_accepted(Some("plaintext"), "plaintext"), None);
}

#[test]
fn login_and_logout_replies() {
    let ok = login(Some(12));
    assert_eq!(ok.cookie, Some("12".to_string()));
    assert_eq!(ok.reply, Reply::Redirect(Target::Index));
    let refused = login(None);
    assert_eq!(refused.cookie, None);
    assert_eq!(refused.reply, Reply::Flash(FlashKind::Error, Target::LoginPage, Notice::InvalidCredentials));
    assert_eq!(logout(), Reply::Flash(FlashKind::Success, Target::LoginPage, Notice::LoggedOut));
    assert_eq!(account_stored(true), Reply::Flash(FlashKind::Success, Target::Index, Notice::AccountCreated));
    assert_eq!(account_stored(false), Reply::Flash(FlashKind::Error, Target::SignupPage, Notice::AccountNotCreated));
}
