//! Accounts and sessions: sign-up, login, logout, and the user that a
//! session cookie names.

use vstd::prelude::*;
use crate::decimal::{decimal, parse_usize, parse_usize_spec, i32_to_string};
use crate::models::Account;
use crate::password::{
    argon2_check, argon2_hash, argon2_phc, generate_salt, generated_salt_shape, hashable_password,
    password_check, phc_form,
};
use crate::reply::{failure, success, FlashKind, Notice, Reply, Target};
use crate::ticket::stored_id;

verus! {

/// A logged-in user, by account id.
#[derive(Debug)]
pub struct User(pub usize);

/// The login form.
pub struct Login {
    pub username: String,
    pub password: String,
}

/// The sign-up form.
pub struct AccountForm {
    pub email: String,
    pub firstname: String,
    pub lastname: String,
    pub password: String,
    pub repeat_password: String,
}

/// The user that the value of the session cookie names: the account id
/// read as an unsigned number.
pub open spec fn cookie_user(value: Seq<char>) -> Option<nat> {
    parse_usize_spec(value)
}

impl User {
    /// The user that a session cookie's value names, if it holds a number.
    pub fn from_cookie(value: &str) -> (r: Option<User>)
        ensures
            match cookie_user(value@) {
                Some(n) => r matches Some(u) && u.0 == n,
                None => r.is_none(),
            },
    {
        match parse_usize(value) {
            Some(n) => Some(User(n)),
            None => None,
        }
    }
}

/// Why a sign-up form is refused, checked in this order: no email, a
/// password field left empty, two different passwords.
pub open spec fn signup_refusal(form: AccountForm) -> Option<Notice> {
    if form.email@.len() == 0 {
        Some(Notice::EmptyEmail)
    } else if form.password@.len() == 0 || form.repeat_password@.len() == 0 {
        Some(Notice::EmptyPassword)
    } else if form.password@ != form.repeat_password@ {
        Some(Notice::PasswordsDiffer)
    } else {
        None
    }
}

/// The account row for a sign-up form, its password hashed with `salt`.
/// `None` where Argon2 refuses the salt, which it does not for a salt of the
/// generated shape and a password it takes.
pub fn account_row(user: AccountForm, salt: &str) -> (r: Option<Account>)
    ensures
        r.is_none() <==> argon2_phc(user.password@, salt@).is_none(),
        generated_salt_shape(salt@) && hashable_password(user.password@) ==> r.is_some(),
        r matches Some(a) ==> {
            &&& a.id.is_none()
            &&& a.email == user.email
            &&& a.firstname == user.firstname
            &&& a.lastname == user.lastname
            &&& argon2_phc(user.password@, salt@) == Some(a.password@)
            &&& phc_form(salt@, a.password@)
            &&& password_check(a.password@, user.password@) == Some(true)
        },
{
    let hashed = argon2_hash(user.password.as_str(), salt);
    match hashed {
        None => None,
        Some(h) => Some(
            Account {
                id: None,
                email: user.email,
                firstname: user.firstname,
                lastname: user.lastname,
                password: h,
            },
        ),
    }
}

/// `row` is what sign-up makes of `form`: the account row with the form's
/// email and names and the Argon2 hash of its password under one salt of
/// the shape that `SaltString::generate` makes. The row is there for every
/// password that Argon2 takes (up to 2^32 - 1 bytes), missing exactly where
/// Argon2 refuses that salt; the stored text is the PHC string
/// `$argon2id$v=19$m=4096,t=3,p=1$<salt>$<output>`, and it opens the account
/// with the form's password.
pub open spec fn signup_row(form: AccountForm, row: Option<Account>) -> bool {
    &&& hashable_password(form.password@) ==> row.is_some()
    &&& row matches Some(a) ==> {
        &&& a.id.is_none()
        &&& a.email == form.email
        &&& a.firstname == form.firstname
        &&& a.lastname == form.lastname
        &&& password_check(a.password@, form.password@) == Some(true)
    }
    &&& exists|salt: Seq<char>|
        {
            &&& generated_salt_shape(salt)
            &&& (row matches Some(a) ==> phc_form(salt, a.password@))
            &&& (row.is_none() <==> (#[trigger] argon2_phc(form.password@, salt)).is_none())
            &&& (row matches Some(a) ==> argon2_phc(form.password@, salt) == Some(a.password@))
        }
}

/// The account row for a sign-up form, its password hashed with a salt
/// freshly drawn from the operating system's random source. The contract
/// states the salt's shape; that the salt is random, and so differs from one
/// sign-up to the next, is not stated.
pub fn insert(user: AccountForm) -> (r: Option<Account>)
    ensures
        signup_row(user, r),
{
    let salt = generate_salt();
    let ghost salt_view = salt@;
    let ghost form = user;
    let r = account_row(user, salt.as_str());
    assert(generated_salt_shape(salt_view));
    assert(r.is_none() <==> argon2_phc(form.password@, salt_view).is_none());
    assert(r matches Some(a) ==> argon2_phc(form.password@, salt_view) == Some(a.password@));
    assert(r matches Some(a) ==> phc_form(salt_view, a.password@));
    r
}

/// What the sign-up route does with a form: refuse it with a message back
/// on the sign-up page, or go on with the account row to store. The row is
/// missing only for a password over 2^32 - 1 bytes, which Argon2 refuses.
pub fn new_account(signup_form: AccountForm) -> (r: Result<Option<Account>, Reply>)
    ensures
        match signup_refusal(signup_form) {
            Some(n) => r == Err::<Option<Account>, Reply>(failure(Target::SignupPage, n)),
            None => r matches Ok(row) && signup_row(signup_form, row),
        },
{
    if signup_form.email.as_str().is_empty() {
        Err(Reply::Flash(FlashKind::Error, Target::SignupPage, Notice::EmptyEmail))
    } else if signup_form.password.as_str().is_empty()
        || signup_form.repeat_password.as_str().is_empty() {
        Err(Reply::Flash(FlashKind::Error, Target::SignupPage, Notice::EmptyPassword))
    } else if !(signup_form.password == signup_form.repeat_password) {
        Err(Reply::Flash(FlashKind::Error, Target::SignupPage, Notice::PasswordsDiffer))
    } else {
        Ok(insert(signup_form))
    }
}

/// The answer once the account row was (or could not be) stored.
pub fn account_stored(stored: bool) -> (r: Reply)
    ensures
        stored ==> r == success(Target::Index, Notice::AccountCreated),
        !stored ==> r == failure(Target::SignupPage, Notice::AccountNotCreated),
{
    if stored {
        Reply::Flash(FlashKind::Success, Target::Index, Notice::AccountCreated)
    } else {
        Reply::Flash(FlashKind::Error, Target::SignupPage, Notice::AccountNotCreated)
    }
}

/// Whether a login with `input_password` may go on, given the stored
/// password of the account with the entered email (`None`: no such
/// account). The result is `None` where the stored text is no PHC string.
pub fn credentials_accepted(stored: Option<&str>, input_password: &str) -> (r: Option<bool>)
    ensures
        match stored {
            None => r == Some(false),
            Some(h) => r == password_check(h@, input_password@),
        },
{
    match stored {
        None => Some(false),
        Some(h) => argon2_check(input_password, h),
    }
}

/// What a login answers: where the credentials were accepted and the
/// account's id found, the session cookie's value and a redirect to the
/// overview; otherwise an error back on the login page.
pub struct LoginReply {
    pub cookie: Option<String>,
    pub reply: Reply,
}

/// The answer to a login attempt; `account_id` is the id of the account
/// whose credentials were accepted, `None` where they were refused.
pub fn login(account_id: Option<i32>) -> (r: LoginReply)
    ensures
        match account_id {
            Some(id) => r.cookie matches Some(c) && c@ == decimal(id as int) && r.reply
                == Reply::Redirect(Target::Index),
            None => r.cookie.is_none() && r.reply == failure(
                Target::LoginPage,
                Notice::InvalidCredentials,
            ),
        },
{
    match account_id {
        Some(id) => LoginReply { cookie: Some(i32_to_string(id)), reply: Reply::Redirect(Target::Index) },
        None => LoginReply {
            cookie: None,
            reply: Reply::Flash(FlashKind::Error, Target::LoginPage, Notice::InvalidCredentials),
        },
    }
}

/// The answer to a logout.
pub fn logout() -> (r: Reply)
    ensures
        r == success(Target::LoginPage, Notice::LoggedOut),
{
    Reply::Flash(FlashKind::Success, Target::LoginPage, Notice::LoggedOut)
}

/// Sign-up goes on exactly for a form with an email and two equal, non-empty
/// passwords; once the email and both password fields are filled in, it
/// refuses with "passwords differ" exactly when the two passwords are not
/// the same text, whole.
pub proof fn law_signup_needs_matching_passwords(form: AccountForm)
    ensures
        signup_refusal(form).is_none() <==> (form.email@.len() > 0 && form.password@.len() > 0
            && form.password@ == form.repeat_password@),
        form.email@.len() > 0 && form.password@.len() > 0 && form.repeat_password@.len() > 0 ==> (
        signup_refusal(form) == Some(Notice::PasswordsDiffer) <==> form.password@
            != form.repeat_password@),
{
}

/// A session that a login opened names the account that logged in: the
/// cookie value written for an account id that is not negative reads back
/// as that id, and that user's stored id is the account's id again.
pub proof fn law_login_cookie_names_account(id: i32)
    requires
        id >= 0,
    ensures
        cookie_user(decimal(id as int)) == Some(id as nat),
        stored_id(id as usize) == id,
{
    crate::decimal::lemma_parse_decimal(id as nat);
}

} // verus!
