//! Password storage with Argon2: the salted hash kept for an account, and the
//! check of a password against it.

use vstd::prelude::*;
use argon2::Argon2;
use argon2::password_hash::{PasswordHash, PasswordHasher, PasswordVerifier, SaltString};
use rand_core::OsRng;

verus! {

/// The PHC string that `Argon2::default().hash_password_simple` gives for a
/// password and a salt (Argon2id, version 19, the crate's default cost
/// parameters), or `None` where it reports an error.
pub uninterp spec fn argon2_phc(password: Seq<char>, salt: Seq<char>) -> Option<Seq<char>>;

/// Whether `PasswordHash::new` accepts a string as a PHC string.
pub uninterp spec fn phc_parses(phc: Seq<char>) -> bool;

/// Whether `Argon2::default().verify_password` accepts a password for the
/// parsed PHC string.
pub uninterp spec fn argon2_accepts(password: Seq<char>, phc: Seq<char>) -> bool;

/// One character of the B64 alphabet (standard Base64 without padding):
/// A-Z, a-z, 0-9, '+' and '/'.
pub open spec fn b64_char(c: char) -> bool {
    ('A' <= c && c <= 'Z') || ('a' <= c && c <= 'z') || ('0' <= c && c <= '9') || c == '+' || c
        == '/'
}

/// The shape of a salt that `SaltString::generate` makes: sixteen bytes
/// written in B64, that is 22 characters of the alphabet, the last of which
/// carries only two bits ('A', 'Q', 'g' or 'w').
pub open spec fn generated_salt_shape(s: Seq<char>) -> bool {
    &&& s.len() == 22
    &&& forall|i: int| 0 <= i < 22 ==> b64_char(#[trigger] s[i])
    &&& (s[21] == 'A' || s[21] == 'Q' || s[21] == 'g' || s[21] == 'w')
}

/// A password that Argon2 takes: at most 2^32 - 1 bytes in UTF-8.
pub open spec fn hashable_password(password: Seq<char>) -> bool {
    vstd::utf8::encode_utf8(password).len() <= 0xFFFF_FFFF
}

/// A fresh salt from `SaltString::generate(&mut OsRng)`, as text: sixteen
/// random bytes in B64 (password-hash's `Salt::RECOMMENDED_LENGTH`). The
/// bytes are random; only the shape of the text is stated, and nothing in
/// this contract says that two calls draw different salts.
#[verifier::external_body]
pub(crate) fn generate_salt() -> (r: String)
    ensures
        generated_salt_shape(r@),
{
    SaltString::generate(&mut OsRng).as_str().to_string()
}

/// The start of every PHC string that `Argon2::default()` writes: the
/// algorithm Argon2id, version 19 (0x13), and the default costs m=4096, t=3,
/// p=1, each part after a '$'.
pub open spec fn argon2_phc_prefix() -> Seq<char> {
    "$argon2id$v=19$m=4096,t=3,p=1$"@
}

/// The form of the PHC string for a password hashed with `salt`: the
/// prefix, the salt as given, '$', and the 32-byte output in B64 (43
/// characters).
pub open spec fn phc_form(salt: Seq<char>, phc: Seq<char>) -> bool {
    exists|output: Seq<char>|
        {
            &&& output.len() == 43
            &&& forall|i: int| 0 <= i < 43 ==> b64_char(#[trigger] output[i])
            &&& phc == argon2_phc_prefix() + salt + "$"@ + output
        }
}

/// `Argon2::default().hash_password_simple(password, salt)`, written out as a
/// PHC string with `to_string`; `None` where the crate reports an error.
/// The contract names the result, and states what the crate's own example
/// shows: the string parses with `PasswordHash::new`, and `verify_password`
/// accepts the same password for it. It also states what the source shows of
/// when hashing succeeds: a salt of the generated shape decodes to sixteen
/// bytes, within the eight to 2^32 - 1 that Argon2 takes, and the default
/// parameters are valid, so only a password over 2^32 - 1 bytes is refused.
/// And it states the form of the string, as `PasswordHash`'s `Display` writes
/// what `hash_password_simple` fills in: algorithm, version, the three
/// default costs, the salt text, and the B64 output of 32 bytes.
#[verifier::external_body]
pub(crate) fn argon2_hash(password: &str, salt: &str) -> (r: Option<String>)
    ensures
        match r {
            Some(h) => argon2_phc(password@, salt@) == Some(h@),
            None => argon2_phc(password@, salt@).is_none(),
        },
        r matches Some(h) ==> phc_parses(h@) && argon2_accepts(password@, h@),
        r matches Some(h) ==> phc_form(salt@, h@),
        generated_salt_shape(salt@) && hashable_password(password@) ==> r.is_some(),
{
    match Argon2::default().hash_password_simple(password.as_bytes(), salt) {
        Ok(h) => Some(h.to_string()),
        Err(_) => None,
    }
}

/// Parses `phc` with `PasswordHash::new` and, where it parses, checks the
/// password with `Argon2::default().verify_password`: `None` where the
/// string does not parse, else whether the password was accepted.
#[verifier::external_body]
pub(crate) fn argon2_check(password: &str, phc: &str) -> (r: Option<bool>)
    ensures
        r == password_check(phc@, password@),
{
    match PasswordHash::new(phc) {
        Ok(h) => Some(Argon2::default().verify_password(password.as_bytes(), &h).is_ok()),
        Err(_) => None,
    }
}

/// What checking `password` against the stored text `phc` gives: `None`
/// where `phc` is no PHC string, else whether Argon2 accepts the password.
pub open spec fn password_check(phc: Seq<char>, password: Seq<char>) -> Option<bool> {
    if phc_parses(phc) {
        Some(argon2_accepts(password, phc))
    } else {
        None
    }
}

} // verus!
