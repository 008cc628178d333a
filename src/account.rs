//! Accounts: the requests that create and authenticate users, the records
//! handed to the user store, and the rules their fields must meet.

use argon2::password_hash::rand_core::OsRng;
use argon2::password_hash::{PasswordHash, PasswordHasher, PasswordVerifier, SaltString};
use argon2::Argon2;
use vstd::prelude::*;

verus! {

/// Bounds on the length in bytes of a user name and a display name.
pub const MIN_NAME_LEN: usize = 6;

pub const MAX_NAME_LEN: usize = 200;

/// Bounds on the length in bytes of a password.
pub const MIN_PWD_LEN: usize = 8;

pub const MAX_PWD_LEN: usize = 20;

/// Why a registration or a password was refused.
#[derive(PartialEq, Eq, Structural, Clone, Copy, Debug)]
pub enum InvalidInput {
    UserName,
    DisplayName,
    PasswordLength,
    PasswordNotAscii,
    PasswordNoLower,
    PasswordNoUpper,
    PasswordNoDigit,
    PasswordNoSpecial,
}

/// The message shown to the client for `e`.
pub open spec fn invalid_input_message(e: InvalidInput) -> Seq<char> {
    match e {
        InvalidInput::UserName => "user name is invalid"@,
        InvalidInput::DisplayName => "display name is invalid"@,
        InvalidInput::PasswordLength => "password too short/long"@,
        InvalidInput::PasswordNotAscii => "password invalid(not char)"@,
        InvalidInput::PasswordNoLower => "password invalid(no lower char)"@,
        InvalidInput::PasswordNoUpper => "password invalid(no upper char)"@,
        InvalidInput::PasswordNoDigit => "password invalid(no number)"@,
        InvalidInput::PasswordNoSpecial => "password invalid(no special char)"@,
    }
}

impl InvalidInput {
    /// The message shown to the client.
    pub fn message(&self) -> (r: &'static str)
        ensures
            r@ == invalid_input_message(*self),
    {
        match self {
            InvalidInput::UserName => "user name is invalid",
            InvalidInput::DisplayName => "display name is invalid",
            InvalidInput::PasswordLength => "password too short/long",
            InvalidInput::PasswordNotAscii => "password invalid(not char)",
            InvalidInput::PasswordNoLower => "password invalid(no lower char)",
            InvalidInput::PasswordNoUpper => "password invalid(no upper char)",
            InvalidInput::PasswordNoDigit => "password invalid(no number)",
            InvalidInput::PasswordNoSpecial => "password invalid(no special char)",
        }
    }
}

pub open spec fn is_ascii_char(c: char) -> bool {
    (c as u32) < 128
}

pub open spec fn is_lower(c: char) -> bool {
    'a' <= c && c <= 'z'
}

pub open spec fn is_upper(c: char) -> bool {
    'A' <= c && c <= 'Z'
}

pub open spec fn is_digit(c: char) -> bool {
    '0' <= c && c <= '9'
}

/// ASCII punctuation: the printable characters that are neither letters,
/// digits nor the space.
pub open spec fn is_punctuation(c: char) -> bool {
    ||| '!' <= c && c <= '/'
    ||| ':' <= c && c <= '@'
    ||| '[' <= c && c <= '`'
    ||| '{' <= c && c <= '~'
}

pub open spec fn has_lower(s: Seq<char>) -> bool {
    exists|i: int| 0 <= i < s.len() && is_lower(#[trigger] s[i])
}

pub open spec fn has_upper(s: Seq<char>) -> bool {
    exists|i: int| 0 <= i < s.len() && is_upper(#[trigger] s[i])
}

pub open spec fn has_digit(s: Seq<char>) -> bool {
    exists|i: int| 0 <= i < s.len() && is_digit(#[trigger] s[i])
}

pub open spec fn has_punctuation(s: Seq<char>) -> bool {
    exists|i: int| 0 <= i < s.len() && is_punctuation(#[trigger] s[i])
}

pub open spec fn all_ascii(s: Seq<char>) -> bool {
    forall|i: int| 0 <= i < s.len() ==> is_ascii_char(#[trigger] s[i])
}

/// The verdict on a password of `n_bytes` bytes and characters `s`, with
/// its length bounded by `min_len` and `max_len`; the first rule broken, in
/// this order, is the one reported.
pub open spec fn password_verdict(n_bytes: int, s: Seq<char>, min_len: int, max_len: int) -> Result<
    (),
    InvalidInput,
> {
    if n_bytes < min_len || n_bytes > max_len {
        Err(InvalidInput::PasswordLength)
    } else if !all_ascii(s) {
        Err(InvalidInput::PasswordNotAscii)
    } else if !has_lower(s) {
        Err(InvalidInput::PasswordNoLower)
    } else if !has_upper(s) {
        Err(InvalidInput::PasswordNoUpper)
    } else if !has_digit(s) {
        Err(InvalidInput::PasswordNoDigit)
    } else if !has_punctuation(s) {
        Err(InvalidInput::PasswordNoSpecial)
    } else {
        Ok(())
    }
}

/// Checks a password: between `min_len` and `max_len` bytes, ASCII only,
/// with at least one lower-case letter, one upper-case letter, one digit
/// and one punctuation character.
pub fn validate_password(password: &str, min_len: usize, max_len: usize) -> (r: Result<(), InvalidInput>)
    ensures
        r == password_verdict(password.len() as int, password@, min_len as int, max_len as int),
{
    let n_bytes = password.len();
    if n_bytes < min_len || n_bytes > max_len {
        return Err(InvalidInput::PasswordLength);
    }
    let n = password.unicode_len();
    let mut lower = false;
    let mut upper = false;
    let mut digit = false;
    let mut special = false;
    let mut i: usize = 0;
    while i < n
        invariant
            n == password@.len(),
            min_len <= password.len() <= max_len,
            i <= n,
            forall|k: int| 0 <= k < i ==> is_ascii_char(#[trigger] password@[k]),
            lower == exists|k: int| 0 <= k < i && is_lower(#[trigger] password@[k]),
            upper == exists|k: int| 0 <= k < i && is_upper(#[trigger] password@[k]),
            digit == exists|k: int| 0 <= k < i && is_digit(#[trigger] password@[k]),
            special == exists|k: int| 0 <= k < i && is_punctuation(#[trigger] password@[k]),
        decreases n - i,
    {
        let c = password.get_char(i);
        if 'a' <= c && c <= 'z' {
            lower = true;
        } else if 'A' <= c && c <= 'Z' {
            upper = true;
        } else if '0' <= c && c <= '9' {
            digit = true;
        } else if ('!' <= c && c <= '/') || (':' <= c && c <= '@') || ('[' <= c && c <= '`') || (
        '{' <= c && c <= '~') {
            special = true;
        } else if (c as u32) >= 128 {
            assert(!all_ascii(password@));
            return Err(InvalidInput::PasswordNotAscii);
        }
        i = i + 1;
    }
    if !lower {
        return Err(InvalidInput::PasswordNoLower);
    }
    if !upper {
        return Err(InvalidInput::PasswordNoUpper);
    }
    if !digit {
        return Err(InvalidInput::PasswordNoDigit);
    }
    if !special {
        return Err(InvalidInput::PasswordNoSpecial);
    }
    Ok(())
}

/// A sign-up request.
#[derive(Clone, Debug, PartialEq)]
pub struct RegisterRequest {
    pub username: String,
    pub password: String,
    pub avatar: String,
    pub display_name: String,
}

/// A sign-up request in the shape of the user record.
#[derive(Clone, Debug, PartialEq)]
pub struct CreateUserReq {
    pub username: String,
    pub avatar_url: String,
    pub password: String,
    pub display_name: String,
}

/// A log-in request.
#[derive(Clone, Debug, PartialEq)]
pub struct LoginReq {
    pub username: String,
    pub password: String,
}

/// The token issued on a successful log-in.
#[derive(Clone, Debug, PartialEq)]
pub struct LoginResp {
    pub token: String,
}

/// What the user store is asked to create.
#[derive(Clone, Debug, PartialEq)]
pub struct CreateUser {
    pub username: String,
    pub avatar_url: String,
    pub password_hash: String,
    pub display_name: String,
    pub is_active: bool,
}

/// What the user store is asked to change.
#[derive(Clone, Debug, PartialEq)]
pub struct UpdateUser {
    pub id: i64,
    pub avatar_url: String,
    pub password_hash: String,
    pub display_name: String,
    pub is_active: bool,
}

/// Why a sign-up or a log-in did not go through.
#[derive(PartialEq, Eq, Structural, Clone, Copy, Debug)]
pub enum AccountError {
    Invalid(InvalidInput),
    /// The user name belongs to someone already.
    NameTaken,
    /// No user has that name.
    NotFound,
    /// The password does not match.
    Unauthorized,
    /// Hashing failed, or the stored hash could not be read.
    Hashing,
}

/// The length in bytes of the UTF-8 encoding of `s`, as `str::len` gives it.
pub open spec fn utf8_len(s: Seq<char>) -> usize {
    vstd::utf8::encode_utf8(s).len() as usize
}

/// The verdict on a sign-up request, `name_taken` telling whether its user
/// name is in use; the first rule broken, in this order, is reported.
pub open spec fn registration_verdict(req: RegisterRequest, name_taken: bool) -> Result<
    (),
    AccountError,
> {
    let name_len = utf8_len(req.username@);
    let display_len = utf8_len(req.display_name@);
    if name_len < MIN_NAME_LEN || name_len > MAX_NAME_LEN {
        Err(AccountError::Invalid(InvalidInput::UserName))
    } else if name_taken {
        Err(AccountError::NameTaken)
    } else if display_len == 0 || display_len > MAX_NAME_LEN {
        Err(AccountError::Invalid(InvalidInput::DisplayName))
    } else {
        match password_verdict(
            utf8_len(req.password@) as int,
            req.password@,
            MIN_PWD_LEN as int,
            MAX_PWD_LEN as int,
        ) {
            Err(e) => Err(AccountError::Invalid(e)),
            Ok(()) => Ok(()),
        }
    }
}

/// Checks a sign-up request against the account rules.
pub fn check_registration(req: &RegisterRequest, name_taken: bool) -> (r: Result<(), AccountError>)
    ensures
        r == registration_verdict(*req, name_taken),
{
    let name_len = req.username.as_str().len();
    if name_len == 0 || name_len < MIN_NAME_LEN || name_len > MAX_NAME_LEN {
        return Err(AccountError::Invalid(InvalidInput::UserName));
    }
    if name_taken {
        return Err(AccountError::NameTaken);
    }
    let display_len = req.display_name.as_str().len();
    if display_len == 0 || display_len > MAX_NAME_LEN {
        return Err(AccountError::Invalid(InvalidInput::DisplayName));
    }
    match validate_password(req.password.as_str(), MIN_PWD_LEN, MAX_PWD_LEN) {
        Err(e) => Err(AccountError::Invalid(e)),
        Ok(()) => Ok(()),
    }
}

/// The user record for an accepted request whose password hashed to
/// `password_hash`: active, and named, pictured and shown as requested.
pub fn registration_record(req: &RegisterRequest, password_hash: String) -> (r: CreateUser)
    ensures
        r == (CreateUser {
            username: req.username,
            avatar_url: req.avatar,
            password_hash,
            display_name: req.display_name,
            is_active: true,
        }),
{
    CreateUser {
        username: req.username.clone(),
        avatar_url: req.avatar.clone(),
        password_hash,
        display_name: req.display_name.clone(),
        is_active: true,
    }
}

#[verifier::external_type_specification]
#[verifier::external_body]
pub struct ExPasswordHashError(argon2::password_hash::Error);

/// Relies on argon2's `PasswordHasher::hash_password` under `Argon2::default()`
/// (Argon2id, version 19), with a fresh salt from `SaltString::generate` over
/// the operating system's generator, rendered as a PHC string. The salt is
/// random, so nothing is promised of the text.
#[verifier::external_body]
fn hash_password(password: &str) -> (r: Result<String, argon2::password_hash::Error>) {
    let salt = SaltString::generate(&mut OsRng);
    let hash = Argon2::default().hash_password(password.as_bytes(), &salt)?;
    Ok(hash.to_string())
}

/// Checks a sign-up request and, if it is accepted, hashes its password and
/// returns the record to store.
pub fn register_user(req: &RegisterRequest, name_taken: bool) -> (r: Result<CreateUser, AccountError>)
    ensures
        registration_verdict(*req, name_taken) matches Err(e) ==> r == Err::<CreateUser, _>(e),
        registration_verdict(*req, name_taken) is Ok ==> (r is Ok || r == Err::<CreateUser, _>(
            AccountError::Hashing,
        )),
        r matches Ok(u) ==> {
            &&& u.username == req.username
            &&& u.avatar_url == req.avatar
            &&& u.display_name == req.display_name
            &&& u.is_active
        },
{
    match check_registration(req, name_taken) {
        Err(e) => Err(e),
        Ok(()) => match hash_password(req.password.as_str()) {
            Err(_) => Err(AccountError::Hashing),
            Ok(h) => Ok(registration_record(req, h)),
        },
    }
}

/// Whether argon2 can read `hash` as a PHC string.
pub uninterp spec fn phc_readable(hash: Seq<char>) -> bool;

/// Whether argon2 finds that `password` hashes to the PHC string `hash`.
pub uninterp spec fn argon2_accepts(password: Seq<char>, hash: Seq<char>) -> bool;

/// Relies on argon2's `PasswordHash::new`, which reads a PHC string, and on
/// `PasswordVerifier::verify_password` under `Argon2::default()`, which
/// rehashes the password with the salt and parameters of that string and
/// compares. Both depend on their arguments alone.
#[verifier::external_body]
fn verify_password(password: &str, hash: &str) -> (r: Result<bool, argon2::password_hash::Error>)
    ensures
        r is Ok == phc_readable(hash@),
        r matches Ok(b) ==> b == argon2_accepts(password@, hash@),
{
    let parsed = PasswordHash::new(hash)?;
    Ok(Argon2::default().verify_password(password.as_bytes(), &parsed).is_ok())
}

/// The verdict on a log-in, given what checking the password against the
/// stored hash gave: `None` when the hash could not be read.
pub open spec fn login_outcome(checked: Option<bool>) -> Result<(), AccountError> {
    match checked {
        None => Err(AccountError::Hashing),
        Some(false) => Err(AccountError::Unauthorized),
        Some(true) => Ok(()),
    }
}

/// Decides a log-in from the result of the password check.
pub fn judge_login(checked: Option<bool>) -> (r: Result<(), AccountError>)
    ensures
        r == login_outcome(checked),
{
    match checked {
        None => Err(AccountError::Hashing),
        Some(false) => Err(AccountError::Unauthorized),
        Some(true) => Ok(()),
    }
}

/// Checks a log-in against the stored password hash of the user it names,
/// `None` if no user has that name.
pub fn authenticate(req: &LoginReq, stored_hash: Option<&str>) -> (r: Result<(), AccountError>)
    ensures
        stored_hash is None ==> r == Err::<(), _>(AccountError::NotFound),
        stored_hash matches Some(h) ==> r == login_outcome(
            if phc_readable(h@) {
                Some(argon2_accepts(req.password@, h@))
            } else {
                None
            },
        ),
{
    match stored_hash {
        None => Err(AccountError::NotFound),
        Some(h) => {
            let checked = match verify_password(req.password.as_str(), h) {
                Ok(b) => Some(b),
                Err(_) => None,
            };
            judge_login(checked)
        },
    }
}

} // verus!
