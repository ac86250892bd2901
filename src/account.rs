//! Registration and login decisions around password hashing and session
//! token issuance.
use vstd::prelude::*;
use vstd::string::StringExecFns;
use crate::session::{StorageUnavailable, admitted_user, validate_session};

verus! {

/// Registration form fields.
pub struct RegisterData {
    pub username: String,
    pub password: String,
}

/// Login form fields.
pub struct LoginData {
    pub username: String,
    pub password: String,
}

/// A stored user: id, unique name and password hash.
pub struct User {
    pub id: i64,
    pub username: String,
    pub password: String,
}

#[verifier::external_type_specification]
#[verifier::external_body]
pub struct ExBcryptError(bcrypt::BcryptError);

/// What bcrypt's verification answers for a password against a stored hash:
/// `Some(matches)`, or `None` where the stored hash cannot be read.
pub uninterp spec fn password_verdict(password: Seq<char>, hash: Seq<char>) -> Option<bool>;

/// Work factor of the stored password hashes.
pub const HASH_COST: u32 = 4;

/// Relies on bcrypt::hash: a fresh random salt each call; on success the
/// `$2b$` string of 60 characters, which bcrypt::verify accepts for the same
/// password (verify recomputes the hash with the stored salt and cost).
#[verifier::external_body]
fn bcrypt_hash(password: &str, cost: u32) -> (r: Result<String, bcrypt::BcryptError>)
    ensures
        r matches Ok(h) ==> h@.len() == 60 && password_verdict(password@, h@) == Some(true),
{
    bcrypt::hash(password, cost)
}

/// Relies on bcrypt::verify: the answer depends on the password and the
/// stored hash alone; an unreadable hash is an error.
#[verifier::external_body]
fn bcrypt_verify(password: &str, hash: &str) -> (r: Result<bool, bcrypt::BcryptError>)
    ensures
        match r {
            Ok(b) => password_verdict(password@, hash@) == Some(b),
            Err(_) => password_verdict(password@, hash@) is None,
        },
{
    bcrypt::verify(password, hash)
}

/// Relies on uuid::Uuid::new_v4 and its `Display`, the hyphenated form of
/// 36 characters; the value is random.
#[verifier::external_body]
fn fresh_token() -> (r: String)
    ensures
        r@.len() == 36,
{
    uuid::Uuid::new_v4().to_string()
}

/// Password hashing failed.
#[derive(Clone, Copy, Debug, PartialEq, Eq, Structural)]
pub struct HashFailed;

/// Hashes the password of a registration for storage: a hash that the
/// login check accepts for that same password. Whether hashing succeeds
/// rests with bcrypt (its salt comes from the system's randomness).
pub fn hash_registration(data: &RegisterData) -> (r: Result<String, HashFailed>)
    ensures
        r matches Ok(h) ==> h@.len() == 60 && password_verdict(data.password@, h@) == Some(true),
{
    match bcrypt_hash(data.password.as_str(), HASH_COST) {
        Ok(h) => Ok(h),
        Err(_) => Err(HashFailed),
    }
}

pub open spec fn registered_location() -> Seq<char> {
    "/login?message=Реєстрація успішна&success=true"@
}

pub open spec fn name_taken_location() -> Seq<char> {
    "/register?message=Ім'я користувача вже зайнято&success=false"@
}

pub open spec fn login_failed_location() -> Seq<char> {
    "/login?message=Невірні дані&success=false"@
}

pub open spec fn login_required_location() -> Seq<char> {
    "/login?message=Будь ласка, увійдіть у систему&success=false"@
}

pub open spec fn logged_out_location() -> Seq<char> {
    "/login?message=Вихід успішний&success=true"@
}

/// Where a registration redirects: on to login when the user row was
/// inserted, back to the form when the name was taken or storage failed.
pub fn registration_redirect(inserted: Result<(), StorageUnavailable>) -> (r: &'static str)
    ensures
        inserted is Ok ==> r@ == registered_location(),
        inserted is Err ==> r@ == name_taken_location(),
{
    match inserted {
        Ok(()) => "/login?message=Реєстрація успішна&success=true",
        Err(_) => "/register?message=Ім'я користувача вже зайнято&success=false",
    }
}

/// Outcome of checking login credentials.
pub enum LoginCheck {
    /// The password matches: a new session token for this user.
    Granted { user_id: i64, token: String },
    Denied,
}

/// Whether `password` opens the account that a user lookup found.
pub open spec fn credentials_match(
    password: Seq<char>,
    user: Result<Option<User>, StorageUnavailable>,
) -> bool {
    match user {
        Ok(Some(u)) => password_verdict(password, u.password@) == Some(true),
        _ => false,
    }
}

/// Checks a login against the user that storage found under its name. A
/// missing user, a failed lookup, a wrong password and an unreadable stored
/// hash are all denied; a match issues a fresh session token.
pub fn check_login(data: &LoginData, user: Result<Option<User>, StorageUnavailable>) -> (r: LoginCheck)
    ensures
        r is Granted == credentials_match(data.password@, user),
        r matches LoginCheck::Granted { user_id, token } ==> {
            &&& user matches Ok(Some(u)) && u.id == user_id
            &&& token@.len() == 36
        },
{
    match user {
        Ok(Some(u)) => match bcrypt_verify(data.password.as_str(), u.password.as_str()) {
            Ok(true) => LoginCheck::Granted { user_id: u.id, token: fresh_token() },
            _ => LoginCheck::Denied,
        },
        _ => LoginCheck::Denied,
    }
}

/// Response to a login: a redirect, and the session cookie value to set.
pub struct LoginResponse {
    pub location: String,
    pub session_cookie: Option<String>,
}

/// Finishes a login once storage answered the session insert: only a
/// granted login whose session row was stored sets the cookie and leads to
/// the chat page.
pub fn login_response(check: LoginCheck, stored: Result<(), StorageUnavailable>) -> (r: LoginResponse)
    ensures
        match check {
            LoginCheck::Granted { token, .. } if stored is Ok => r.location@ == "/"@
                && r.session_cookie == Some(token),
            _ => r.location@ == login_failed_location() && r.session_cookie is None,
        },
{
    match check {
        LoginCheck::Granted { token, .. } => match stored {
            Ok(()) => LoginResponse { location: String::from_str("/"), session_cookie: Some(token) },
            Err(_) => LoginResponse {
                location: String::from_str("/login?message=Невірні дані&success=false"),
                session_cookie: None,
            },
        },
        LoginCheck::Denied => LoginResponse {
            location: String::from_str("/login?message=Невірні дані&success=false"),
            session_cookie: None,
        },
    }
}

/// Whether the chat page may be served for a session lookup; otherwise the
/// client is sent to the login form.
pub fn may_view_chat(lookup: Result<Option<i64>, StorageUnavailable>) -> (r: bool)
    ensures
        r == admitted_user(lookup) is Some,
{
    validate_session(lookup).is_some()
}

/// Where a client without a valid session is sent.
pub fn login_required_redirect() -> (r: &'static str)
    ensures
        r@ == login_required_location(),
{
    "/login?message=Будь ласка, увійдіть у систему&success=false"
}

/// Where logging out leads; the session cookie is cleared alongside.
pub fn logout_redirect() -> (r: &'static str)
    ensures
        r@ == logged_out_location(),
{
    "/login?message=Вихід успішний&success=true"
}

} // verus!
