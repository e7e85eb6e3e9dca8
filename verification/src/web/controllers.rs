//! The decisions of the controllers: the credentials a login or sign up is
//! checked with, where a login sends the user, whether a sign up is allowed,
//! and who may change the access of whom.

use vstd::prelude::*;
use vstd::string::*;
use magic_crypt::MagicCryptTrait;
use crate::text::{push_signed_decimal, signed_decimal};
use crate::web::error::ApplicationError;

verus! {

/// What `magic_crypt::MagicCrypt256` with the given key and no IV gives for
/// `encrypt_str_to_base64` of a password.
pub uninterp spec fn encrypted_password(key: Seq<char>, password: Seq<char>) -> Seq<char>;

/// Calls `MagicCrypt256::new(key, None).encrypt_str_to_base64(password)`.
/// Trusted: the result is `encrypted_password` of the key and the password
/// (the cipher is AES-256-CBC keyed by the SHA-256 of the key with a zero IV,
/// so it depends on these two alone).
#[verifier::external_body]
fn encrypt_password(key: &str, password: &str) -> (r: String)
    ensures
        r@ == encrypted_password(key@, password@),
{
    magic_crypt::MagicCrypt256::new(key, None::<String>).encrypt_str_to_base64(password)
}

/// The login form.
pub struct LoginForm {
    login: String,
    password: String,
}

impl LoginForm {
    /// A login form with the given fields.
    pub fn new(login: String, password: String) -> (f: LoginForm)
        ensures
            f.login() == login@,
            f.password() == password@,
    {
        LoginForm { login, password }
    }

    /// The login typed.
    pub closed spec fn login(&self) -> Seq<char> {
        self.login@
    }

    /// The password typed.
    pub closed spec fn password(&self) -> Seq<char> {
        self.password@
    }

    /// The credentials the login is checked with: the login as typed and the
    /// password encrypted with the application key.
    pub fn credentials(&self, encrypt_key: &str) -> (c: (String, String))
        ensures
            c.0@ == self.login(),
            c.1@ == encrypted_password(encrypt_key@, self.password()),
    {
        (self.login.clone(), encrypt_password(encrypt_key, self.password.as_str()))
    }
}

/// Where a login sends the user: always home; with the session cookie when a
/// token was emitted, after a delay otherwise.
#[derive(Debug)]
pub struct LoginResponse {
    /// The address the user is sent to.
    pub location: String,
    /// The session cookie to set, as its name and value.
    pub cookie: Option<(String, String)>,
    /// How long to wait before answering, in seconds.
    pub delay_seconds: u64,
}

/// The delay before answering a failed login, in seconds.
pub const FAILED_LOGIN_DELAY_SECONDS: u64 = 3;

/// Answers a login, knowing the token emitted if the credentials matched.
pub fn login_response(token: Option<String>, cookie_name: &str) -> (r: LoginResponse)
    ensures
        r.location@ == "/"@,
        match token {
            Some(t) => (r.cookie matches Some(c) && c.0@ == cookie_name@ && c.1@ == t@) && r.delay_seconds == 0,
            None => r.cookie is None && r.delay_seconds == FAILED_LOGIN_DELAY_SECONDS,
        },
{
    match token {
        Some(t) => LoginResponse {
            location: String::from_str("/"),
            cookie: Some((String::from_str(cookie_name), t)),
            delay_seconds: 0,
        },
        None => LoginResponse {
            location: String::from_str("/"),
            cookie: None,
            delay_seconds: FAILED_LOGIN_DELAY_SECONDS,
        },
    }
}

/// The sign up form.
pub struct SignUpForm {
    login: String,
    name: String,
    password: String,
}

impl SignUpForm {
    /// A sign up form with the given fields.
    pub fn new(login: String, name: String, password: String) -> (f: SignUpForm)
        ensures
            f.login() == login@,
            f.name() == name@,
            f.password() == password@,
    {
        SignUpForm { login, name, password }
    }

    /// The login asked for.
    pub closed spec fn login(&self) -> Seq<char> {
        self.login@
    }

    /// The name asked for.
    pub closed spec fn name(&self) -> Seq<char> {
        self.name@
    }

    /// The password asked for.
    pub closed spec fn password(&self) -> Seq<char> {
        self.password@
    }

    /// The login, name and encrypted password of the new user.
    pub fn new_user(&self, encrypt_key: &str) -> (u: (String, String, String))
        ensures
            u.0@ == self.login(),
            u.1@ == self.name(),
            u.2@ == encrypted_password(encrypt_key@, self.password()),
    {
        (self.login.clone(), self.name.clone(), encrypt_password(encrypt_key, self.password.as_str()))
    }

    /// Whether the sign up may go on, given the HTTP status with which the
    /// messaging service answered for the login: only when it knows him.
    pub fn is_allowed(status_code: i32) -> (b: bool)
        ensures
            b == (status_code == 200),
    {
        status_code == 200
    }
}

/// The form that changes the access of a user.
pub struct UserActivation {
    /// The user whose access changes.
    pub id: i32,
    /// His new access (1 granted, 0 revoked).
    pub value: i8,
    /// The offset of the admin page to go back to.
    pub offset: i32,
    /// His login.
    pub login: String,
}

/// The admin page address a change of access sends back to.
pub open spec fn activation_location(login: Seq<char>, offset: i32) -> Seq<char> {
    "/admin?info=User "@ + login + "'s access has been modified&offset="@ + signed_decimal(offset as int)
}

impl UserActivation {
    /// A requester may change the access of a user whose role is below his
    /// own; a request on a user of the same or a greater role is refused.
    pub fn check_requester(requester_role: i32, target_role: i32) -> (r: Result<(), ApplicationError>)
        ensures
            requester_role <= target_role ==> (r matches Err(ApplicationError::BadRequest)),
            requester_role > target_role ==> r is Ok,
    {
        if requester_role <= target_role {
            Err(ApplicationError::BadRequest)
        } else {
            Ok(())
        }
    }

    /// The admin page the change sends back to.
    pub fn redirect_location(&self) -> (s: String)
        ensures
            s@ == activation_location(self.login@, self.offset),
    {
        let mut s = String::from_str("/admin?info=User ");
        s.append(self.login.as_str());
        s.append("'s access has been modified&offset=");
        push_signed_decimal(&mut s, self.offset as i64);
        s
    }
}

} // verus!
