//! The decisions of the pages: the title of the home page, and whether the
//! sign up page is shown.

use vstd::prelude::*;
use vstd::string::*;
use crate::web::auth::JwtUser;

verus! {

/// The information and error messages a page is asked to show.
pub struct ContextQuery {
    /// An information message.
    pub info: Option<String>,
    /// An error message.
    pub error: Option<String>,
}

/// The title of the home page: a greeting for a signed in user, the login
/// otherwise.
pub open spec fn index_title_of(name: Option<Seq<char>>) -> Seq<char> {
    match name {
        Some(n) => "Weclome back "@ + n,
        None => "Login"@,
    }
}

/// The title of the home page for the signed in user, if any.
pub fn index_title(user: Option<&JwtUser>) -> (t: String)
    ensures
        t@ == index_title_of(match user { Some(u) => Some(u.name@), None => None }),
{
    match user {
        Some(u) => {
            let mut t = String::from_str("Weclome back ");
            t.append(u.name.as_str());
            t
        },
        None => String::from_str("Login"),
    }
}

/// The sign up page is shown to visitors without a session; a signed in
/// user is sent home instead.
pub fn shows_signup(has_session_cookie: bool) -> (b: bool)
    ensures
        b == !has_session_cookie,
{
    !has_session_cookie
}

} // verus!
