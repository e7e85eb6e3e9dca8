//! The claims of the session token of a user, and the outcome of a login
//! whose credentials matched no authorized user.

use vstd::prelude::*;
use vstd::string::*;
use crate::web::entities::navaccess::Model as NavAccess;
use crate::web::entities::user::Model as User;
use crate::web::error::ApplicationError;

verus! {

/// The user carried by a session token.
#[derive(Debug, Default)]
pub struct JwtUser {
    /// His id.
    pub id: i32,
    /// His login.
    pub login: String,
    /// His name.
    pub name: String,
    /// The links his role grants.
    pub nav: Vec<NavAccess>,
    /// 1 when he may use the application.
    pub is_authorized: i8,
    /// His role.
    pub role: i32,
}

impl JwtUser {
    /// The claims for an authorized user and the links of his role.
    pub fn from_user(user: &User, nav: Vec<NavAccess>) -> (j: JwtUser)
        ensures
            j.id == user.id,
            j.login@ == user.login@,
            j.name@ == user.name@,
            j.nav@ == nav@,
            j.is_authorized == user.is_authorized,
            j.role == user.role,
    {
        JwtUser {
            id: user.id,
            login: user.login.clone(),
            name: user.name.clone(),
            nav,
            is_authorized: user.is_authorized,
            role: user.role,
        }
    }

    /// The outcome of a login whose credentials matched no authorized user:
    /// refused as unauthorized when they match a user whose access is not
    /// granted, no token otherwise.
    pub fn unmatched_login(login: &str, unauthorized_user_exists: bool) -> (r: Result<Option<String>, ApplicationError>)
        ensures
            unauthorized_user_exists ==> (r matches Err(ApplicationError::UserNotAuthorized(l)) && l@ == login@),
            !unauthorized_user_exists ==> (r matches Ok(None)),
    {
        if unauthorized_user_exists {
            Err(ApplicationError::UserNotAuthorized(String::from_str(login)))
        } else {
            Ok(None)
        }
    }

    /// The token carried by the request's session cookie; a request without
    /// it is an internal error.
    pub fn token_from_cookie(cookie: Option<String>) -> (r: Result<String, ApplicationError>)
        ensures
            match cookie {
                Some(t) => r matches Ok(s) && s@ == t@,
                None => r matches Err(ApplicationError::InternalError),
            },
    {
        match cookie {
            Some(token) => Ok(token),
            None => Err(ApplicationError::InternalError),
        }
    }
}

} // verus!
