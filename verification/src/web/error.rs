//! The errors of the web front, with the HTTP status, the message and the
//! address of the page they send the user to.

use vstd::prelude::*;
use vstd::string::*;

verus! {

/// The errors answered to a request.
#[derive(Debug)]
pub enum ApplicationError {
    /// An internal error.
    InternalError,
    /// A database error, with its message.
    DatabaseError(String),
    /// A requested item does not exist.
    NotFound,
    /// The user's access has not been granted or has been revoked.
    UserNotAuthorized(String),
    /// The session token is not valid.
    IllegalToken,
    /// The request is not allowed or malformed.
    BadRequest,
    /// A page could not be rendered.
    TemplateError,
    /// Cookies have not been approved yet.
    CookiesUnapproved,
}

/// The HTTP status of an error.
pub open spec fn status_of(e: ApplicationError) -> u16 {
    match e {
        ApplicationError::InternalError | ApplicationError::DatabaseError(_) | ApplicationError::TemplateError => 500,
        ApplicationError::IllegalToken | ApplicationError::CookiesUnapproved | ApplicationError::BadRequest => 400,
        ApplicationError::UserNotAuthorized(_) => 403,
        ApplicationError::NotFound => 404,
    }
}

/// The page an error sends the user to, if any.
pub open spec fn redirect_of(e: ApplicationError) -> Option<Seq<char>> {
    match e {
        ApplicationError::IllegalToken => Some("/logout"@),
        ApplicationError::CookiesUnapproved => Some("/cookies"@),
        _ => None,
    }
}

/// The message of an error.
pub open spec fn message_of(e: ApplicationError) -> Seq<char> {
    match e {
        ApplicationError::InternalError =>
            "An internal error happened, it has been reported and will be resolved as soon as possible"@,
        ApplicationError::DatabaseError(m) =>
            "A database error happened, it has been reported and will be resolved as soon as possible : "@ + m@ + " "@,
        ApplicationError::UserNotAuthorized(u) =>
            "The following user's access has not been granted or has been revoked : "@ + u@ + " "@,
        ApplicationError::NotFound =>
            "One of the requested item hasn't been found, please ensure your request is correct"@,
        ApplicationError::BadRequest =>
            "You don't have access to this ressource, or the way you are trying to access it is wrong."@,
        ApplicationError::IllegalToken =>
            "Your authentication token is not correct, please reconnect in order to regenarate it"@,
        ApplicationError::CookiesUnapproved =>
            "You haven't approved cookies yet, approve them prior any usage of the application"@,
        ApplicationError::TemplateError =>
            "An error happened regarding the display, this error has been reported"@,
    }
}

impl ApplicationError {
    /// The page the error sends the user to: the logout for a bad token, the
    /// cookie approval for unapproved cookies.
    pub fn redirect_url(&self) -> (r: Option<String>)
        ensures
            match r {
                Some(u) => redirect_of(*self) == Some(u@),
                None => redirect_of(*self) is None,
            },
    {
        match self {
            ApplicationError::IllegalToken => Some(String::from_str("/logout")),
            ApplicationError::CookiesUnapproved => Some(String::from_str("/cookies")),
            _ => None,
        }
    }

    /// The HTTP status of the error.
    pub fn status_code(&self) -> (s: u16)
        ensures
            s == status_of(*self),
    {
        match self {
            ApplicationError::InternalError | ApplicationError::DatabaseError(_) | ApplicationError::TemplateError => 500,
            ApplicationError::IllegalToken | ApplicationError::CookiesUnapproved | ApplicationError::BadRequest => 400,
            ApplicationError::UserNotAuthorized(_) => 403,
            ApplicationError::NotFound => 404,
        }
    }

    /// The message of the error.
    pub fn message(&self) -> (s: String)
        ensures
            s@ == message_of(*self),
    {
        match self {
            ApplicationError::InternalError => String::from_str(
                "An internal error happened, it has been reported and will be resolved as soon as possible"),
            ApplicationError::DatabaseError(m) => {
                let mut s = String::from_str(
                    "A database error happened, it has been reported and will be resolved as soon as possible : ");
                s.append(m.as_str());
                s.append(" ");
                s
            },
            ApplicationError::UserNotAuthorized(u) => {
                let mut s = String::from_str(
                    "The following user's access has not been granted or has been revoked : ");
                s.append(u.as_str());
                s.append(" ");
                s
            },
            ApplicationError::NotFound => String::from_str(
                "One of the requested item hasn't been found, please ensure your request is correct"),
            ApplicationError::BadRequest => String::from_str(
                "You don't have access to this ressource, or the way you are trying to access it is wrong."),
            ApplicationError::IllegalToken => String::from_str(
                "Your authentication token is not correct, please reconnect in order to regenarate it"),
            ApplicationError::CookiesUnapproved => String::from_str(
                "You haven't approved cookies yet, approve them prior any usage of the application"),
            ApplicationError::TemplateError => String::from_str(
                "An error happened regarding the display, this error has been reported"),
        }
    }
}

/// An error that sends the user to another page is a client error (400).
pub proof fn lemma_redirect_is_client_error(e: ApplicationError)
    ensures
        redirect_of(e) is Some ==> status_of(e) == 400,
{
}

} // verus!
