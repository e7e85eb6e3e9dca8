//! The errors raised by the data layer, with their HTTP code and message.

use vstd::prelude::*;
use vstd::string::*;
use crate::text::{decimal, push_decimal};

verus! {

/// The common errors thrown by the data layer.
#[derive(Debug)]
pub enum ApplicationError {
    /// A MySQL error, holding the code and message of the error.
    DatabaseError(String),
    /// A redis error.
    RedisError(String),
    /// A mongo error.
    MongoError(String),
    /// An elasticsearch error.
    ElasticError(String),
    /// A label was requested for a locale that has no such mapping.
    TranslationError(String, u32),
    /// A (de)serialisation error.
    SerialError,
    /// The remote API was requested while no token is stored.
    NoTokenStored,
    /// A parsing error.
    ParseError(String),
    /// A form was submitted with parameters that have expired since.
    FormOutdated,
}

/// The HTTP code of an error.
pub open spec fn error_code(e: ApplicationError) -> u16 {
    match e {
        ApplicationError::FormOutdated => 205,
        _ => 500,
    }
}

/// The text that describes an error to the user.
pub open spec fn error_message(e: ApplicationError) -> Seq<char> {
    match e {
        ApplicationError::DatabaseError(m) =>
            "A database error happened, it has been reported and will be resolved as soon as possible : "@ + m@ + " "@,
        ApplicationError::MongoError(m) =>
            "A mongo error happened, it has been reported and will be resolved as soon as possible : "@ + m@ + " "@,
        ApplicationError::RedisError(m) =>
            "A redis error happened, it has been reported and will be resolved as soon as possible : "@ + m@ + " "@,
        ApplicationError::ElasticError(m) =>
            "An elasticsearch error happened, it has been reported and will be resolved as soon as possible : "@ + m@ + " "@,
        ApplicationError::TranslationError(label, locale) =>
            "A translatione error happened : the label "@ + label@ + " has been request for locale "@
                + decimal(locale as nat) + " but this mapping doesn't exist."@,
        ApplicationError::SerialError => "A serial error happened"@,
        ApplicationError::NoTokenStored => "There are no tokens stored to call the remote API endpoint"@,
        ApplicationError::ParseError(m) => "A parse error happened : "@ + m@,
        ApplicationError::FormOutdated =>
            "The request that has been submitted is most likely using expired parameters and is thus not valid, please refresh your browser"@,
    }
}

fn framed(prefix: &str, inner: &String) -> (s: String)
    ensures
        s@ == prefix@ + inner@ + " "@,
{
    proof { reveal_strlit(" "); }
    let mut s = String::from_str(prefix);
    s.append(inner.as_str());
    s.append(" ");
    s
}

impl ApplicationError {
    /// Returns the HTTP error code for the error: 205 for an outdated form,
    /// 500 for everything else.
    pub fn http_error_code(&self) -> (code: u16)
        ensures
            code == error_code(*self),
    {
        match *self {
            ApplicationError::FormOutdated => 205,
            _ => 500,
        }
    }

    /// The message shown for the error.
    pub fn message(&self) -> (s: String)
        ensures
            s@ == error_message(*self),
    {
        proof {
            reveal_strlit("A database error happened, it has been reported and will be resolved as soon as possible : ");
            reveal_strlit("A mongo error happened, it has been reported and will be resolved as soon as possible : ");
            reveal_strlit("A redis error happened, it has been reported and will be resolved as soon as possible : ");
            reveal_strlit("An elasticsearch error happened, it has been reported and will be resolved as soon as possible : ");
            reveal_strlit("A translatione error happened : the label ");
            reveal_strlit(" has been request for locale ");
            reveal_strlit(" but this mapping doesn't exist.");
            reveal_strlit("A serial error happened");
            reveal_strlit("There are no tokens stored to call the remote API endpoint");
            reveal_strlit("A parse error happened : ");
            reveal_strlit("The request that has been submitted is most likely using expired parameters and is thus not valid, please refresh your browser");
        }
        match self {
            ApplicationError::DatabaseError(m) => framed(
                "A database error happened, it has been reported and will be resolved as soon as possible : ", m),
            ApplicationError::MongoError(m) => framed(
                "A mongo error happened, it has been reported and will be resolved as soon as possible : ", m),
            ApplicationError::RedisError(m) => framed(
                "A redis error happened, it has been reported and will be resolved as soon as possible : ", m),
            ApplicationError::ElasticError(m) => framed(
                "An elasticsearch error happened, it has been reported and will be resolved as soon as possible : ", m),
            ApplicationError::TranslationError(label, locale) => {
                let mut s = String::from_str("A translatione error happened : the label ");
                s.append(label.as_str());
                s.append(" has been request for locale ");
                push_decimal(&mut s, *locale as u64);
                s.append(" but this mapping doesn't exist.");
                s
            },
            ApplicationError::SerialError => String::from_str("A serial error happened"),
            ApplicationError::NoTokenStored => String::from_str(
                "There are no tokens stored to call the remote API endpoint"),
            ApplicationError::ParseError(m) => {
                let mut s = String::from_str("A parse error happened : ");
                s.append(m.as_str());
                s
            },
            ApplicationError::FormOutdated => String::from_str(
                "The request that has been submitted is most likely using expired parameters and is thus not valid, please refresh your browser"),
        }
    }
}

impl From<serde_json::Error> for ApplicationError {
    fn from(serde_err: serde_json::Error) -> (e: ApplicationError) {
        ApplicationError::SerialError
    }
}

impl vstd::std_specs::convert::FromSpecImpl<serde_json::Error> for ApplicationError {
    open spec fn obeys_from_spec() -> bool {
        true
    }

    open spec fn from_spec(serde_err: serde_json::Error) -> ApplicationError {
        ApplicationError::SerialError
    }
}

/// Only an outdated form is answered with a code other than 500.
pub proof fn lemma_error_codes(e: ApplicationError)
    ensures
        (error_code(e) == 205) <==> (e is FormOutdated),
        (error_code(e) == 500) <==> !(e is FormOutdated),
{
}

} // verus!
