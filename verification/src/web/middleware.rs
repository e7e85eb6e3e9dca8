//! The cookie approval check: until a visitor approved cookies, the home page
//! sends him to the approval page, the approval page is served, and every
//! other page is refused.

use vstd::prelude::*;
use vstd::string::*;
use crate::web::error::ApplicationError;

verus! {

/// What the cookie check does with a request.
#[derive(Debug)]
pub enum CookieDecision {
    /// The request is served.
    Forward,
    /// The visitor is sent to the cookie approval page.
    RedirectToCookies,
    /// The request is refused with this error.
    Reject(ApplicationError),
}

/// The decision of the cookie check for a request to `path`.
pub open spec fn decision_of(has_approval_cookie: bool, path: Seq<char>) -> CookieDecision {
    if has_approval_cookie {
        CookieDecision::Forward
    } else if path == "/"@ {
        CookieDecision::RedirectToCookies
    } else if path == "/cookies"@ {
        CookieDecision::Forward
    } else {
        CookieDecision::Reject(ApplicationError::CookiesUnapproved)
    }
}

/// The cookie approval check.
#[derive(Default)]
pub struct CookieChecker;

impl CookieChecker {
    /// Decides what to do with a request to `path`, knowing whether it
    /// carries the cookie approval.
    pub fn decide(has_approval_cookie: bool, path: &str) -> (g: CookieDecision)
        ensures
            g == decision_of(has_approval_cookie, path@),
    {
        if has_approval_cookie {
            CookieDecision::Forward
        } else {
            let p = String::from_str(path);
            if p == String::from_str("/") {
                CookieDecision::RedirectToCookies
            } else if p == String::from_str("/cookies") {
                CookieDecision::Forward
            } else {
                CookieDecision::Reject(ApplicationError::CookiesUnapproved)
            }
        }
    }
}

/// An approved visitor is always served, and the approval page is always
/// served, so a visitor can always approve cookies.
pub proof fn lemma_approval_page_reachable(has_approval_cookie: bool, path: Seq<char>)
    ensures
        has_approval_cookie ==> decision_of(has_approval_cookie, path) is Forward,
        decision_of(has_approval_cookie, "/cookies"@) is Forward,
{
    reveal_strlit("/");
    reveal_strlit("/cookies");
    assert("/cookies"@.len() != "/"@.len());
}

/// What the cookie check does, for every request: a visitor who approved
/// cookies is always served; one who did not is sent from the home page to
/// the approval page, is served the approval page, and is refused every
/// other page as not having approved cookies.
pub proof fn lemma_cookie_check(path: Seq<char>)
    ensures
        decision_of(true, path) is Forward,
        path == "/"@ ==> decision_of(false, path) is RedirectToCookies,
        path == "/cookies"@ ==> decision_of(false, path) is Forward,
        path != "/"@ && path != "/cookies"@ ==>
            decision_of(false, path) == CookieDecision::Reject(ApplicationError::CookiesUnapproved),
{
    reveal_strlit("/");
    reveal_strlit("/cookies");
    assert("/cookies"@.len() != "/"@.len());
}

} // verus!
