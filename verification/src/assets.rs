//! Local copies of remote logos: the scheme and host of a remote address
//! are replaced by the base path under which the assets are served.

use vstd::prelude::*;

verus! {

/// The remote part of a logo address: the scheme (`http`, followed by any
/// number of `s`), `://`, then the host, up to the first `/`.
pub const HOST_PATTERN: &'static str = "(?P<host>https*://[^/]+)";

/// regex's error type, carried through without inspection.
#[verifier::external_type_specification]
#[verifier::external_body]
pub struct ExRegexError(regex::Error);

/// Whether `regex::Regex::new` refuses a pattern (a syntax error, or a
/// compiled program over the default size limit).
pub uninterp spec fn pattern_refused(pattern: Seq<char>) -> bool;

/// What `regex::Regex::replace` gives for a pattern, a text and a
/// replacement: the text with its first match of the pattern replaced by the
/// replacement, `$` expansions in the replacement performed.
pub uninterp spec fn first_match_replaced(pattern: Seq<char>, text: Seq<char>, replacement: Seq<char>) -> Seq<char>;

/// Calls `regex::Regex::new` on the pattern, then `replace` on the text with
/// the replacement. Trusted: the compilation fails exactly when
/// `pattern_refused` holds of the pattern, and otherwise the result is
/// `first_match_replaced` of the three arguments.
#[verifier::external_body]
pub(crate) fn replace_first_match(pattern: &str, text: &str, replacement: &str) -> (r: Result<String, regex::Error>)
    ensures
        r is Err <==> pattern_refused(pattern@),
        r matches Ok(s) ==> s@ == first_match_replaced(pattern@, text@, replacement@),
{
    match regex::Regex::new(pattern) {
        Ok(re) => Ok(re.replace(text, replacement).into_owned()),
        Err(e) => Err(e),
    }
}

} // verus!
