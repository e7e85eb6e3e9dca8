//! The tokens of the remote API provider, held in a sorted set of the cache
//! by the number of calls each has left; the token with the most calls left
//! is used.

use vstd::prelude::*;
use crate::error::ApplicationError;

verus! {

/// The number of calls a newly registered token is credited with.
pub const INITIAL_THRESHOLD: u32 = 100;

/// The cache key of the sorted set of tokens.
pub const KEY: &'static str = "api_token";

/// The remote API tokens.
pub struct Entity;

impl Entity {
    /// The token to use, from the end of the sorted set (the one with the
    /// most calls left, as the storage returns it): the first returned, or an
    /// error when none is stored.
    pub fn pick_token(range: &Vec<String>) -> (r: Result<String, ApplicationError>)
        ensures
            range@.len() > 0 ==> (r matches Ok(t) && t@ == range@[0]@),
            range@.len() == 0 ==> (r matches Err(ApplicationError::NoTokenStored)),
    {
        if range.len() > 0 {
            Ok(range[0].clone())
        } else {
            Err(ApplicationError::NoTokenStored)
        }
    }
}

} // verus!
