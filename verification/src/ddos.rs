//! Mitigation of denial of service: every client error is counted for the
//! client's address, and an address is banned past a threshold.

use vstd::prelude::*;

verus! {

/// The hash under which the client errors are counted, per address.
pub const KEY: &'static str = "client_errors";

/// The number of client errors an address may cause without being banned.
pub const BAN_THRESHOLD: u32 = 15;

/// Counts client errors per address.
pub struct Entity;

impl Entity {
    /// Whether an address with the given count of client errors (none when
    /// it never caused one) is banned: it is once it caused more than the
    /// threshold.
    pub fn is_banned_count(client_errors: Option<u32>) -> (banned: bool)
        ensures
            banned == (client_errors matches Some(v) && BAN_THRESHOLD < v),
    {
        match client_errors {
            Some(v) if BAN_THRESHOLD < v => true,
            _ => false,
        }
    }
}

/// Banning is monotone: once an address is banned, more errors keep it
/// banned; an address that never erred is not banned.
pub proof fn lemma_ban_monotone(a: u32, b: u32)
    ensures
        (BAN_THRESHOLD < a && a <= b) ==> BAN_THRESHOLD < b,
        !(None::<u32> matches Some(v) && BAN_THRESHOLD < v),
{
}

} // verus!
