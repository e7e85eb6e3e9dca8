//! A user record as the web front reads it.

use vstd::prelude::*;

verus! {

/// A user, without the date he joined.
#[derive(Clone, Debug, PartialEq)]
pub struct Model {
    /// His id.
    pub id: i32,
    /// His displayed name.
    pub name: String,
    /// His login.
    pub login: String,
    /// His encrypted password.
    pub password: String,
    /// 1 when he may use the application, 0 otherwise.
    pub is_authorized: i8,
    /// His role.
    pub role: i32,
}

} // verus!
