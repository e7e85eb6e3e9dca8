//! A navigable link of the application, granted to roles.

use vstd::prelude::*;

verus! {

/// A link of the navigation bar.
#[derive(Clone, Debug, PartialEq)]
pub struct Model {
    /// Its id.
    pub id: i32,
    /// Its label.
    pub label: String,
    /// Its absolute address.
    pub href: String,
    /// Its position within the bar.
    pub position: Option<i32>,
}

} // verus!
