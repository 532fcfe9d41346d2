//! A minimal social-posting backend core: user accounts and short text
//! posts ("twoots") held in a relational store, with the validation and
//! error rules of the data-access layer stated and proved.

use vstd::prelude::*;

pub mod errors;
pub mod laws;
pub mod models;
pub mod store;

verus! {

/// Upper bound on how many accounts a single listing may return.
pub const MAX_LISTED_ACCOUNTS: usize = 15;

/// Maximum number of characters a twoot's content may hold.
pub const MAX_TWOOT_CHARS: usize = 144;

} // verus!
