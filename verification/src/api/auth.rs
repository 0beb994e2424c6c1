//! Who is asking.

use vstd::prelude::*;

verus! {

/// What a session knows of the user who is logged in.
#[derive(Debug, Clone, PartialEq, Eq)]
pub struct UserSessionData {
    pub user_id: u64,
    pub username: String,
    pub storage_quota: u64,
}

} // verus!
