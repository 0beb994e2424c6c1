//! Static files for logged-in users.

use vstd::prelude::*;

verus! {

#[derive(Debug, Clone, PartialEq, Eq)]
pub struct CDNPathParams {
    pub name: String,
}

} // verus!
