//! A user account record and its constructor.

use vstd::prelude::*;

verus! {

/// An account: who it belongs to, how to reach them, and whether it is live.
pub struct User {
    pub username: String,
    pub email: String,
    pub sign_in_count: u64,
    pub active: bool,
}

/// A fresh, active account for the given address and name, with a single
/// sign-in on record.
pub fn build_user(email: String, username: String) -> (user: User)
    ensures
        user.email == email,
        user.username == username,
        user.active == true,
        user.sign_in_count == 1,
{
    User { email, username, active: true, sign_in_count: 1 }
}

} // verus!
