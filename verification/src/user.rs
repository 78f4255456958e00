use vstd::prelude::*;
use vstd::utf8::encode_utf8;

verus! {

/// A stored user record: identifier and name.
#[derive(Debug, PartialEq, Eq)]
pub struct User {
    pub id: u64,
    pub username: String,
}

/// Payload for creating a user: the requested name alone.
#[derive(Debug, PartialEq, Eq)]
pub struct CreateUser {
    pub username: String,
}

impl User {
    /// The record built for a create request: the name is taken over and the
    /// identifier is the byte length of that name (which fits `usize` for any
    /// string a machine can hold).
    pub fn from_create(payload: CreateUser) -> (user: User)
        ensures
            user.username == payload.username,
            encode_utf8(payload.username@).len() <= usize::MAX ==> user.id == encode_utf8(
                payload.username@,
            ).len(),
    {
        let id = payload.username.as_str().len() as u64;
        User { id, username: payload.username }
    }
}

} // verus!
