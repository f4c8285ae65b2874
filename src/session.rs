//! Who a web session belongs to, and how they logged in.

use vstd::prelude::*;

verus! {

/// How a web user logged in.
#[derive(Clone, Debug)]
pub enum Credentials {
    /// Through an emailed magic link: its id and its secret data.
    Email { id: i64, data: Vec<u8> },
}

/// The account behind a web session, and how it logged in.
#[derive(Clone, Debug)]
pub struct UserId {
    id: i64,
    method: Credentials,
}

impl UserId {
    pub closed spec fn spec_id(&self) -> i64 {
        self.id
    }

    pub fn new(id: i64, method: Credentials) -> (r: UserId)
        ensures
            r.spec_id() == id,
    {
        UserId { id, method }
    }

    /// The account id.
    #[verifier::when_used_as_spec(spec_id)]
    pub fn id(&self) -> (r: i64)
        ensures
            r == self.spec_id(),
    {
        self.id
    }

    /// How the session logged in.
    pub fn method(&self) -> (r: &Credentials) {
        &self.method
    }
}

} // verus!
