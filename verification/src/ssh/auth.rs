use vstd::prelude::*;

verus! {

/// Answer to an authentication attempt.
#[derive(Debug, Clone, Copy, PartialEq, Eq, Structural)]
pub enum AuthReply {
    Accept,
    Reject,
}

/// The server lets everyone in: a player is known by the user name they give.
pub struct AuthHandler;

impl AuthHandler {
    /// Login without credentials is accepted.
    pub fn auth_none() -> (r: AuthReply)
        ensures
            r == AuthReply::Accept,
    {
        AuthReply::Accept
    }

    /// Any password is accepted.
    pub fn auth_password(username: &str, password: &str) -> (r: AuthReply)
        ensures
            r == AuthReply::Accept,
    {
        AuthReply::Accept
    }
}

} // verus!
