//! What a login yields: a token, and who it belongs to.

use vstd::prelude::*;

verus! {

/// A key and the secret that goes with it.
#[derive(Debug, PartialEq, Eq)]
pub struct KeyPair {
    pub key: String,
    pub secret: String,
}

impl KeyPair {
    /// Makes a pair of `key` and `secret`.
    pub fn new(key: String, secret: String) -> (pair: KeyPair)
        ensures
            pair.key == key,
            pair.secret == secret,
    {
        KeyPair { key, secret }
    }

    /// A copy of the pair.
    pub fn duplicate(&self) -> (pair: KeyPair)
        ensures
            pair == *self,
    {
        KeyPair { key: self.key.clone(), secret: self.secret.clone() }
    }
}

/// What authorises a request.
#[derive(Debug, PartialEq, Eq)]
pub enum Token {
    /// The application's pair, and the pair that a user granted it.
    Access { consumer: KeyPair, access: KeyPair },
    /// A token for requests on behalf of the application alone.
    Bearer(String),
}

/// How a user is addressed.
#[derive(Debug, PartialEq, Eq)]
pub enum UserID {
    /// By number.
    ID(u64),
    /// By screen name.
    ScreenName(String),
}

/// The credentials of a user who has logged in.
#[derive(Debug, PartialEq, Eq)]
pub struct Credentials {
    /// The token that was granted.
    pub token: Token,
    /// The user's number.
    pub user_id: u64,
    /// The user's display name.
    pub username: String,
}

impl Credentials {
    /// Makes credentials of a token, the user's number and the user's name.
    pub fn new(token: Token, user_id: u64, username: String) -> (creds: Credentials)
        ensures
            creds.token == token,
            creds.user_id == user_id,
            creds.username == username,
    {
        Credentials { token, user_id, username }
    }

    /// The user, addressed by number.
    pub fn user_id(&self) -> (id: UserID)
        ensures
            id == UserID::ID(self.user_id),
    {
        UserID::ID(self.user_id)
    }
}

} // verus!
