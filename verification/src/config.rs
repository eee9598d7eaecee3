//! What a caller has to bring: who it is and how it names itself.

use vstd::prelude::*;

verus! {

/// The values that a session is set up with.
pub struct Config {
    /// How the client names itself to the console.
    pub user_agent: String,
    pub username: String,
    pub password: String,
}

impl Config {
    /// A configuration of the three values, each kept as it was given.
    pub fn new(user_agent: String, username: String, password: String) -> (config: Self)
        ensures
            config.user_agent == user_agent,
            config.username == username,
            config.password == password,
    {
        Self { user_agent, username, password }
    }
}

} // verus!
