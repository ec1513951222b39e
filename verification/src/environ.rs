//! The environment the tool authenticates with.

use vstd::prelude::*;
use vstd::string::StringExecFns;

verus! {

/// The current environment, including secrets.
#[derive(Debug)]
pub struct Env {
    pub client_id: String,
    pub client_secret: String,
    pub username: String,
    pub password: String,
    pub is_sandbox: bool,
}

impl Env {
    /// Assemble the environment from the collected variable values: the
    /// password the backend expects is the account password followed by the
    /// secret token.
    pub fn new(
        client_id: String,
        client_secret: String,
        username: String,
        password: String,
        secret_token: String,
        is_sandbox: bool,
    ) -> (r: Env)
        ensures
            r.client_id == client_id,
            r.client_secret == client_secret,
            r.username == username,
            r.password@ == password@ + secret_token@,
            r.is_sandbox == is_sandbox,
    {
        let mut password = password;
        password.append(secret_token.as_str());
        Env { client_id, client_secret, username, password, is_sandbox }
    }
}

} // verus!
