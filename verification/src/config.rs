//! The locally configured connection information. Loading it from disk and
//! saving it back is the host's concern; the engine only reads and updates
//! the values.

use vstd::prelude::*;

verus! {

/// The configuration for the current connection. This is not guaranteed to
/// be complete or accurate; the engine checks it against the session before
/// acting on it.
#[derive(Clone, Debug)]
pub struct Config {
    /// The server URL to connect to.
    pub url: String,
    /// The name of this player's slot on the server.
    pub slot_name: String,
    /// The server password, if one is needed.
    pub password: Option<String>,
    /// The seed the configuration was generated for.
    pub seed: String,
    /// The client build that generated the configuration, when recorded.
    pub client_version: Option<String>,
}

impl Config {
    /// The server URL.
    pub fn url(&self) -> (r: &String)
        ensures
            r == self.url,
    {
        &self.url
    }

    /// The slot name.
    pub fn slot(&self) -> (r: &String)
        ensures
            r == self.slot_name,
    {
        &self.slot_name
    }

    /// The server password, if any.
    pub fn password(&self) -> (r: Option<&String>)
        ensures
            match r {
                Some(p) => self.password == Some(*p),
                None => self.password is None,
            },
    {
        self.password.as_ref()
    }

    /// The configured seed.
    pub fn seed(&self) -> (r: &String)
        ensures
            r == self.seed,
    {
        &self.seed
    }

    /// The client build that generated the configuration, if recorded.
    pub fn client_version(&self) -> (r: Option<&String>)
        ensures
            match r {
                Some(v) => self.client_version == Some(*v),
                None => self.client_version is None,
            },
    {
        self.client_version.as_ref()
    }

    /// Replaces the server URL, for a reconnect to a different address.
    pub fn set_url(&mut self, url: String)
        ensures
            final(self).url == url,
            final(self).slot_name == old(self).slot_name,
            final(self).password == old(self).password,
            final(self).seed == old(self).seed,
            final(self).client_version == old(self).client_version,
    {
        self.url = url;
    }
}

} // verus!
