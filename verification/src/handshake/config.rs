//! What host and plugin must agree on before they talk.

use std::borrow::Cow;

use vstd::prelude::*;

verus! {

/// The contract between a host and the plugins it launches: the version of
/// the application protocol, and the magic cookie, an environment variable
/// that the host sets and without which a plugin refuses to run.
pub struct HandshakeConfig<'a> {
    /// The version of the application protocol.
    pub protocol_version: u32,
    /// The name of the environment variable that carries the cookie.
    pub magic_cookie_key: Cow<'a, str>,
    /// The value that the variable must have.
    pub magic_cookie_value: Cow<'a, str>,
}

impl<'a> HandshakeConfig<'a> {
    /// A usable configuration names its cookie and gives it a value.
    pub open spec fn well_formed(&self) -> bool {
        self.magic_cookie_key@.len() > 0 && self.magic_cookie_value@.len() > 0
    }

    /// The name of the environment variable that carries the cookie.
    pub fn cookie_key(&self) -> (key: &str)
        ensures
            key@ == self.magic_cookie_key@,
    {
        match &self.magic_cookie_key {
            Cow::Borrowed(b) => b,
            Cow::Owned(o) => o.as_str(),
        }
    }

    /// The value that the variable must have.
    pub fn cookie_value(&self) -> (value: &str)
        ensures
            value@ == self.magic_cookie_value@,
    {
        match &self.magic_cookie_value {
            Cow::Borrowed(b) => b,
            Cow::Owned(o) => o.as_str(),
        }
    }

    /// Tells whether the cookie has both a name and a value.
    pub fn is_well_formed(&self) -> (b: bool)
        ensures
            b == self.well_formed(),
    {
        !self.cookie_key().is_empty() && !self.cookie_value().is_empty()
    }
}

} // verus!
