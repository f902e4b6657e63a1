//! What a host launches a plugin with.

use vstd::prelude::*;

use crate::constant::{DEFAULT_MAX_PORT, DEFAULT_MIN_PORT, PLUGIN_MAX_PORT, PLUGIN_MIN_PORT};
use crate::decimal::{decimal_digits, push_decimal};
use crate::handshake::HandshakeConfig;

verus! {

/// The configuration of a host for one plugin. The command that launches the
/// plugin is kept by the caller, who runs it.
pub struct ClientConfig {
    /// What host and plugin must agree on.
    pub handshake_config: HandshakeConfig<'static>,
    /// Reserved for a broker that shares one connection.
    pub broker_multiplex: bool,
    /// The first and the last port that the plugin may listen on, where the
    /// host has a say in it.
    pub port_range: Option<(u16, u16)>,
    /// How long the plugin may take to announce itself, in milliseconds.
    pub startup_timeout_ms: u64,
}

/// One variable of an environment, as contracts see it.
pub open spec fn variable_view(v: (String, String)) -> (Seq<char>, Seq<char>) {
    (v.0@, v.1@)
}

impl ClientConfig {
    /// The port range that the plugin is told: the configured one, or the
    /// default.
    pub open spec fn port_range_spec(&self) -> (u16, u16) {
        match self.port_range {
            Some(range) => range,
            None => (DEFAULT_MIN_PORT, DEFAULT_MAX_PORT),
        }
    }

    /// The variables that the host adds to the environment of the plugin:
    /// the magic cookie, and the two ends of the port range.
    pub open spec fn child_environment_spec(&self) -> Seq<(Seq<char>, Seq<char>)> {
        seq![
            (self.handshake_config.magic_cookie_key@, self.handshake_config.magic_cookie_value@),
            (PLUGIN_MIN_PORT@, decimal_digits(self.port_range_spec().0 as nat)),
            (PLUGIN_MAX_PORT@, decimal_digits(self.port_range_spec().1 as nat)),
        ]
    }

    /// The port range that the plugin is told.
    pub fn effective_port_range(&self) -> (range: (u16, u16))
        ensures
            range == self.port_range_spec(),
    {
        match self.port_range {
            Some(range) => range,
            None => (DEFAULT_MIN_PORT, DEFAULT_MAX_PORT),
        }
    }

    /// The variables that the host adds to the environment of the plugin.
    pub fn child_environment(&self) -> (env: Vec<(String, String)>)
        ensures
            env@.map_values(|v: (String, String)| variable_view(v))
                == self.child_environment_spec(),
    {
        let range = self.effective_port_range();
        let mut first = String::new();
        push_decimal(&mut first, range.0 as u64);
        let mut last = String::new();
        push_decimal(&mut last, range.1 as u64);
        let mut env: Vec<(String, String)> = Vec::new();
        env.push(
            (
                self.handshake_config.cookie_key().to_owned(),
                self.handshake_config.cookie_value().to_owned(),
            ),
        );
        env.push((PLUGIN_MIN_PORT.to_owned(), first));
        env.push((PLUGIN_MAX_PORT.to_owned(), last));
        assert(Seq::<char>::empty() + decimal_digits(range.0 as nat) == decimal_digits(
            range.0 as nat,
        ));
        assert(Seq::<char>::empty() + decimal_digits(range.1 as nat) == decimal_digits(
            range.1 as nat,
        ));
        assert(env@.map_values(|v: (String, String)| variable_view(v))
            =~= self.child_environment_spec());
        env
    }
}

} // verus!
