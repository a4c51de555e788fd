//! The broker connection manager's options.
//!
//! One authenticated, keep-alive session is opened at process start and its
//! handle is shared by every request; building the options is the only part
//! that can fail synchronously. An unreachable host or bad credentials is not
//! discovered here — it surfaces asynchronously, through the event pump.

use vstd::prelude::*;
use vstd::string::StrSliceExecFns;
use vstd::string::StringExecFns;

verus! {

/// Seconds of allowed silence before the client must prove liveness to the
/// broker.
pub const KEEP_ALIVE_SECS: u64 = 5;

/// The broker protocol's default port.
pub const DEFAULT_BROKER_PORT: u16 = 1883;

/// A malformed set of connection options.
pub struct ConfigError {
    pub message: String,
}

impl View for ConfigError {
    type V = Seq<char>;

    open spec fn view(&self) -> Seq<char> {
        self.message@
    }
}

/// Everything needed to open the one long-lived broker session.
pub struct BrokerConfig {
    pub client_identity: String,
    pub host: String,
    pub port: u16,
    pub username: String,
    pub password: String,
    pub keep_alive_secs: u64,
}

impl BrokerConfig {
    /// Options are well formed exactly when the client identity is non-empty.
    pub open spec fn wf(self) -> bool {
        self.client_identity@.len() > 0
    }

    /// Build the connection options: identity, network address, credentials,
    /// and the fixed keep-alive interval. Fails only on a malformed option —
    /// an empty client identity.
    pub fn new(
        client_identity: String,
        host: String,
        port: u16,
        username: String,
        password: String,
    ) -> (r: Result<BrokerConfig, ConfigError>)
        ensures
            r is Ok <==> client_identity@.len() > 0,
            r matches Ok(c) ==> c.wf() && c.client_identity@ == client_identity@
                && c.host@ == host@ && c.port == port && c.username@ == username@
                && c.password@ == password@ && c.keep_alive_secs == KEEP_ALIVE_SECS,
            r matches Err(e) ==> e@ == "empty client identity"@,
    {
        if client_identity.as_str().unicode_len() == 0 {
            Err(ConfigError { message: String::from_str("empty client identity") })
        } else {
            Ok(
                BrokerConfig {
                    client_identity,
                    host,
                    port,
                    username,
                    password,
                    keep_alive_secs: KEEP_ALIVE_SECS,
                },
            )
        }
    }
}

} // verus!
