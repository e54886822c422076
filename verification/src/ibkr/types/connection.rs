//! How a session is opened and what is reported of it.

use crate::config::settings::IbkrConfig;
use vstd::prelude::*;
use vstd::std_specs::convert::FromSpecImpl;
use vstd::string::StringExecFns;

verus! {

/// Where the gateway listens, and the identity under which a session is
/// opened. The gateway admits one session per identity at a time.
#[derive(Debug, Clone)]
pub struct ConnectionConfig {
    pub host: String,
    pub port: u16,
    pub client_id: i32,
}

/// A [`ConnectionConfig`] as plain values.
pub struct ConnectionConfigView {
    pub host: Seq<char>,
    pub port: u16,
    pub client_id: i32,
}

impl View for ConnectionConfig {
    type V = ConnectionConfigView;

    open spec fn view(&self) -> ConnectionConfigView {
        ConnectionConfigView { host: self.host@, port: self.port, client_id: self.client_id }
    }
}

impl Default for ConnectionConfig {
    fn default() -> (r: Self)
        ensures
            r@ == (ConnectionConfigView { host: "127.0.0.1"@, port: 4002, client_id: 100 }),
    {
        ConnectionConfig { host: String::from_str("127.0.0.1"), port: 4002, client_id: 100 }
    }
}

impl From<IbkrConfig> for ConnectionConfig {
    fn from(config: IbkrConfig) -> (r: Self) {
        ConnectionConfig {
            host: config.default_host,
            port: config.default_port,
            client_id: config.default_client_id,
        }
    }
}

impl FromSpecImpl<IbkrConfig> for ConnectionConfig {
    open spec fn obeys_from_spec() -> bool {
        true
    }

    open spec fn from_spec(config: IbkrConfig) -> Self {
        ConnectionConfig {
            host: config.default_host,
            port: config.default_port,
            client_id: config.default_client_id,
        }
    }
}

/// What a status query reports: whether the session answers, the gateway's
/// time if it does, and the identity in use.
#[derive(Debug, Clone)]
pub struct ConnectionStatus {
    pub connected: bool,
    pub server_time: Option<String>,
    pub client_id: i32,
}

/// A [`ConnectionStatus`] as plain values.
pub struct ConnectionStatusView {
    pub connected: bool,
    pub server_time: Option<Seq<char>>,
    pub client_id: i32,
}

impl View for ConnectionStatus {
    type V = ConnectionStatusView;

    open spec fn view(&self) -> ConnectionStatusView {
        ConnectionStatusView {
            connected: self.connected,
            server_time: match self.server_time {
                Some(t) => Some(t@),
                None => None,
            },
            client_id: self.client_id,
        }
    }
}

} // verus!
