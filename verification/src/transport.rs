//! Settings of the WebSocket transport to the Connect cloud.

use vstd::prelude::*;

verus! {

/// Settings of the WebSocket transport.
#[derive(Debug, Clone)]
pub struct WsTransportConfig {
    pub endpoint_url: String,
    pub jwt_qws: Option<String>,
    /// When set, connecting without a token is an error instead of
    /// skipping authentication.
    pub require_jwt: bool,
    pub reconnect_backoff_ms: u64,
    pub reconnect_backoff_max_ms: u64,
    /// Consecutive reconnect attempts before giving up (`None`: no limit).
    pub reconnect_max_attempts: Option<u32>,
    /// When not 0, after the attempts are used up the transport waits this
    /// long and starts over instead of stopping.
    pub reconnect_idle_retry_ms: u64,
    pub connect_timeout_ms: u64,
    pub keepalive_interval_ms: u64,
    pub auto_subscribe: bool,
    pub subscribe_channels: Vec<Vec<u8>>,
    pub qcloud_proto: u32,
}

/// The default settings, apart from the endpoint, token and channels.
pub open spec fn default_settings(c: WsTransportConfig) -> bool {
    &&& c.require_jwt == false
    &&& c.reconnect_backoff_ms == 2_000
    &&& c.reconnect_backoff_max_ms == 30_000
    &&& c.reconnect_max_attempts == Some(10u32)
    &&& c.connect_timeout_ms == 10_000
    &&& c.keepalive_interval_ms == 30_000
    &&& c.auto_subscribe == true
    &&& c.qcloud_proto == 1
}

impl Default for WsTransportConfig {
    fn default() -> (c: Self)
        ensures
            c.endpoint_url@ == Seq::<char>::empty(),
            c.jwt_qws is None,
            default_settings(c),
            c.reconnect_idle_retry_ms == 0,
            c.subscribe_channels@.len() == 0,
    {
        WsTransportConfig {
            endpoint_url: String::new(),
            jwt_qws: None,
            require_jwt: false,
            reconnect_backoff_ms: 2_000,
            reconnect_backoff_max_ms: 30_000,
            reconnect_max_attempts: Some(10),
            reconnect_idle_retry_ms: 0,
            connect_timeout_ms: 10_000,
            keepalive_interval_ms: 30_000,
            auto_subscribe: true,
            subscribe_channels: Vec::new(),
            qcloud_proto: 1,
        }
    }
}

/// How long the Connect session waits before starting over after the
/// reconnect attempts are used up.
pub const CONNECT_IDLE_RETRY_MS: u64 = 60_000;

/// The settings the Connect session uses: the defaults with the given
/// endpoint and token, the token required, a retry after a minute when
/// the reconnect attempts are used up, and the channels 1, 2 and 3, each
/// on its own.
pub fn connect_transport_config(endpoint: &str, jwt: &str) -> (c: WsTransportConfig)
    ensures
        c.endpoint_url@ == endpoint@,
        c.jwt_qws matches Some(j) && j@ == jwt@,
        c.require_jwt,
        c.reconnect_idle_retry_ms == CONNECT_IDLE_RETRY_MS,
        c.subscribe_channels@.len() == 3,
        c.subscribe_channels@[0]@ == seq![1u8],
        c.subscribe_channels@[1]@ == seq![2u8],
        c.subscribe_channels@[2]@ == seq![3u8],
        ({
            let d = WsTransportConfig { require_jwt: false, ..c };
            default_settings(d)
        }),
{
    let mut config = WsTransportConfig::default();
    config.endpoint_url = endpoint.to_owned();
    config.jwt_qws = Some(jwt.to_owned());
    config.require_jwt = true;
    config.reconnect_idle_retry_ms = CONNECT_IDLE_RETRY_MS;
    let mut channels: Vec<Vec<u8>> = Vec::new();
    channels.push(vec![1u8]);
    channels.push(vec![2u8]);
    channels.push(vec![3u8]);
    config.subscribe_channels = channels;
    config
}

} // verus!
