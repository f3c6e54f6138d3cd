//! The client plugin: the configuration bundle a connection is started
//! with, handed to the scheduling harness that drives the per-frame work.

use vstd::prelude::*;

use crate::input::InputConfig;
use crate::interpolation::InterpolationConfig;
use crate::sync::SyncConfig;

verus! {

/// Connection-wide client configuration.
#[derive(Clone, Copy, Debug)]
pub struct ClientConfig {
    /// Duration of one simulation tick, in microseconds.
    pub tick_duration_us: u64,
    /// Clock-synchronization configuration.
    pub sync: SyncConfig,
    /// Input buffering and redundancy configuration.
    pub input: InputConfig,
    /// Interpolation delay configuration.
    pub interpolation: InterpolationConfig,
}

impl Default for ClientConfig {
    fn default() -> (r: Self)
        ensures
            r.tick_duration_us == 16_000,
            r.sync.wf(),
    {
        ClientConfig {
            tick_duration_us: 16_000,
            sync: SyncConfig::default(),
            input: InputConfig::default(),
            interpolation: InterpolationConfig::default(),
        }
    }
}

/// Credentials the client presents when the connection is established.
#[derive(Clone, Copy, Debug)]
pub struct Authentication {
    /// Identifier the client presents to the server.
    pub client_id: u64,
}

/// Everything needed to start a client for one protocol: the client
/// configuration, the protocol value itself, and the authentication.
pub struct PluginConfig<P> {
    /// Connection-wide client configuration.
    pub client_config: ClientConfig,
    /// The protocol the connection speaks.
    pub protocol: P,
    /// Credentials presented at connection start.
    pub auth: Authentication,
}

impl<P> PluginConfig<P> {
    /// Bundles the pieces a client is started with.
    pub fn new(client_config: ClientConfig, protocol: P, auth: Authentication) -> (r: Self)
        ensures
            r.client_config == client_config,
            r.protocol == protocol,
            r.auth == auth,
    {
        PluginConfig { client_config, protocol, auth }
    }
}

/// The client plugin: owns its configuration until the scheduling harness
/// takes it at build time.
pub struct Plugin<P> {
    /// The configuration the plugin was created with.
    pub config: PluginConfig<P>,
}

impl<P> Plugin<P> {
    /// Wraps the configuration for the harness.
    pub fn new(config: PluginConfig<P>) -> (r: Self)
        ensures
            r.config == config,
    {
        Plugin { config }
    }
}

} // verus!
