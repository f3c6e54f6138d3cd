//! Interpolation delay configuration: how far behind the live server
//! timeline the render-interpolation cursor sits, so a render sample always
//! has two bracketing snapshots.

use core::marker::PhantomData;
use vstd::prelude::*;

verus! {

/// Deliberate lag applied to the interpolation timeline. The delay is the
/// larger of a fixed minimum and a multiple of the server's send interval:
/// the higher the server update rate, the smaller the delay needs to be.
#[derive(Clone, Copy, Debug)]
pub struct InterpolationDelay {
    /// The minimum delay applied, in microseconds. Zero means only the
    /// ratio part is used.
    pub min_delay_us: u64,
    /// The delay as a ratio of the server send interval, in thousandths
    /// (2000 means twice the send interval). Zero means only the fixed
    /// minimum is used.
    pub send_interval_ratio_per_mille: u32,
}

impl Default for InterpolationDelay {
    /// No fixed minimum; twice the server send interval.
    fn default() -> (r: Self)
        ensures
            r.min_delay_us == 0,
            r.send_interval_ratio_per_mille == 2000,
    {
        InterpolationDelay { min_delay_us: 0, send_interval_ratio_per_mille: 2000 }
    }
}

/// The interpolation delay for a given server send interval: the ratio part
/// of the delay, but never less than the configured minimum.
pub open spec fn to_duration_spec(delay: InterpolationDelay, server_send_interval_us: int) -> int {
    let ratio_value = server_send_interval_us * delay.send_interval_ratio_per_mille / 1000;
    if ratio_value >= delay.min_delay_us {
        ratio_value
    } else {
        delay.min_delay_us as int
    }
}

impl InterpolationDelay {
    /// Replaces the fixed minimum delay.
    pub fn with_min_delay(self, min_delay_us: u64) -> (r: Self)
        ensures
            r.min_delay_us == min_delay_us,
            r.send_interval_ratio_per_mille == self.send_interval_ratio_per_mille,
    {
        InterpolationDelay { min_delay_us, ..self }
    }

    /// Replaces the send-interval ratio.
    pub fn with_send_interval_ratio(self, send_interval_ratio_per_mille: u32) -> (r: Self)
        ensures
            r.min_delay_us == self.min_delay_us,
            r.send_interval_ratio_per_mille == send_interval_ratio_per_mille,
    {
        InterpolationDelay { send_interval_ratio_per_mille, ..self }
    }

    /// How far behind the latest server update the interpolation time sits.
    pub fn to_duration(&self, server_send_interval_us: u64) -> (r: u64)
        requires
            server_send_interval_us <= u32::MAX,
        ensures
            r == to_duration_spec(*self, server_send_interval_us as int),
    {
        proof {
            assert(server_send_interval_us * self.send_interval_ratio_per_mille as int
                <= 0xffff_ffff * 0xffff_ffff) by (nonlinear_arith)
                requires
                    server_send_interval_us <= 0xffff_ffff,
                    self.send_interval_ratio_per_mille <= 0xffff_ffff,
            ;
        }
        let ratio_value: u64 = (server_send_interval_us as u128
            * self.send_interval_ratio_per_mille as u128 / 1000) as u64;
        if ratio_value >= self.min_delay_us {
            ratio_value
        } else {
            self.min_delay_us
        }
    }
}

/// How much behind the client time the interpolated entities are; this is
/// converted to a tick by the synchronization engine.
#[derive(Clone, Copy, Debug)]
pub struct InterpolationConfig {
    /// The delay applied to the interpolation timeline.
    pub delay: InterpolationDelay,
}

impl Default for InterpolationConfig {
    fn default() -> (r: Self)
        ensures
            r.delay.min_delay_us == 0,
            r.delay.send_interval_ratio_per_mille == 2000,
    {
        InterpolationConfig { delay: InterpolationDelay::default() }
    }
}

impl InterpolationConfig {
    /// Replaces the interpolation delay.
    pub fn with_delay(self, delay: InterpolationDelay) -> (r: Self)
        ensures
            r.delay == delay,
    {
        InterpolationConfig { delay }
    }
}

/// Carrier of the interpolation configuration for one replicated protocol.
pub struct InterpolationPlugin<P> {
    /// The interpolation configuration the plugin installs.
    pub config: InterpolationConfig,
    /// Ties the plugin to one replicated protocol.
    pub _marker: PhantomData<P>,
}

impl<P> InterpolationPlugin<P> {
    pub(crate) fn new(config: InterpolationConfig) -> (r: Self)
        ensures
            r.config == config,
    {
        InterpolationPlugin { config, _marker: PhantomData }
    }
}

impl<P> Default for InterpolationPlugin<P> {
    fn default() -> (r: Self)
        ensures
            r.config.delay.min_delay_us == 0,
            r.config.delay.send_interval_ratio_per_mille == 2000,
    {
        InterpolationPlugin::new(InterpolationConfig::default())
    }
}

/// Phases of the per-frame interpolation work, in execution order.
#[derive(Debug, Hash, PartialEq, Eq, Clone, Copy)]
pub enum InterpolationSet {
    /// Spawn interpolation entities.
    SpawnInterpolation,
    SpawnInterpolationFlush,
    /// Add component history for all interpolated entities' interpolated
    /// components.
    SpawnHistory,
    SpawnHistoryFlush,
    /// Handle interpolated/confirmed entities/components getting despawned.
    Despawn,
    DespawnFlush,
    /// Update component history and interpolation status, and interpolate
    /// between the last two server states.
    Interpolate,
}

} // verus!
