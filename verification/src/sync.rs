//! Syncing the client's tick/time with the server's tick/time.
//!
//! A connection starts unsynced. While pings are being exchanged, the
//! handshake accumulates round-trip samples; once enough have arrived the
//! manager finalizes: it recomputes the server-time estimate, snaps the
//! local tick forward so that client packets for tick `T` reach the server
//! with a safety margin before the server simulates `T`, and seeds the
//! interpolation timeline. From then on a steady-state governor compares
//! the client's prediction time against the predicted server receive time
//! every frame and answers with a speed-up / slow-down / normal playback
//! multiplier — it never snaps the clock again.

use vstd::prelude::*;

use crate::interpolation::{to_duration_spec, InterpolationDelay};
use crate::tick::{tick_diff_spec, tick_shift_spec, Tick};
use crate::time::{
    scaled_micros, scaled_micros_spec, time_diff_spec, wrap_us, RelativeSpeed, TickManager,
    TimeManager, WrappedTime,
};

verus! {

/// Tolerance on the interpolation timeline, in microseconds: a larger gap
/// between the interpolation time and its objective eases the speed ratio
/// away from normal; the time itself is never snapped.
pub const INTERPOLATION_TOLERANCE_US: i64 = 10_000;

/// Configuration of the clock-synchronization protocol; immutable from
/// connection start.
#[derive(Clone, Copy, Debug)]
pub struct SyncConfig {
    /// How many multiples of the jitter to apply as margin when computing
    /// the time a packet will be received by the server (the worst case is
    /// RTT / 2 + jitter * multiple margin); with k multiples, about 65%,
    /// 95% or 99.7% of packets arrive within margin for k = 1, 2, 3.
    pub jitter_multiple_margin: u8,
    /// How many ticks to apply as margin when computing the time a packet
    /// will be received by the server.
    pub tick_margin: u8,
    /// Number of pings to exchange with the server before finalizing the
    /// handshake.
    pub handshake_pings: u8,
    /// Length of the rolling buffer of stats used to compute RTT and
    /// jitter, in microseconds.
    pub stats_buffer_duration_us: u64,
    /// Error margin for the upstream throttle, in thousandths of a tick.
    pub error_margin_per_mille: u32,
    /// By how much to speed the simulation up or down to keep ticks in
    /// sync with the server, in thousandths (1030 means times 1.03).
    pub speedup_factor_per_mille: u32,
    /// Exponential-smoothing weight kept by the old server-time estimate
    /// when a new sample arrives, in thousandths.
    pub current_server_time_smoothing_per_mille: u32,
}

impl SyncConfig {
    /// A zero speedup factor would make the slowed-down playback ratio
    /// meaningless, and a smoothing weight above one would extrapolate
    /// instead of blending.
    pub open spec fn wf(self) -> bool {
        &&& 1 <= self.speedup_factor_per_mille
        &&& self.current_server_time_smoothing_per_mille <= 1000
    }

    /// Replaces the speedup factor.
    pub fn speedup_factor(self, speedup_factor_per_mille: u32) -> (r: Self)
        ensures
            r == (SyncConfig { speedup_factor_per_mille, ..self }),
    {
        SyncConfig { speedup_factor_per_mille, ..self }
    }
}

impl Default for SyncConfig {
    fn default() -> (r: Self)
        ensures
            r.jitter_multiple_margin == 3,
            r.tick_margin == 1,
            r.handshake_pings == 7,
            r.stats_buffer_duration_us == 2_000_000,
            r.error_margin_per_mille == 1000,
            r.speedup_factor_per_mille == 1030,
            r.current_server_time_smoothing_per_mille == 100,
            r.wf(),
    {
        SyncConfig {
            jitter_multiple_margin: 3,
            tick_margin: 1,
            handshake_pings: 7,
            stats_buffer_duration_us: 2_000_000,
            error_margin_per_mille: 1000,
            speedup_factor_per_mille: 1030,
            current_server_time_smoothing_per_mille: 100,
        }
    }
}

/// Identifier of a sent packet.
#[derive(Clone, Copy, Debug, PartialEq, Eq, Hash, Structural)]
pub struct PacketId(pub u16);

/// Send times of recent packets, kept so their acknowledgments can be
/// matched back to a round-trip sample.
pub struct SentPacketStore {
    /// The recorded (send time, packet) pairs, oldest first.
    pub buffer: Vec<(WrappedTime, PacketId)>,
}

impl SentPacketStore {
    /// An empty store.
    pub fn new() -> (r: Self)
        ensures
            r.buffer@.len() == 0,
    {
        SentPacketStore { buffer: Vec::new() }
    }
}

impl Default for SentPacketStore {
    fn default() -> (r: Self)
        ensures
            r.buffer@.len() == 0,
    {
        SentPacketStore::new()
    }
}

/// In charge of syncing the client's tick/time with the server's
/// tick/time, right after the connection is established and then every
/// frame. One instance per connection, never shared.
pub struct SyncManager {
    /// The immutable protocol configuration.
    pub config: SyncConfig,
    /// Whether the handshake is finalized; flips false to true exactly
    /// once and never reverts.
    pub synced: bool,
    /// Estimate of the current server time.
    pub current_server_time: WrappedTime,
    /// Position of the interpolation cursor on the clock circle.
    pub interpolation_time: WrappedTime,
    /// Speed at which the interpolation cursor advances relative to wall
    /// time.
    pub interpolation_speed_ratio: RelativeSpeed,
    /// Tick of the server that was last received in any packet from the
    /// server; updated when a packet arrives, not every tick.
    pub latest_received_server_tick: Tick,
    /// Tick corresponding to the interpolation cursor, kept for consumers.
    pub estimated_interpolation_tick: Tick,
    /// Wall-clock time elapsed since the latest received server tick, in
    /// microseconds.
    pub duration_since_latest_received_server_tick_us: u64,
    /// Whether a new server tick report arrived since the last frame.
    pub new_latest_received_server_tick: bool,
}

/// How far ahead of the server the client should be: a jitter multiple
/// plus a tick multiple, sized so that with high probability a client
/// packet for a tick reaches the server before the server simulates it.
pub open spec fn spec_client_ahead_minimum(cfg: SyncConfig, tick_duration_us: int, jitter_us: int) -> int {
    cfg.jitter_multiple_margin * jitter_us + cfg.tick_margin * tick_duration_us
}

/// A fresh server-time sample: the latest received server tick converted
/// to time, plus the wall time elapsed since it arrived, plus half the
/// round trip.
pub open spec fn spec_new_server_time_estimate(s: SyncManager, tick_duration_us: int, rtt_us: int) -> int {
    wrap_us(
        s.latest_received_server_tick.0 * tick_duration_us
            + s.duration_since_latest_received_server_tick_us + rtt_us / 2,
    )
}

/// The server-time estimate after blending in a fresh sample: the first
/// sample bootstraps the filter unsmoothed, later samples are blended with
/// the configured exponential-smoothing weight.
pub open spec fn spec_smoothed_server_time(s: SyncManager, tick_duration_us: int, rtt_us: int) -> int {
    let est = spec_new_server_time_estimate(s, tick_duration_us, rtt_us);
    let smoothing = s.config.current_server_time_smoothing_per_mille as int;
    if s.current_server_time.elapsed_us_wrapped == 0 {
        est
    } else {
        (s.current_server_time.elapsed_us_wrapped * smoothing + est * (1000 - smoothing)) / 1000
    }
}

/// The manager after recording a fresh server-time sample.
pub open spec fn spec_after_server_time_update(s: SyncManager, tick_duration_us: int, rtt_us: int) -> SyncManager {
    SyncManager {
        current_server_time: WrappedTime {
            elapsed_us_wrapped: spec_smoothed_server_time(s, tick_duration_us, rtt_us) as u32,
        },
        ..s
    }
}

/// The time at which the server would receive a packet sent now.
pub open spec fn spec_predicted_server_receive_time(s: SyncManager, rtt_us: int) -> int {
    wrap_us(s.current_server_time.elapsed_us_wrapped + rtt_us / 2)
}

/// The client's current prediction time: the client tick converted to
/// time. The client tick is always ahead of the server tick once synced,
/// so a client tick far below the last received server tick means the
/// 16-bit counter wrapped: a full turn of the tick circle is added back
/// before converting.
pub open spec fn spec_current_prediction_time(
    latest_server_tick: u16,
    client_tick: u16,
    tick_duration_us: int,
    overstep_us: int,
) -> int {
    let raw = if latest_server_tick - client_tick > 0x7FFF - 1000 {
        client_tick + 0x1_0000
    } else {
        client_tick as int
    };
    wrap_us(raw * tick_duration_us + overstep_us)
}

/// The objective position of the interpolation cursor: the latest received
/// server time, held back by the interpolation delay.
pub open spec fn spec_interpolation_objective(
    s: SyncManager,
    delay: InterpolationDelay,
    server_send_interval_us: int,
    tick_duration_us: int,
) -> int {
    let objective_time = wrap_us(
        s.latest_received_server_tick.0 * tick_duration_us
            + s.duration_since_latest_received_server_tick_us,
    );
    wrap_us(objective_time - to_duration_spec(delay, server_send_interval_us))
}

/// The tick the interpolation cursor currently sits in.
pub open spec fn spec_interpolation_tick(s: SyncManager, tick_duration_us: int) -> int {
    (s.interpolation_time.elapsed_us_wrapped as int / tick_duration_us) % 0x1_0000
}

/// The interpolation speed ratio chosen for a gap between the cursor and
/// its objective: eased toward the objective when the gap exceeds the
/// fixed tolerance, normal speed otherwise.
pub open spec fn spec_interpolation_ratio_for(objective: int, interpolation_time: u32) -> RelativeSpeed {
    let gap = time_diff_spec(objective as u32, interpolation_time);
    if gap > INTERPOLATION_TOLERANCE_US as int {
        RelativeSpeed::SpedUp
    } else if gap < -(INTERPOLATION_TOLERANCE_US as int) {
        RelativeSpeed::Slowed
    } else {
        RelativeSpeed::Normal
    }
}

/// The manager after re-deriving the interpolation speed ratio from the
/// current gap to the objective.
pub open spec fn spec_update_interpolation_time(
    s: SyncManager,
    delay: InterpolationDelay,
    server_send_interval_us: int,
    tick_duration_us: int,
) -> SyncManager {
    let objective = spec_interpolation_objective(s, delay, server_send_interval_us, tick_duration_us);
    SyncManager {
        interpolation_speed_ratio: spec_interpolation_ratio_for(
            objective,
            s.interpolation_time.elapsed_us_wrapped,
        ),
        ..s
    }
}

/// The playback speed chosen by the upstream throttle: how far the
/// client's prediction time is ahead of the predicted server receive time,
/// minus the wanted margin, compared against the error margin.
pub open spec fn spec_governed_relative_speed(
    s: SyncManager,
    tk: TickManager,
    overstep_us: int,
    rtt_us: int,
    jitter_us: int,
) -> RelativeSpeed {
    let td = tk.tick_duration_us as int;
    let cpt = spec_current_prediction_time(s.latest_received_server_tick.0, tk.tick.0, td, overstep_us);
    let psrt = spec_predicted_server_receive_time(s, rtt_us);
    let client_ahead_delta = time_diff_spec(cpt as u32, psrt as u32);
    let error = client_ahead_delta - spec_client_ahead_minimum(s.config, td, jitter_us);
    let error_margin = td * s.config.error_margin_per_mille / 1000;
    if error > error_margin {
        RelativeSpeed::Slowed
    } else if error < -error_margin {
        RelativeSpeed::SpedUp
    } else {
        RelativeSpeed::Normal
    }
}

/// The tick the client snaps to at handshake completion: the first tick
/// whose time lies past the predicted server receive time plus the safety
/// margin.
pub open spec fn spec_client_ideal_tick(s: SyncManager, tk: TickManager, rtt_us: int, jitter_us: int) -> u16 {
    let td = tk.tick_duration_us as int;
    let ideal = wrap_us(
        spec_predicted_server_receive_time(s, rtt_us) + spec_client_ahead_minimum(s.config, td, jitter_us),
    );
    ((ideal / td + 1) % 0x1_0000) as u16
}

/// The manager and tick source after the one-shot handshake finalization:
/// the server-time estimate is recomputed and the local tick is rebased.
pub open spec fn spec_finalize(s: SyncManager, tk: TickManager, rtt_us: int, jitter_us: int) -> (
    SyncManager,
    TickManager,
) {
    let s1 = spec_after_server_time_update(s, tk.tick_duration_us as int, rtt_us);
    (s1, TickManager { tick: Tick(spec_client_ideal_tick(s1, tk, rtt_us, jitter_us)), ..tk })
}

/// The manager after one frame's worth of wall time: the server-time
/// estimate and the elapsed-since-server-tick bookkeeping advance by the
/// delta, and the interpolation cursor advances by the delta scaled with
/// its speed ratio.
pub open spec fn spec_advance(s: SyncManager, delta_us: int) -> SyncManager {
    SyncManager {
        duration_since_latest_received_server_tick_us: (
            s.duration_since_latest_received_server_tick_us + delta_us
        ) as u64,
        current_server_time: WrappedTime {
            elapsed_us_wrapped: wrap_us(s.current_server_time.elapsed_us_wrapped + delta_us) as u32,
        },
        interpolation_time: WrappedTime {
            elapsed_us_wrapped: wrap_us(
                s.interpolation_time.elapsed_us_wrapped + scaled_micros_spec(
                    delta_us,
                    s.interpolation_speed_ratio,
                    s.config.speedup_factor_per_mille as int,
                ),
            ) as u32,
        },
        ..s
    }
}

/// One whole per-frame update of the manager and tick source.
pub open spec fn spec_update(
    s: SyncManager,
    tm: TimeManager,
    tk: TickManager,
    sync_samples: int,
    rtt_us: int,
    jitter_us: int,
    delay: InterpolationDelay,
    server_send_interval_us: int,
) -> (SyncManager, TickManager) {
    let sa = spec_advance(s, tm.delta_us as int);
    if !sa.synced && sync_samples >= sa.config.handshake_pings {
        let sb = SyncManager { synced: true, ..sa };
        let (sc, tk1) = spec_finalize(sb, tk, rtt_us, jitter_us);
        let sd = SyncManager {
            interpolation_time: WrappedTime {
                elapsed_us_wrapped: spec_interpolation_objective(
                    sc,
                    delay,
                    server_send_interval_us,
                    tk1.tick_duration_us as int,
                ) as u32,
            },
            ..sc
        };
        (
            spec_update_interpolation_time(sd, delay, server_send_interval_us, tk1.tick_duration_us as int),
            tk1,
        )
    } else if sa.synced {
        (spec_update_interpolation_time(sa, delay, server_send_interval_us, tk.tick_duration_us as int), tk)
    } else {
        (sa, tk)
    }
}

impl SyncManager {
    /// A manager created unsynced at connection start.
    pub fn new(config: SyncConfig) -> (r: Self)
        ensures
            r.config == config,
            !r.synced,
            r.current_server_time.elapsed_us_wrapped == 0,
            r.interpolation_time.elapsed_us_wrapped == 0,
            r.interpolation_speed_ratio == RelativeSpeed::Normal,
            r.latest_received_server_tick == Tick(0),
            r.estimated_interpolation_tick == Tick(0),
            r.duration_since_latest_received_server_tick_us == 0,
            !r.new_latest_received_server_tick,
    {
        SyncManager {
            config,
            synced: false,
            current_server_time: WrappedTime::zero(),
            interpolation_time: WrappedTime::zero(),
            interpolation_speed_ratio: RelativeSpeed::Normal,
            latest_received_server_tick: Tick(0),
            estimated_interpolation_tick: Tick(0),
            duration_since_latest_received_server_tick_us: 0,
            new_latest_received_server_tick: false,
        }
    }

    /// Whether the handshake is finalized; gates gameplay and replication.
    pub fn is_synced(&self) -> (r: bool)
        ensures
            r == self.synced,
    {
        self.synced
    }

    /// The current server time from the server's point of view.
    pub fn current_server_time(&self) -> (r: WrappedTime)
        ensures
            r == self.current_server_time,
    {
        self.current_server_time
    }

    /// The tick corresponding to the interpolation cursor, for consumers.
    pub fn estimated_interpolated_tick(&self) -> (r: Tick)
        ensures
            r == self.estimated_interpolation_tick,
    {
        self.estimated_interpolation_tick
    }

    /// An external tick rebase shifts the server-tick bookkeeping by the
    /// same signed delta, so the downstream comparisons stay consistent.
    pub fn receive_tick_event(&mut self, old_tick: Tick, new_tick: Tick)
        ensures
            *final(self) == (SyncManager {
                latest_received_server_tick: Tick(
                    tick_shift_spec(
                        old(self).latest_received_server_tick.0,
                        tick_diff_spec(new_tick.0, old_tick.0),
                    ),
                ),
                ..*old(self)
            }),
    {
        let delta = new_tick.diff(old_tick);
        self.latest_received_server_tick = self.latest_received_server_tick.shift(delta);
    }

    /// How far ahead of the server the client should be.
    pub fn client_ahead_minimum(&self, tick_duration_us: u64, jitter_us: u64) -> (r: u64)
        requires
            tick_duration_us <= u32::MAX,
            jitter_us <= u32::MAX,
        ensures
            r == spec_client_ahead_minimum(self.config, tick_duration_us as int, jitter_us as int),
    {
        proof {
            assert(self.config.jitter_multiple_margin * jitter_us <= 255 * 0xffff_ffff)
                by (nonlinear_arith)
                requires
                    self.config.jitter_multiple_margin <= 255,
                    jitter_us <= 0xffff_ffff,
            ;
            assert(self.config.tick_margin * tick_duration_us <= 255 * 0xffff_ffff)
                by (nonlinear_arith)
                requires
                    self.config.tick_margin <= 255,
                    tick_duration_us <= 0xffff_ffff,
            ;
        }
        self.config.jitter_multiple_margin as u64 * jitter_us
            + self.config.tick_margin as u64 * tick_duration_us
    }

    /// The time at which the server would receive a packet sent now.
    pub fn predicted_server_receive_time(&self, rtt_us: u64) -> (r: WrappedTime)
        ensures
            r.elapsed_us_wrapped == spec_predicted_server_receive_time(*self, rtt_us as int),
    {
        self.current_server_time.add_micros(rtt_us / 2)
    }

    /// Records a fresh server-time sample, blended into the running
    /// estimate by exponential smoothing; the first sample bootstraps the
    /// filter unsmoothed.
    pub fn update_current_server_time(&mut self, tick_duration_us: u64, rtt_us: u64)
        requires
            old(self).config.wf(),
        ensures
            *final(self) == spec_after_server_time_update(
                *old(self),
                tick_duration_us as int,
                rtt_us as int,
            ),
    {
        proof {
            crate::time::lemma_mul_le(
                self.latest_received_server_tick.0 as int,
                0xffff,
                tick_duration_us as int,
                u64::MAX as int,
            );
        }
        let total: u128 = self.latest_received_server_tick.0 as u128 * tick_duration_us as u128
            + self.duration_since_latest_received_server_tick_us as u128 + (rtt_us / 2) as u128;
        let est: u32 = (total % 0x1_0000_0000u128) as u32;
        if self.current_server_time.elapsed_us_wrapped == 0 {
            self.current_server_time = WrappedTime { elapsed_us_wrapped: est };
        } else {
            let smoothing: u64 = self.config.current_server_time_smoothing_per_mille as u64;
            let cur: u64 = self.current_server_time.elapsed_us_wrapped as u64;
            proof {
                crate::time::lemma_mul_le(cur as int, 0xffff_ffff, smoothing as int, 1000);
                crate::time::lemma_mul_le(est as int, 0xffff_ffff, 1000 - smoothing, 1000);
                assert(cur * smoothing + est * (1000 - smoothing) <= 0xffff_ffff * 1000)
                    by (nonlinear_arith)
                    requires
                        cur <= 0xffff_ffff,
                        est <= 0xffff_ffff,
                        smoothing <= 1000,
                ;
                vstd::arithmetic::div_mod::lemma_div_is_ordered(
                    cur * smoothing + est * (1000 - smoothing),
                    0xffff_ffff * 1000 as int,
                    1000,
                );
            }
            let blended: u64 = (cur * smoothing + est as u64 * (1000 - smoothing)) / 1000;
            self.current_server_time = WrappedTime { elapsed_us_wrapped: blended as u32 };
        }
    }

    /// The client's current prediction time, correcting a wrapped 16-bit
    /// client tick relative to the last known server tick.
    pub fn current_prediction_time(&self, tick_manager: &TickManager, time_manager: &TimeManager) -> (r:
        WrappedTime)
        ensures
            r.elapsed_us_wrapped == spec_current_prediction_time(
                self.latest_received_server_tick.0,
                tick_manager.tick.0,
                tick_manager.tick_duration_us as int,
                time_manager.overstep_us as int,
            ),
    {
        let mut client_tick_raw: u32 = tick_manager.tick.0 as u32;
        if self.latest_received_server_tick.0 as i32 - client_tick_raw as i32 > 0x7FFF - 1000 {
            client_tick_raw = client_tick_raw + 0x1_0000;
        }
        proof {
            crate::time::lemma_mul_le(
                client_tick_raw as int,
                0x2_0000,
                tick_manager.tick_duration_us as int,
                u64::MAX as int,
            );
        }
        let total: u128 = client_tick_raw as u128 * tick_manager.tick_duration_us as u128
            + time_manager.overstep_us as u128;
        WrappedTime { elapsed_us_wrapped: (total % 0x1_0000_0000u128) as u32 }
    }

    /// The objective position of the interpolation cursor: just behind the
    /// latest received server time, by the interpolation delay.
    pub fn interpolation_objective(
        &self,
        interpolation_delay: &InterpolationDelay,
        server_send_interval_us: u64,
        tick_manager: &TickManager,
    ) -> (r: WrappedTime)
        requires
            server_send_interval_us <= u32::MAX,
        ensures
            r.elapsed_us_wrapped == spec_interpolation_objective(
                *self,
                *interpolation_delay,
                server_send_interval_us as int,
                tick_manager.tick_duration_us as int,
            ),
    {
        proof {
            crate::time::lemma_mul_le(
                self.latest_received_server_tick.0 as int,
                0xffff,
                tick_manager.tick_duration_us as int,
                u64::MAX as int,
            );
        }
        let total: u128 = self.latest_received_server_tick.0 as u128
            * tick_manager.tick_duration_us as u128
            + self.duration_since_latest_received_server_tick_us as u128;
        let objective_time = WrappedTime { elapsed_us_wrapped: (total % 0x1_0000_0000u128) as u32 };
        let objective_delta = interpolation_delay.to_duration(server_send_interval_us);
        objective_time.sub_micros(objective_delta)
    }

    /// The tick the interpolation cursor currently sits in.
    pub fn interpolation_tick(&self, tick_manager: &TickManager) -> (r: Tick)
        requires
            tick_manager.wf(),
        ensures
            r.0 as int == spec_interpolation_tick(*self, tick_manager.tick_duration_us as int),
    {
        let q: u64 = self.interpolation_time.elapsed_us_wrapped as u64
            / tick_manager.tick_duration_us;
        Tick((q % 0x1_0000) as u16)
    }

    /// Re-derives the interpolation speed ratio from the gap between the
    /// cursor and its objective. The cursor is always eased via the ratio,
    /// never snapped: snapping a render cursor is visibly disruptive.
    pub fn update_interpolation_time(
        &mut self,
        interpolation_delay: &InterpolationDelay,
        server_send_interval_us: u64,
        tick_manager: &TickManager,
    )
        requires
            server_send_interval_us <= u32::MAX,
        ensures
            *final(self) == spec_update_interpolation_time(
                *old(self),
                *interpolation_delay,
                server_send_interval_us as int,
                tick_manager.tick_duration_us as int,
            ),
    {
        let objective_time = self.interpolation_objective(
            interpolation_delay,
            server_send_interval_us,
            tick_manager,
        );
        let gap: i64 = objective_time.signed_diff(self.interpolation_time);
        if gap > INTERPOLATION_TOLERANCE_US {
            self.interpolation_speed_ratio = RelativeSpeed::SpedUp;
        } else if gap < -INTERPOLATION_TOLERANCE_US {
            self.interpolation_speed_ratio = RelativeSpeed::Slowed;
        } else {
            self.interpolation_speed_ratio = RelativeSpeed::Normal;
        }
    }

    /// The upstream throttle: answers with the playback speed that keeps
    /// the client's packets arriving on the server just ahead of their
    /// ticks, but not too far ahead. The multiplier is applied externally
    /// to subsequent tick advancement; the wall clock itself is untouched.
    pub fn update_prediction_time(
        &self,
        time_manager: &mut TimeManager,
        tick_manager: &TickManager,
        rtt_us: u64,
        jitter_us: u64,
    )
        requires
            tick_manager.wf(),
            jitter_us <= u32::MAX,
        ensures
            final(time_manager).delta_us == old(time_manager).delta_us,
            final(time_manager).overstep_us == old(time_manager).overstep_us,
            final(time_manager).sync_relative_speed == spec_governed_relative_speed(
                *self,
                *tick_manager,
                old(time_manager).overstep_us as int,
                rtt_us as int,
                jitter_us as int,
            ),
    {
        let current_prediction_time = self.current_prediction_time(tick_manager, time_manager);
        let predicted_server_receive_time = self.predicted_server_receive_time(rtt_us);
        let client_ahead_delta: i64 = current_prediction_time.signed_diff(
            predicted_server_receive_time,
        );
        let client_ahead_minimum = self.client_ahead_minimum(
            tick_manager.tick_duration_us,
            jitter_us,
        );
        let error: i128 = client_ahead_delta as i128 - client_ahead_minimum as i128;
        proof {
            assert(tick_manager.tick_duration_us * self.config.error_margin_per_mille as int
                <= 0xffff_ffff * 0xffff_ffff) by (nonlinear_arith)
                requires
                    tick_manager.tick_duration_us <= 0xffff_ffff,
                    self.config.error_margin_per_mille <= 0xffff_ffff,
            ;
        }
        let error_margin: u128 = tick_manager.tick_duration_us as u128
            * self.config.error_margin_per_mille as u128 / 1000;
        time_manager.sync_relative_speed = if error > error_margin as i128 {
            // too far ahead of the server: slow down
            RelativeSpeed::Slowed
        } else if error < -(error_margin as i128) {
            // too far behind the server: speed up
            RelativeSpeed::SpedUp
        } else {
            RelativeSpeed::Normal
        };
    }

    /// One-shot handshake completion: recomputes the server-time estimate
    /// from the freshly measured round trip, then issues a hard rebase of
    /// the tick source to the first tick whose time clears the predicted
    /// server receive time plus the safety margin.
    pub fn finalize(&mut self, tick_manager: &mut TickManager, rtt_us: u64, jitter_us: u64)
        requires
            old(self).config.wf(),
            old(tick_manager).wf(),
            jitter_us <= u32::MAX,
        ensures
            ({
                let (s1, tk1) = spec_finalize(
                    *old(self),
                    *old(tick_manager),
                    rtt_us as int,
                    jitter_us as int,
                );
                *final(self) == s1 && *final(tick_manager) == tk1
            }),
    {
        let tick_duration_us = tick_manager.tick_duration_us;
        self.update_current_server_time(tick_duration_us, rtt_us);
        let client_ideal_time = self.predicted_server_receive_time(rtt_us).add_micros(
            self.client_ahead_minimum(tick_duration_us, jitter_us),
        );
        let q: u64 = client_ideal_time.elapsed_us_wrapped as u64 / tick_duration_us;
        proof {
            vstd::arithmetic::div_mod::lemma_div_nonincreasing(
                client_ideal_time.elapsed_us_wrapped as int,
                tick_duration_us as int,
            );
        }
        let client_ideal_tick = Tick(((q + 1) % 0x1_0000) as u16);
        tick_manager.set_tick_to(client_ideal_tick);
    }

    /// The per-frame update, run after both the tick and the wall clock
    /// have advanced. It advances the estimates by the frame's delta;
    /// while unsynced it finalizes the handshake as soon as enough ping
    /// samples have accumulated, seeding the interpolation cursor at its
    /// objective; once synced it re-derives the interpolation speed ratio
    /// every call.
    pub fn update(
        &mut self,
        time_manager: &TimeManager,
        tick_manager: &mut TickManager,
        sync_samples: usize,
        rtt_us: u64,
        jitter_us: u64,
        interpolation_delay: &InterpolationDelay,
        server_send_interval_us: u64,
    )
        requires
            old(self).config.wf(),
            old(tick_manager).wf(),
            time_manager.delta_us <= u32::MAX,
            old(self).duration_since_latest_received_server_tick_us + time_manager.delta_us
                <= u64::MAX,
            jitter_us <= u32::MAX,
            server_send_interval_us <= u32::MAX,
        ensures
            ({
                let (s1, tk1) = spec_update(
                    *old(self),
                    *time_manager,
                    *old(tick_manager),
                    sync_samples as int,
                    rtt_us as int,
                    jitter_us as int,
                    *interpolation_delay,
                    server_send_interval_us as int,
                );
                *final(self) == s1 && *final(tick_manager) == tk1
            }),
            final(self).synced == (old(self).synced || sync_samples
                >= old(self).config.handshake_pings as int),
    {
        let delta = time_manager.delta_us;
        self.duration_since_latest_received_server_tick_us =
            self.duration_since_latest_received_server_tick_us + delta;
        self.current_server_time = self.current_server_time.add_micros(delta);
        let scaled = scaled_micros(
            delta,
            self.interpolation_speed_ratio,
            self.config.speedup_factor_per_mille,
        );
        self.interpolation_time = self.interpolation_time.add_micros(scaled);
        if !self.synced && sync_samples >= self.config.handshake_pings as usize {
            self.synced = true;
            self.finalize(tick_manager, rtt_us, jitter_us);
            self.interpolation_time = self.interpolation_objective(
                interpolation_delay,
                server_send_interval_us,
                tick_manager,
            );
        }
        if self.synced {
            self.update_interpolation_time(
                interpolation_delay,
                server_send_interval_us,
                tick_manager,
            );
        }
    }
}

/// Advancing by a zero wall-clock delta changes nothing.
proof fn lemma_advance_zero(s: SyncManager)
    requires
        s.config.wf(),
    ensures
        spec_advance(s, 0) == s,
{
    vstd::arithmetic::div_mod::lemma_small_mod(
        s.current_server_time.elapsed_us_wrapped as nat,
        0x1_0000_0000,
    );
    vstd::arithmetic::div_mod::lemma_small_mod(
        s.interpolation_time.elapsed_us_wrapped as nat,
        0x1_0000_0000,
    );
    assert(scaled_micros_spec(0, s.interpolation_speed_ratio, s.config.speedup_factor_per_mille as int)
        == 0) by {
        vstd::arithmetic::div_mod::lemma_div_basics(s.config.speedup_factor_per_mille as int);
    }
}

/// Re-deriving the interpolation speed ratio is stable: deriving it again
/// from the state it just produced gives the same state back.
proof fn lemma_interpolation_governor_stable(
    s: SyncManager,
    delay: InterpolationDelay,
    server_send_interval_us: int,
    tick_duration_us: int,
)
    ensures
        spec_update_interpolation_time(
            spec_update_interpolation_time(s, delay, server_send_interval_us, tick_duration_us),
            delay,
            server_send_interval_us,
            tick_duration_us,
        ) == spec_update_interpolation_time(s, delay, server_send_interval_us, tick_duration_us),
{
}

/// `synced` transitions false to true exactly once and never reverts: an
/// update leaves it true exactly when it was already true or enough
/// handshake samples have accumulated.
pub proof fn lemma_synced_never_reverts(
    s: SyncManager,
    tm: TimeManager,
    tk: TickManager,
    sync_samples: int,
    rtt_us: int,
    jitter_us: int,
    delay: InterpolationDelay,
    server_send_interval_us: int,
)
    ensures
        spec_update(s, tm, tk, sync_samples, rtt_us, jitter_us, delay, server_send_interval_us)
            .0.synced == (s.synced || sync_samples >= s.config.handshake_pings),
{
}

/// Updating twice with a zero elapsed delta is idempotent: the second
/// update is a no-op, so in particular it changes neither the
/// interpolation speed ratio nor the server-time estimate.
pub proof fn lemma_update_zero_delta_idempotent(
    s: SyncManager,
    tm: TimeManager,
    tk: TickManager,
    sync_samples: int,
    rtt_us: int,
    jitter_us: int,
    delay: InterpolationDelay,
    server_send_interval_us: int,
)
    requires
        tm.delta_us == 0,
        s.config.wf(),
    ensures
        ({
            let (s1, tk1) = spec_update(s, tm, tk, sync_samples, rtt_us, jitter_us, delay, server_send_interval_us);
            let (s2, tk2) = spec_update(s1, tm, tk1, sync_samples, rtt_us, jitter_us, delay, server_send_interval_us);
            &&& s2 == s1
            &&& tk2 == tk1
            &&& s2.interpolation_speed_ratio == s1.interpolation_speed_ratio
            &&& s2.current_server_time == s1.current_server_time
        }),
{
    let (s1, tk1) = spec_update(s, tm, tk, sync_samples, rtt_us, jitter_us, delay, server_send_interval_us);
    lemma_advance_zero(s);
    lemma_advance_zero(s1);
    if !s.synced && sync_samples >= s.config.handshake_pings {
        let sa = spec_advance(s, 0);
        let sb = SyncManager { synced: true, ..sa };
        let (sc, tkc) = spec_finalize(sb, tk, rtt_us, jitter_us);
        let sd = SyncManager {
            interpolation_time: WrappedTime {
                elapsed_us_wrapped: spec_interpolation_objective(
                    sc,
                    delay,
                    server_send_interval_us,
                    tkc.tick_duration_us as int,
                ) as u32,
            },
            ..sc
        };
        lemma_interpolation_governor_stable(
            sd,
            delay,
            server_send_interval_us,
            tkc.tick_duration_us as int,
        );
    } else if s.synced {
        lemma_interpolation_governor_stable(
            spec_advance(s, 0),
            delay,
            server_send_interval_us,
            tk.tick_duration_us as int,
        );
    }
}

/// After handshake finalization, the rebased tick never violates the
/// safety margin: its prediction time lies at or past the predicted server
/// receive time plus the client-ahead minimum. Stated for the window where
/// neither the microsecond clock nor the tick counter wraps around.
pub proof fn lemma_finalize_respects_safety_margin(
    s: SyncManager,
    tk: TickManager,
    rtt_us: int,
    jitter_us: int,
    overstep_us: int,
)
    requires
        s.config.wf(),
        tk.wf(),
        0 <= rtt_us,
        0 <= jitter_us,
        0 <= overstep_us,
        ({
            let (s1, tk1) = spec_finalize(s, tk, rtt_us, jitter_us);
            let td = tk.tick_duration_us as int;
            let psrt = spec_predicted_server_receive_time(s1, rtt_us);
            let cam = spec_client_ahead_minimum(s.config, td, jitter_us);
            let ideal = psrt + cam;
            &&& ideal < 0x1_0000_0000
            &&& ideal / td + 1 < 0x1_0000
            &&& s1.latest_received_server_tick.0 - (ideal / td + 1) <= 0x7FFF - 1000
            &&& (ideal / td + 1) * td + overstep_us < 0x1_0000_0000
        }),
    ensures
        ({
            let (s1, tk1) = spec_finalize(s, tk, rtt_us, jitter_us);
            let td = tk.tick_duration_us as int;
            spec_current_prediction_time(s1.latest_received_server_tick.0, tk1.tick.0, td, overstep_us)
                >= spec_predicted_server_receive_time(s1, rtt_us) + spec_client_ahead_minimum(
                s.config,
                td,
                jitter_us,
            )
        }),
{
    let (s1, tk1) = spec_finalize(s, tk, rtt_us, jitter_us);
    let td = tk.tick_duration_us as int;
    let psrt = spec_predicted_server_receive_time(s1, rtt_us);
    let cam = spec_client_ahead_minimum(s.config, td, jitter_us);
    let ideal = psrt + cam;
    assert(0 <= psrt) by {
        vstd::arithmetic::div_mod::lemma_mod_bound(
            s1.current_server_time.elapsed_us_wrapped + rtt_us / 2,
            0x1_0000_0000,
        );
    }
    assert(0 <= cam) by {
        assert(s.config.jitter_multiple_margin * jitter_us >= 0) by (nonlinear_arith)
            requires jitter_us >= 0;
        assert(s.config.tick_margin * td >= 0) by (nonlinear_arith)
            requires td >= 0;
    }
    vstd::arithmetic::div_mod::lemma_small_mod(ideal as nat, 0x1_0000_0000);
    let q = ideal / td;
    vstd::arithmetic::div_mod::lemma_div_pos_is_pos(ideal, td);
    vstd::arithmetic::div_mod::lemma_small_mod((q + 1) as nat, 0x1_0000);
    assert(tk1.tick.0 == q + 1);
    // the rebased tick's time clears the ideal time
    vstd::arithmetic::div_mod::lemma_fundamental_div_mod(ideal, td);
    vstd::arithmetic::div_mod::lemma_mod_bound(ideal, td);
    assert((q + 1) * td == td * q + td) by (nonlinear_arith);
    assert((q + 1) * td > ideal);
    // no wrap correction applies, and the prediction time does not wrap
    let cpt = spec_current_prediction_time(s1.latest_received_server_tick.0, tk1.tick.0, td, overstep_us);
    vstd::arithmetic::div_mod::lemma_small_mod(((q + 1) * td + overstep_us) as nat, 0x1_0000_0000);
    assert(cpt == (q + 1) * td + overstep_us);
}

} // verus!
