//! Tests of the clock-synchronization engine: handshake, finalization,
//! server-time smoothing and the steady-state speed governors.

use lightyear::interpolation::InterpolationDelay;
use lightyear::sync::{SyncConfig, SyncManager};
use lightyear::tick::Tick;
use lightyear::time::{RelativeSpeed, TickManager, TimeManager, WrappedTime};

fn time_manager(delta_us: u64) -> TimeManager {
    TimeManager { delta_us, overstep_us: 0, sync_relative_speed: RelativeSpeed::Normal }
}

fn tick_manager(tick_duration_us: u64, tick: u16) -> TickManager {
    TickManager { tick_duration_us, tick: Tick(tick) }
}

#[test]
fn sync_config_defaults() {
    let config = SyncConfig::default();
    assert_eq!(config.jitter_multiple_margin, 3);
    assert_eq!(config.tick_margin, 1);
    assert_eq!(config.handshake_pings, 7);
    assert_eq!(config.stats_buffer_duration_us, 2_000_000);
    assert_eq!(config.error_margin_per_mille, 1000);
    assert_eq!(config.speedup_factor_per_mille, 1030);
    let faster = config.speedup_factor(1100);
    assert_eq!(faster.speedup_factor_per_mille, 1100);
    assert_eq!(faster.jitter_multiple_margin, 3);
}

#[test]
fn new_manager_starts_unsynced() {
    let manager = SyncManager::new(SyncConfig::default());
    assert!(!manager.is_synced());
    assert_eq!(manager.current_server_time(), WrappedTime { elapsed_us_wrapped: 0 });
    assert_eq!(manager.estimated_interpolated_tick(), Tick(0));
    assert_eq!(manager.interpolation_speed_ratio, RelativeSpeed::Normal);
}

#[test]
fn handshake_flips_synced_exactly_after_third_sample() {
    let mut config = SyncConfig::default();
    config.handshake_pings = 3;
    let mut manager = SyncManager::new(config);
    let mut ticks = tick_manager(16_000, 0);
    let delay = InterpolationDelay::default();
    let tm = time_manager(1_000);

    manager.update(&tm, &mut ticks, 1, 100_000, 10_000, &delay, 48_000);
    assert!(!manager.is_synced());
    manager.update(&tm, &mut ticks, 2, 100_000, 10_000, &delay, 48_000);
    assert!(!manager.is_synced());
    manager.update(&tm, &mut ticks, 3, 100_000, 10_000, &delay, 48_000);
    assert!(manager.is_synced());
    // synced never reverts, even when the sample count is below the bar
    manager.update(&tm, &mut ticks, 0, 100_000, 10_000, &delay, 48_000);
    assert!(manager.is_synced());
}

#[test]
fn finalize_matches_handshake_formula() {
    // RTT 100ms, jitter 10ms, jitter margin 3, tick margin 1, ticks of 16ms
    let mut manager = SyncManager::new(SyncConfig::default());
    let mut ticks = tick_manager(16_000, 0);
    assert_eq!(manager.client_ahead_minimum(16_000, 10_000), 46_000);
    manager.finalize(&mut ticks, 100_000, 10_000);
    // bootstrap server time: 0 * 16ms + 0 elapsed + rtt / 2 = 50ms
    assert_eq!(manager.current_server_time(), WrappedTime { elapsed_us_wrapped: 50_000 });
    // ideal time = 50ms + 50ms + 46ms = 146ms; ceil(146 / 16) = 10
    assert_eq!(ticks.tick, Tick(10));
}

#[test]
fn finalized_tick_clears_safety_margin() {
    let mut manager = SyncManager::new(SyncConfig::default());
    let mut ticks = tick_manager(16_000, 0);
    manager.finalize(&mut ticks, 100_000, 10_000);
    let tm = time_manager(0);
    let prediction = manager.current_prediction_time(&ticks, &tm);
    let psrt = manager.predicted_server_receive_time(100_000);
    let margin = manager.client_ahead_minimum(16_000, 10_000);
    assert_eq!(prediction.elapsed_us_wrapped, 160_000);
    assert!(
        prediction.elapsed_us_wrapped as u64 >= psrt.elapsed_us_wrapped as u64 + margin
    );
}

#[test]
fn update_twice_with_zero_delta_changes_nothing() {
    let mut config = SyncConfig::default();
    config.handshake_pings = 3;
    let mut manager = SyncManager::new(config);
    let mut ticks = tick_manager(16_000, 40);
    let delay = InterpolationDelay::default();
    manager.latest_received_server_tick = Tick(30);
    manager.duration_since_latest_received_server_tick_us = 5_000;

    let zero = time_manager(0);
    manager.update(&zero, &mut ticks, 3, 100_000, 10_000, &delay, 48_000);
    let ratio_after_first = manager.interpolation_speed_ratio;
    let server_time_after_first = manager.current_server_time();
    let tick_after_first = ticks.tick;

    manager.update(&zero, &mut ticks, 3, 100_000, 10_000, &delay, 48_000);
    assert_eq!(manager.interpolation_speed_ratio, ratio_after_first);
    assert_eq!(manager.current_server_time(), server_time_after_first);
    assert_eq!(ticks.tick, tick_after_first);
}

#[test]
fn server_time_bootstraps_then_smooths() {
    let mut manager = SyncManager::new(SyncConfig::default());
    manager.latest_received_server_tick = Tick(10);
    manager.duration_since_latest_received_server_tick_us = 2_000;
    // first sample bootstraps unsmoothed: 10 * 16ms + 2ms + 50ms = 212ms
    manager.update_current_server_time(16_000, 100_000);
    assert_eq!(manager.current_server_time(), WrappedTime { elapsed_us_wrapped: 212_000 });
    // a second sample is blended: (212000 * 100 + 232000 * 900) / 1000
    manager.duration_since_latest_received_server_tick_us = 22_000;
    manager.update_current_server_time(16_000, 100_000);
    assert_eq!(manager.current_server_time(), WrappedTime { elapsed_us_wrapped: 230_000 });
}

#[test]
fn interpolation_ratio_eases_toward_objective() {
    let mut manager = SyncManager::new(SyncConfig::default());
    let ticks = tick_manager(16_000, 0);
    let delay = InterpolationDelay::default().with_send_interval_ratio(0);
    manager.latest_received_server_tick = Tick(10);
    manager.duration_since_latest_received_server_tick_us = 0;
    // objective = 10 * 16ms = 160ms, with a zero interpolation delay

    // cursor exactly at tolerance below the objective: normal speed
    manager.interpolation_time = WrappedTime { elapsed_us_wrapped: 150_000 };
    manager.update_interpolation_time(&delay, 48_000, &ticks);
    assert_eq!(manager.interpolation_speed_ratio, RelativeSpeed::Normal);

    // one microsecond further behind: speed up
    manager.interpolation_time = WrappedTime { elapsed_us_wrapped: 149_999 };
    manager.update_interpolation_time(&delay, 48_000, &ticks);
    assert_eq!(manager.interpolation_speed_ratio, RelativeSpeed::SpedUp);

    // too far ahead: slow down
    manager.interpolation_time = WrappedTime { elapsed_us_wrapped: 171_000 };
    manager.update_interpolation_time(&delay, 48_000, &ticks);
    assert_eq!(manager.interpolation_speed_ratio, RelativeSpeed::Slowed);
}

#[test]
fn upstream_throttle_picks_speed_from_error() {
    let mut manager = SyncManager::new(SyncConfig::default());
    manager.current_server_time = WrappedTime { elapsed_us_wrapped: 100_000 };
    // predicted server receive time = 100ms + 5ms = 105ms;
    // client ahead minimum = 3 * 2ms + 1 * 10ms = 16ms;
    // error margin = one tick = 10ms
    let ticks = tick_manager(10_000, 15);
    let mut tm = time_manager(1_000);

    // prediction time 150ms: error = 45 - 16 = 29ms > 10ms: slow down
    manager.update_prediction_time(&mut tm, &ticks, 10_000, 2_000);
    assert_eq!(tm.sync_relative_speed, RelativeSpeed::Slowed);

    // prediction time 110ms: error = 5 - 16 = -11ms < -10ms: speed up
    let ticks = tick_manager(10_000, 11);
    manager.update_prediction_time(&mut tm, &ticks, 10_000, 2_000);
    assert_eq!(tm.sync_relative_speed, RelativeSpeed::SpedUp);

    // prediction time 125ms: error = 20 - 16 = 4ms, within margin
    let ticks = tick_manager(10_000, 12);
    tm.overstep_us = 5_000;
    manager.update_prediction_time(&mut tm, &ticks, 10_000, 2_000);
    assert_eq!(tm.sync_relative_speed, RelativeSpeed::Normal);
}

#[test]
fn prediction_time_corrects_wrapped_client_tick() {
    let mut manager = SyncManager::new(SyncConfig::default());
    manager.latest_received_server_tick = Tick(65_535);
    let tm = time_manager(0);
    // client tick 1 while the server is at 65535: the client wrapped, so a
    // full turn of the tick circle is added back before converting
    let ticks = tick_manager(1_000, 1);
    let corrected = manager.current_prediction_time(&ticks, &tm);
    assert_eq!(corrected.elapsed_us_wrapped, 65_537_000);
}

#[test]
fn prediction_time_wrap_heuristic_boundary() {
    let mut manager = SyncManager::new(SyncConfig::default());
    let tm = time_manager(0);
    // delta of exactly 31767 is still treated as plain distance
    manager.latest_received_server_tick = Tick(31_767);
    let ticks = tick_manager(1_000, 0);
    assert_eq!(manager.current_prediction_time(&ticks, &tm).elapsed_us_wrapped, 0);
    // one more and the client tick is treated as wrapped
    manager.latest_received_server_tick = Tick(31_768);
    assert_eq!(
        manager.current_prediction_time(&ticks, &tm).elapsed_us_wrapped,
        65_536_000
    );
}

#[test]
fn interpolation_tick_and_objective() {
    let mut manager = SyncManager::new(SyncConfig::default());
    manager.interpolation_time = WrappedTime { elapsed_us_wrapped: 35_000 };
    let ticks = tick_manager(16_000, 0);
    assert_eq!(manager.interpolation_tick(&ticks), Tick(2));

    manager.latest_received_server_tick = Tick(10);
    manager.duration_since_latest_received_server_tick_us = 4_000;
    // objective = 10 * 16ms + 4ms - 2 * 48ms = 68ms
    let objective = manager.interpolation_objective(
        &InterpolationDelay::default(),
        48_000,
        &ticks,
    );
    assert_eq!(objective.elapsed_us_wrapped, 68_000);
}

#[test]
fn tick_rebase_event_shifts_server_tick_bookkeeping() {
    let mut manager = SyncManager::new(SyncConfig::default());
    manager.latest_received_server_tick = Tick(200);
    manager.receive_tick_event(Tick(100), Tick(105));
    assert_eq!(manager.latest_received_server_tick, Tick(205));
    manager.receive_tick_event(Tick(50), Tick(40));
    assert_eq!(manager.latest_received_server_tick, Tick(195));
}
