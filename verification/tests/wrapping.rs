//! Tests of the wrap-aware tick and clock arithmetic, and of the small
//! configuration carriers.

use lightyear::interpolation::{InterpolationConfig, InterpolationDelay};
use lightyear::message::InputMessageKind;
use lightyear::plugin::{Authentication, ClientConfig, Plugin, PluginConfig};
use lightyear::sync::SentPacketStore;
use lightyear::tick::Tick;
use lightyear::time::{scaled_micros, RelativeSpeed, TickManager, WrappedTime};

#[test]
fn tick_diff_is_signed_shortest_distance() {
    assert_eq!(Tick(10).diff(Tick(4)), 6);
    assert_eq!(Tick(4).diff(Tick(10)), -6);
    // across the wrap boundary
    assert_eq!(Tick(1).diff(Tick(65_535)), 2);
    assert_eq!(Tick(65_535).diff(Tick(1)), -2);
    assert_eq!(Tick(0).diff(Tick(0)), 0);
    // the antipode is reported as the most negative distance
    assert_eq!(Tick(32_768).diff(Tick(0)), -32_768);
    assert_eq!(Tick(32_767).diff(Tick(0)), 32_767);
}

#[test]
fn tick_advance_retreat_and_shift_wrap() {
    assert_eq!(Tick(65_535).advance(1), Tick(0));
    assert_eq!(Tick(65_535).advance(3), Tick(2));
    assert_eq!(Tick(0).retreat(1), Tick(65_535));
    assert_eq!(Tick(5).shift(-7), Tick(65_534));
    assert_eq!(Tick(65_534).shift(7), Tick(5));
    assert_eq!(Tick(100).shift(0), Tick(100));
}

#[test]
fn wrapped_time_arithmetic() {
    let t = WrappedTime::from_micros(0xFFFF_FFFF);
    assert_eq!(t.add_micros(2).elapsed_us_wrapped, 1);
    assert_eq!(WrappedTime::from_micros(5).sub_micros(7).elapsed_us_wrapped, 0xFFFF_FFFE);
    // from_micros reduces modulo one clock turn
    assert_eq!(WrappedTime::from_micros(0x1_0000_0005).elapsed_us_wrapped, 5);
    // signed difference takes the shortest way around the circle
    let a = WrappedTime::from_micros(10);
    let b = WrappedTime::from_micros(0xFFFF_FFF0);
    assert_eq!(a.signed_diff(b), 26);
    assert_eq!(b.signed_diff(a), -26);
    assert_eq!(a.signed_diff(a), 0);
}

#[test]
fn scaled_micros_applies_ratio() {
    assert_eq!(scaled_micros(1_000, RelativeSpeed::Normal, 1030), 1_000);
    assert_eq!(scaled_micros(1_000, RelativeSpeed::SpedUp, 1030), 1_030);
    // slowed playback divides by the factor, rounding down
    assert_eq!(scaled_micros(1_000, RelativeSpeed::Slowed, 1030), 970);
    assert_eq!(scaled_micros(0, RelativeSpeed::SpedUp, 1030), 0);
}

#[test]
fn tick_manager_rebase_is_a_hard_snap() {
    let mut ticks = TickManager { tick_duration_us: 16_000, tick: Tick(7) };
    assert_eq!(ticks.current_tick(), Tick(7));
    ticks.set_tick_to(Tick(500));
    assert_eq!(ticks.current_tick(), Tick(500));
    assert_eq!(ticks.tick_duration_us, 16_000);
}

#[test]
fn interpolation_delay_duration() {
    let delay = InterpolationDelay::default();
    assert_eq!(delay.min_delay_us, 0);
    assert_eq!(delay.send_interval_ratio_per_mille, 2000);
    // ratio part: twice the send interval
    assert_eq!(delay.to_duration(50_000), 100_000);
    // the fixed minimum wins when larger
    let floored = delay.with_min_delay(150_000);
    assert_eq!(floored.to_duration(50_000), 150_000);
    let halved = delay.with_send_interval_ratio(500);
    assert_eq!(halved.to_duration(50_000), 25_000);
    let config = InterpolationConfig::default().with_delay(floored);
    assert_eq!(config.delay.min_delay_us, 150_000);
}

#[test]
fn sent_packet_store_starts_empty() {
    let store = SentPacketStore::new();
    assert_eq!(store.buffer.len(), 0);
    let defaulted = SentPacketStore::default();
    assert_eq!(defaulted.buffer.len(), 0);
}

#[test]
fn plugin_carries_its_configuration() {
    let client_config = ClientConfig::default();
    assert_eq!(client_config.tick_duration_us, 16_000);
    assert_eq!(client_config.input.packet_redundancy, 10);
    let config = PluginConfig::new(client_config, "protocol", Authentication { client_id: 42 });
    let plugin = Plugin::new(config);
    assert_eq!(plugin.config.auth.client_id, 42);
    assert_eq!(plugin.config.protocol, "protocol");
    assert_eq!(plugin.config.client_config.tick_duration_us, 16_000);
}

#[test]
fn input_message_kind_distinguishes_input_messages() {
    let native = InputMessageKind::Native;
    let regular = InputMessageKind::Regular;
    assert!(matches!(native, InputMessageKind::Native));
    assert!(matches!(regular, InputMessageKind::Regular));
}
